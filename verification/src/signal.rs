//! The three telemetry signals the gateway accepts.

use vstd::prelude::*;

verus! {

/// One of the three top-level OTLP telemetry categories.
#[derive(Clone, Copy, Debug, PartialEq, Eq, Structural)]
pub enum Signal {
    Traces,
    Logs,
    Metrics,
}

impl Signal {
    /// The name of the signal as a sequence of characters.
    pub open spec fn name(self) -> Seq<char> {
        match self {
            Signal::Traces => "traces"@,
            Signal::Logs => "logs"@,
            Signal::Metrics => "metrics"@,
        }
    }

    /// The upstream path segment, which is also the metering feature id.
    pub fn path(self) -> (r: &'static str)
        ensures
            r@ == self.name(),
    {
        match self {
            Signal::Traces => "traces",
            Signal::Logs => "logs",
            Signal::Metrics => "metrics",
        }
    }
}

} // verus!
