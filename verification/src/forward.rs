//! Forwarding to the downstream collector: what is sent, and what its
//! answer means for the client.

use vstd::prelude::*;
use crate::error::{ApiError, BAD_GATEWAY, SERVICE_UNAVAILABLE};
use crate::signal::Signal;

verus! {

/// One POST to the downstream collector.
#[derive(Debug)]
pub struct ForwardRequest {
    pub url: String,
    pub content_type: &'static str,
    pub content_encoding: Option<String>,
    pub body: Vec<u8>,
}

/// How a POST to the collector ended.
#[derive(Debug)]
pub enum CollectorOutcome {
    /// No response arrived: connecting, TLS or the request itself failed or
    /// timed out.
    Unreachable,
    /// A response arrived. `body` is `None` where reading it failed.
    Response { status: u16, content_type: Option<Vec<u8>>, body: Option<Vec<u8>> },
}

/// What the gateway answers a client whose payload was forwarded.
#[derive(Debug)]
pub struct GatewayResponse {
    pub status: u16,
    pub content_type: Option<Vec<u8>>,
    pub body: Vec<u8>,
}

/// The mathematical content of a `GatewayResponse`.
pub ghost struct ResponseModel {
    pub status: u16,
    pub content_type: Option<Seq<u8>>,
    pub body: Seq<u8>,
}

/// The bytes of an optional byte vector.
pub open spec fn optional_bytes(value: Option<Vec<u8>>) -> Option<Seq<u8>> {
    match value {
        Some(bytes) => Some(bytes@),
        None => None,
    }
}

impl View for GatewayResponse {
    type V = ResponseModel;

    open spec fn view(&self) -> ResponseModel {
        ResponseModel {
            status: self.status,
            content_type: optional_bytes(self.content_type),
            body: self.body@,
        }
    }
}

/// The collector URL for `signal` below `endpoint`.
pub open spec fn collector_url(endpoint: Seq<char>, signal: Signal) -> Seq<char> {
    endpoint + "/v1/"@ + signal.name()
}

/// The URL of the collector's endpoint for `signal`.
pub fn forward_url(endpoint: &str, signal: Signal) -> (r: String)
    ensures
        r@ == collector_url(endpoint@, signal),
{
    let mut url = endpoint.to_owned();
    url.append("/v1/");
    url.append(signal.path());
    url
}

/// The class of an upstream status as counted in metrics.
pub open spec fn status_class(code: u16) -> Seq<char> {
    if 200 <= code <= 299 {
        "2xx"@
    } else if 400 <= code <= 499 {
        "4xx"@
    } else if 500 <= code <= 599 {
        "5xx"@
    } else {
        "other"@
    }
}

/// The class of an upstream status as counted in metrics.
pub fn status_bucket(code: u16) -> (r: &'static str)
    ensures
        r@ == status_class(code),
{
    if 200 <= code && code <= 299 {
        "2xx"
    } else if 400 <= code && code <= 499 {
        "4xx"
    } else if 500 <= code && code <= 599 {
        "5xx"
    } else {
        "other"
    }
}

/// What clients are told when the collector cannot take their payload.
pub open spec fn backend_unavailable() -> (u16, Seq<char>) {
    (SERVICE_UNAVAILABLE, "Telemetry backend unavailable"@)
}

/// Whether `code` is a status a response can carry.
pub open spec fn is_valid_status(code: u16) -> bool {
    100 <= code <= 999
}

/// The answer to the client for an outcome of the forward: the collector's
/// own status, content type and body for anything but a server error;
/// "unavailable" where the collector failed, could not be reached, or its
/// body could not be read.
pub open spec fn relayed(outcome: CollectorOutcome) -> Result<ResponseModel, (u16, Seq<char>)> {
    match outcome {
        CollectorOutcome::Unreachable => Err(backend_unavailable()),
        CollectorOutcome::Response { status, content_type, body } => if 500 <= status <= 599 {
            Err(backend_unavailable())
        } else {
            match body {
                None => Err(backend_unavailable()),
                Some(body) => Ok(
                    ResponseModel {
                        status: if is_valid_status(status) {
                            status
                        } else {
                            BAD_GATEWAY
                        },
                        content_type: optional_bytes(content_type),
                        body: body@,
                    },
                ),
            }
        },
    }
}

/// Maps the outcome of the forward to the answer for the client.
pub fn relay(outcome: CollectorOutcome) -> (r: Result<GatewayResponse, ApiError>)
    ensures
        match r {
            Ok(response) => relayed(outcome) == Ok::<ResponseModel, (u16, Seq<char>)>(response@),
            Err(e) => relayed(outcome) == Err::<ResponseModel, (u16, Seq<char>)>(e@),
        },
{
    match outcome {
        CollectorOutcome::Unreachable => Err(
            ApiError::service_unavailable("Telemetry backend unavailable"),
        ),
        CollectorOutcome::Response { status, content_type, body } => {
            if 500 <= status && status <= 599 {
                return Err(ApiError::service_unavailable("Telemetry backend unavailable"));
            }
            match body {
                None => Err(ApiError::service_unavailable("Telemetry backend unavailable")),
                Some(body) => {
                    let status: u16 = if 100 <= status && status <= 999 {
                        status
                    } else {
                        BAD_GATEWAY
                    };
                    Ok(GatewayResponse { status, content_type, body })
                },
            }
        },
    }
}

} // verus!
