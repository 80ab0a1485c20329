//! Usage metering: per-tenant byte counts, summed between flushes and
//! reported to the metering API.
//!
//! `UsageAggregator` is the state of the single background task that owns
//! the buckets. It decides; the task around it waits for ticks and events
//! and performs the HTTP calls that a flush asks for.

use uuid::Uuid;
use vstd::prelude::*;
use crate::text::{str_eq, trim_end_char, trim_end_matches};

verus! {

/// A report that `value_bytes` decoded bytes of `feature_id` telemetry were
/// ingested for `org_id`.
#[derive(Debug)]
pub struct UsageEvent {
    pub org_id: String,
    pub feature_id: &'static str,
    pub value_bytes: u64,
}

/// The bytes accumulated for one `(org_id, feature_id)` pair since the last
/// successful flush of that pair.
#[derive(Debug)]
pub struct UsageBucket {
    pub org_id: String,
    pub feature_id: &'static str,
    pub bytes: u64,
}

/// The mathematical content of a bucket.
pub ghost struct BucketModel {
    pub org_id: Seq<char>,
    pub feature_id: Seq<char>,
    pub bytes: nat,
}

impl View for UsageBucket {
    type V = BucketModel;

    open spec fn view(&self) -> BucketModel {
        BucketModel { org_id: self.org_id@, feature_id: self.feature_id@, bytes: self.bytes as nat }
    }
}

/// The contents of a list of buckets.
pub open spec fn bucket_models(buckets: Seq<UsageBucket>) -> Seq<BucketModel> {
    buckets.map_values(|b: UsageBucket| b@)
}

/// One POST to the metering API's `/v1/track`.
#[derive(Debug)]
pub struct TrackRequest {
    pub url: String,
    pub authorization: String,
    pub customer_id: String,
    pub feature_id: &'static str,
    pub value_bytes: u64,
    pub idempotency_key: String,
}

/// How the POST for one bucket ended: the status of the response, or `None`
/// where no response arrived.
#[derive(Debug)]
pub struct FlushOutcome {
    pub customer_id: String,
    pub feature_id: &'static str,
    pub status: Option<u16>,
}

/// The mathematical content of a flush outcome.
pub ghost struct OutcomeModel {
    pub customer_id: Seq<char>,
    pub feature_id: Seq<char>,
    pub success: bool,
}

/// Whether a response status is in the 2xx class.
pub open spec fn is_success_status(status: Option<u16>) -> bool {
    match status {
        Some(code) => 200 <= code < 300,
        None => false,
    }
}

impl View for FlushOutcome {
    type V = OutcomeModel;

    open spec fn view(&self) -> OutcomeModel {
        OutcomeModel {
            customer_id: self.customer_id@,
            feature_id: self.feature_id@,
            success: is_success_status(self.status),
        }
    }
}

/// The contents of a list of outcomes.
pub open spec fn outcome_models(outcomes: Seq<FlushOutcome>) -> Seq<OutcomeModel> {
    outcomes.map_values(|o: FlushOutcome| o@)
}

/// What a completed flush pass amounts to.
#[derive(Clone, Copy, Debug, PartialEq, Eq, Structural)]
pub struct FlushReport {
    /// Whether every POST of the pass got a 2xx response.
    pub all_ok: bool,
    /// The length of the current run of failed passes.
    pub consecutive_failures: u64,
    /// Whether this pass is the one at which the run of failed passes
    /// reaches the critical threshold.
    pub critical: bool,
    /// The number of buckets still pending after the pass.
    pub pending_entries: usize,
    /// The bytes still pending after the pass, over all buckets.
    pub pending_bytes: u128,
}

/// No two buckets are for the same `(org_id, feature_id)` pair.
pub open spec fn distinct_keys(buckets: Seq<BucketModel>) -> bool {
    forall|i: int, j: int|
        0 <= i < j < buckets.len() ==> !(#[trigger] buckets[i].org_id == #[trigger] buckets[j].org_id
            && buckets[i].feature_id == buckets[j].feature_id)
}

/// The index of the bucket for `(org_id, feature_id)`, or the number of
/// buckets if there is none.
pub open spec fn bucket_position(
    buckets: Seq<BucketModel>,
    org_id: Seq<char>,
    feature_id: Seq<char>,
) -> int
    decreases buckets.len(),
{
    if buckets.len() == 0 {
        0
    } else if buckets.first().org_id == org_id && buckets.first().feature_id == feature_id {
        0
    } else {
        1 + bucket_position(buckets.drop_first(), org_id, feature_id)
    }
}

/// `a + b`, or `u64::MAX` where the sum does not fit.
pub open spec fn saturating_sum(a: nat, b: nat) -> nat {
    if a + b <= u64::MAX {
        a + b
    } else {
        u64::MAX as nat
    }
}

/// The buckets after `bytes` more bytes were reported for
/// `(org_id, feature_id)`: its bucket grows, or is created.
pub open spec fn recorded(
    buckets: Seq<BucketModel>,
    org_id: Seq<char>,
    feature_id: Seq<char>,
    bytes: nat,
) -> Seq<BucketModel> {
    let i = bucket_position(buckets, org_id, feature_id);
    if i < buckets.len() {
        buckets.update(i, BucketModel { bytes: saturating_sum(buckets[i].bytes, bytes), ..buckets[i] })
    } else {
        buckets.push(BucketModel { org_id, feature_id, bytes })
    }
}

/// Whether some outcome says that the POST for `(org_id, feature_id)` got a
/// 2xx response.
pub open spec fn flushed(outcomes: Seq<OutcomeModel>, org_id: Seq<char>, feature_id: Seq<char>) -> bool {
    exists|i: int|
        0 <= i < outcomes.len() && (#[trigger] outcomes[i]).success && outcomes[i].customer_id
            == org_id && outcomes[i].feature_id == feature_id
}

/// The predicate "was not flushed successfully" on buckets.
pub open spec fn still_pending(outcomes: Seq<OutcomeModel>) -> spec_fn(BucketModel) -> bool {
    |b: BucketModel| !flushed(outcomes, b.org_id, b.feature_id)
}

/// The buckets that remain after a flush pass with these outcomes.
pub open spec fn remaining(buckets: Seq<BucketModel>, outcomes: Seq<OutcomeModel>) -> Seq<
    BucketModel,
> {
    buckets.filter(still_pending(outcomes))
}

/// Whether every POST of a pass got a 2xx response.
pub open spec fn all_succeeded(outcomes: Seq<OutcomeModel>) -> bool {
    forall|i: int| 0 <= i < outcomes.len() ==> (#[trigger] outcomes[i]).success
}

/// The bytes pending over all of `buckets`.
pub open spec fn pending_total(buckets: Seq<BucketModel>) -> nat
    decreases buckets.len(),
{
    if buckets.len() == 0 {
        0
    } else {
        pending_total(buckets.drop_last()) + buckets.last().bytes
    }
}

/// The number of consecutive failed passes that amounts to five minutes of
/// failure at one pass every `flush_interval_secs` seconds; at least one.
pub open spec fn critical_threshold_for(flush_interval_secs: u64) -> u64 {
    if flush_interval_secs == 0 {
        300
    } else if flush_interval_secs > 300 {
        1
    } else {
        (300u64 / flush_interval_secs) as u64
    }
}

/// The run of failed passes after one more pass.
pub open spec fn next_failures(failures: u64, all_ok: bool) -> u64 {
    if all_ok {
        0
    } else if failures == u64::MAX {
        u64::MAX
    } else {
        (failures + 1) as u64
    }
}

/// `bucket_position` is the least index holding the key, and the number of
/// buckets if no index holds it.
pub proof fn lemma_bucket_position(
    buckets: Seq<BucketModel>,
    org_id: Seq<char>,
    feature_id: Seq<char>,
)
    ensures
        0 <= bucket_position(buckets, org_id, feature_id) <= buckets.len(),
        forall|j: int|
            0 <= j < bucket_position(buckets, org_id, feature_id) ==> !((
            #[trigger] buckets[j]).org_id == org_id && buckets[j].feature_id == feature_id),
        bucket_position(buckets, org_id, feature_id) < buckets.len() ==> {
            let b = buckets[bucket_position(buckets, org_id, feature_id)];
            b.org_id == org_id && b.feature_id == feature_id
        },
    decreases buckets.len(),
{
    if buckets.len() > 0 && !(buckets.first().org_id == org_id && buckets.first().feature_id
        == feature_id) {
        let rest = buckets.drop_first();
        lemma_bucket_position(rest, org_id, feature_id);
        assert forall|j: int| 0 <= j < bucket_position(buckets, org_id, feature_id) implies !((
        #[trigger] buckets[j]).org_id == org_id && buckets[j].feature_id == feature_id) by {
            if j > 0 {
                assert(buckets[j] == rest[j - 1]);
            }
        }
    }
}

/// An index that holds the key and is preceded by none that does is
/// `bucket_position`.
pub proof fn lemma_bucket_position_is(
    buckets: Seq<BucketModel>,
    org_id: Seq<char>,
    feature_id: Seq<char>,
    i: int,
)
    requires
        0 <= i <= buckets.len(),
        forall|j: int|
            0 <= j < i ==> !((#[trigger] buckets[j]).org_id == org_id && buckets[j].feature_id
                == feature_id),
        i < buckets.len() ==> buckets[i].org_id == org_id && buckets[i].feature_id == feature_id,
    ensures
        bucket_position(buckets, org_id, feature_id) == i,
{
    lemma_bucket_position(buckets, org_id, feature_id);
    let p = bucket_position(buckets, org_id, feature_id);
    if p < i {
        assert(!(buckets[p].org_id == org_id && buckets[p].feature_id == feature_id));
    }
}

/// Recording usage keeps the keys of the buckets distinct.
pub proof fn lemma_recorded_distinct(
    buckets: Seq<BucketModel>,
    org_id: Seq<char>,
    feature_id: Seq<char>,
    bytes: nat,
)
    requires
        distinct_keys(buckets),
    ensures
        distinct_keys(recorded(buckets, org_id, feature_id, bytes)),
{
    lemma_bucket_position(buckets, org_id, feature_id);
    let after = recorded(buckets, org_id, feature_id, bytes);
    assert forall|i: int, j: int| 0 <= i < j < after.len() implies !(#[trigger] after[i].org_id
        == #[trigger] after[j].org_id && after[i].feature_id == after[j].feature_id) by {
        if j < buckets.len() {
            assert(after[i].org_id == buckets[i].org_id);
            assert(after[j].org_id == buckets[j].org_id);
            assert(after[i].feature_id == buckets[i].feature_id);
            assert(after[j].feature_id == buckets[j].feature_id);
        } else {
            assert(after[i].org_id == buckets[i].org_id);
            assert(after[i].feature_id == buckets[i].feature_id);
        }
    }
}

/// What remains of buckets with distinct keys has distinct keys.
pub proof fn lemma_remaining_distinct(buckets: Seq<BucketModel>, outcomes: Seq<OutcomeModel>)
    requires
        distinct_keys(buckets),
    ensures
        distinct_keys(remaining(buckets, outcomes)),
    decreases buckets.len(),
{
    reveal(Seq::filter);
    let pred = still_pending(outcomes);
    if buckets.len() > 0 {
        let shorter = buckets.drop_last();
        assert(distinct_keys(shorter)) by {
            assert forall|i: int, j: int| 0 <= i < j < shorter.len() implies !(
            #[trigger] shorter[i].org_id == #[trigger] shorter[j].org_id && shorter[i].feature_id
                == shorter[j].feature_id) by {
                assert(shorter[i] == buckets[i]);
                assert(shorter[j] == buckets[j]);
            }
        }
        lemma_remaining_distinct(shorter, outcomes);
        let kept = remaining(shorter, outcomes);
        let after = remaining(buckets, outcomes);
        if pred(buckets.last()) {
            assert(after == kept.push(buckets.last()));
            assert forall|i: int, j: int| 0 <= i < j < after.len() implies !(
            #[trigger] after[i].org_id == #[trigger] after[j].org_id && after[i].feature_id
                == after[j].feature_id) by {
                if j == kept.len() {
                    assert(kept.contains(kept[i]));
                    shorter.lemma_filter_contains_rev(pred, kept[i]);
                    let m = choose|m: int| 0 <= m < shorter.len() && shorter[m] == kept[i];
                    assert(buckets[m] == kept[i]);
                    assert(buckets[buckets.len() - 1] == after[j]);
                } else {
                    assert(after[i] == kept[i]);
                    assert(after[j] == kept[j]);
                }
            }
        } else {
            assert(after == kept);
        }
    }
}

/// After a flush pass, no bucket whose POST got a 2xx response is left,
/// and every other bucket is still there, as it was.
pub proof fn lemma_remaining(buckets: Seq<BucketModel>, outcomes: Seq<OutcomeModel>)
    ensures
        forall|k: int|
            0 <= k < remaining(buckets, outcomes).len() ==> {
                let b = #[trigger] remaining(buckets, outcomes)[k];
                !flushed(outcomes, b.org_id, b.feature_id) && buckets.contains(b)
            },
        forall|i: int|
            0 <= i < buckets.len() && !flushed(
                outcomes,
                (#[trigger] buckets[i]).org_id,
                buckets[i].feature_id,
            ) ==> remaining(buckets, outcomes).contains(buckets[i]),
{
    let pred = still_pending(outcomes);
    let left = remaining(buckets, outcomes);
    assert forall|k: int| 0 <= k < left.len() implies {
        let b = #[trigger] left[k];
        !flushed(outcomes, b.org_id, b.feature_id) && buckets.contains(b)
    } by {
        buckets.lemma_filter_pred(pred, k);
        assert(left.contains(left[k]));
        buckets.lemma_filter_contains_rev(pred, left[k]);
    }
    assert forall|i: int|
        0 <= i < buckets.len() && !flushed(
            outcomes,
            (#[trigger] buckets[i]).org_id,
            buckets[i].feature_id,
        ) implies left.contains(buckets[i]) by {
        assert(pred(buckets[i]));
        buckets.lemma_filter_contains(pred, i);
    }
}

/// Recording usage for a key adds its bytes to what is pending, as long as
/// the key's bucket does not saturate.
pub proof fn lemma_recorded_total(
    buckets: Seq<BucketModel>,
    org_id: Seq<char>,
    feature_id: Seq<char>,
    bytes: nat,
)
    requires
        ({
            let i = bucket_position(buckets, org_id, feature_id);
            i < buckets.len() ==> buckets[i].bytes + bytes <= u64::MAX
        }),
    ensures
        pending_total(recorded(buckets, org_id, feature_id, bytes)) == pending_total(buckets)
            + bytes,
{
    lemma_bucket_position(buckets, org_id, feature_id);
    let i = bucket_position(buckets, org_id, feature_id);
    let after = recorded(buckets, org_id, feature_id, bytes);
    if i < buckets.len() {
        lemma_updated_total(buckets, i, after[i]);
    } else {
        assert(after.drop_last() =~= buckets);
    }
}

/// Replacing one bucket changes the total by the difference of the bytes.
pub proof fn lemma_updated_total(buckets: Seq<BucketModel>, i: int, b: BucketModel)
    requires
        0 <= i < buckets.len(),
    ensures
        pending_total(buckets.update(i, b)) + buckets[i].bytes == pending_total(buckets) + b.bytes,
    decreases buckets.len(),
{
    let after = buckets.update(i, b);
    if i == buckets.len() - 1 {
        assert(after.drop_last() =~= buckets.drop_last());
    } else {
        lemma_updated_total(buckets.drop_last(), i, b);
        assert(after.drop_last() =~= buckets.drop_last().update(i, b));
    }
}

/// The URL that usage is posted to.
pub open spec fn track_url(api_url: Seq<char>) -> Seq<char> {
    api_url + "/v1/track"@
}

/// The `Authorization` header of a metering call.
pub open spec fn bearer(secret: Seq<char>) -> Seq<char> {
    "Bearer "@ + secret
}

/// Whether `requests` are the POSTs of one flush pass over `buckets`: one
/// per bucket, in order, each carrying the bucket's key and bytes, the
/// metering URL and secret, and an idempotency key.
pub open spec fn planned(
    requests: Seq<TrackRequest>,
    buckets: Seq<BucketModel>,
    api_url: Seq<char>,
    secret: Seq<char>,
) -> bool {
    &&& requests.len() == buckets.len()
    &&& forall|i: int|
        0 <= i < requests.len() ==> {
            let r = #[trigger] requests[i];
            &&& r.customer_id@ == buckets[i].org_id
            &&& r.feature_id@ == buckets[i].feature_id
            &&& r.value_bytes == buckets[i].bytes
            &&& r.url@ == track_url(api_url)
            &&& r.authorization@ == bearer(secret)
            &&& r.idempotency_key@.len() == 36
        }
}

/// No two requests of a pass are for the same `(customer_id, feature_id)`.
pub open spec fn one_request_per_key(requests: Seq<TrackRequest>) -> bool {
    forall|i: int, j: int|
        0 <= i < j < requests.len() ==> !(#[trigger] requests[i].customer_id@
            == #[trigger] requests[j].customer_id@ && requests[i].feature_id@
            == requests[j].feature_id@)
}

/// The report of a pass that left `buckets` pending and the failure run at
/// `failures`. The pass is critical where it failed and the run has just
/// reached `threshold`: once for each run that gets that long.
pub open spec fn report_of(
    all_ok: bool,
    failures: u64,
    threshold: u64,
    buckets: Seq<BucketModel>,
) -> FlushReport {
    FlushReport {
        all_ok,
        consecutive_failures: failures,
        critical: !all_ok && failures == threshold,
        pending_entries: buckets.len() as usize,
        pending_bytes: pending_total(buckets) as u128,
    }
}

/// Draws a random UUID with `Uuid::new_v4` and formats it with `to_string`,
/// which gives the hyphenated form of 36 characters. Which UUID comes out is
/// up to the random number generator.
#[verifier::external_body]
fn fresh_idempotency_key() -> (r: String)
    ensures
        r@.len() == 36,
{
    Uuid::new_v4().to_string()
}

/// The state of the usage aggregator.
pub struct UsageAggregator {
    secret_key: String,
    api_url: String,
    buckets: Vec<UsageBucket>,
    consecutive_failures: u64,
    critical_threshold: u64,
}

/// What the aggregator's task observed.
pub enum AggregatorEvent {
    /// The flush interval elapsed.
    Tick,
    /// A request handler reported usage.
    Report(UsageEvent),
    /// The POSTs of the pass asked for at the last tick have ended.
    Flushed(Vec<FlushOutcome>),
    /// Every sender is gone.
    Closed,
    /// The POSTs of the final pass have ended.
    FinalFlushed(Vec<FlushOutcome>),
}

/// What the aggregator's task has to do next.
pub enum AggregatorAction {
    /// Wait for the next event.
    Continue,
    /// Perform these POSTs, then come back with `Flushed`.
    Flush(Vec<TrackRequest>),
    /// Record the metrics of a completed pass, then wait for the next event.
    Settle(FlushReport),
    /// Perform these POSTs, then come back with `FinalFlushed`.
    FinalFlush(Vec<TrackRequest>),
    /// Exit.
    Stop,
}

impl UsageAggregator {
    #[verifier::type_invariant]
    spec fn well_formed(self) -> bool {
        &&& distinct_keys(bucket_models(self.buckets@))
        &&& self.critical_threshold >= 1
    }

    /// The pending buckets, in the order in which they were created.
    pub closed spec fn buckets(self) -> Seq<BucketModel> {
        bucket_models(self.buckets@)
    }

    /// The length of the current run of failed flush passes.
    pub closed spec fn failures(self) -> u64 {
        self.consecutive_failures
    }

    /// The length of a run of failed passes at which the run is critical.
    pub closed spec fn threshold(self) -> u64 {
        self.critical_threshold
    }

    /// The base URL of the metering API, without a trailing slash.
    pub closed spec fn api_url(self) -> Seq<char> {
        self.api_url@
    }

    /// The secret that authorizes metering calls.
    pub closed spec fn secret(self) -> Seq<char> {
        self.secret_key@
    }

    /// An aggregator with no buckets and no failures behind it.
    pub fn new(secret_key: String, api_url: &str, flush_interval_secs: u64) -> (r: UsageAggregator)
        ensures
            r.buckets() == Seq::<BucketModel>::empty(),
            r.failures() == 0,
            r.threshold() == critical_threshold_for(flush_interval_secs),
            r.api_url() == trim_end_char(api_url@, '/'),
            r.secret() == secret_key@,
    {
        let critical_threshold: u64 = if flush_interval_secs == 0 {
            300
        } else if flush_interval_secs > 300 {
            1
        } else {
            assert(300u64 / flush_interval_secs >= 1) by (nonlinear_arith)
                requires
                    1 <= flush_interval_secs <= 300,
            ;
            300 / flush_interval_secs
        };
        let buckets: Vec<UsageBucket> = Vec::new();
        assert(bucket_models(buckets@) =~= Seq::<BucketModel>::empty());
        UsageAggregator {
            secret_key,
            api_url: trim_end_matches(api_url, '/').to_owned(),
            buckets,
            consecutive_failures: 0,
            critical_threshold,
        }
    }

    /// The length of the current run of failed flush passes.
    pub fn consecutive_failures(&self) -> (r: u64)
        ensures
            r == self.failures(),
    {
        self.consecutive_failures
    }

    /// The length of a run of failed passes at which the run is critical.
    pub fn critical_threshold(&self) -> (r: u64)
        ensures
            r == self.threshold(),
            r >= 1,
    {
        proof {
            use_type_invariant(self);
        }
        self.critical_threshold
    }

    /// Adds the bytes of `event` to the bucket of its `(org_id, feature_id)`
    /// pair, creating the bucket if there is none. A bucket that would
    /// exceed `u64::MAX` bytes stays at `u64::MAX`.
    pub fn record(&mut self, event: UsageEvent)
        ensures
            final(self).buckets() == recorded(
                old(self).buckets(),
                event.org_id@,
                event.feature_id@,
                event.value_bytes as nat,
            ),
            distinct_keys(final(self).buckets()),
            final(self).failures() == old(self).failures(),
            final(self).threshold() == old(self).threshold(),
            final(self).api_url() == old(self).api_url(),
            final(self).secret() == old(self).secret(),
    {
        proof {
            use_type_invariant(&*self);
        }
        let ghost before = bucket_models(self.buckets@);
        proof {
            lemma_recorded_distinct(
                before,
                event.org_id@,
                event.feature_id@,
                event.value_bytes as nat,
            );
        }
        let mut i: usize = 0;
        while i < self.buckets.len()
            invariant
                i <= self.buckets.len(),
                *self == *old(self),
                self.critical_threshold >= 1,
                before == bucket_models(self.buckets@),
                distinct_keys(
                    recorded(before, event.org_id@, event.feature_id@, event.value_bytes as nat),
                ),
                forall|j: int|
                    0 <= j < i ==> !((#[trigger] before[j]).org_id == event.org_id@
                        && before[j].feature_id == event.feature_id@),
            decreases self.buckets.len() - i,
        {
            if str_eq(self.buckets[i].org_id.as_str(), event.org_id.as_str()) && str_eq(
                self.buckets[i].feature_id,
                event.feature_id,
            ) {
                proof {
                    lemma_bucket_position_is(before, event.org_id@, event.feature_id@, i as int);
                }
                let bytes: u64 = self.buckets[i].bytes.saturating_add(event.value_bytes);
                let ghost target = recorded(
                    before,
                    event.org_id@,
                    event.feature_id@,
                    event.value_bytes as nat,
                );
                let mut buckets: Vec<UsageBucket> = Vec::new();
                std::mem::swap(&mut self.buckets, &mut buckets);
                buckets[i].bytes = bytes;
                assert(bucket_models(buckets@) =~= target);
                self.buckets = buckets;
                return ;
            }
            i += 1;
        }
        proof {
            lemma_bucket_position_is(before, event.org_id@, event.feature_id@, before.len() as int);
        }
        let ghost target = recorded(
            before,
            event.org_id@,
            event.feature_id@,
            event.value_bytes as nat,
        );
        let mut buckets: Vec<UsageBucket> = Vec::new();
        std::mem::swap(&mut self.buckets, &mut buckets);
        buckets.push(
            UsageBucket {
                org_id: event.org_id,
                feature_id: event.feature_id,
                bytes: event.value_bytes,
            },
        );
        assert(bucket_models(buckets@) =~= target);
        self.buckets = buckets;
    }

    /// Snapshots every bucket as one POST with a fresh idempotency key.
    /// Each bucket is asked for once; nothing changes in the aggregator.
    pub fn plan_flush(&self) -> (requests: Vec<TrackRequest>)
        ensures
            planned(requests@, self.buckets(), self.api_url(), self.secret()),
            one_request_per_key(requests@),
    {
        proof {
            use_type_invariant(self);
        }
        let ghost all = bucket_models(self.buckets@);
        let mut requests: Vec<TrackRequest> = Vec::new();
        let mut i: usize = 0;
        while i < self.buckets.len()
            invariant
                i <= self.buckets.len(),
                all == bucket_models(self.buckets@),
                planned(requests@, all.take(i as int), self.api_url@, self.secret_key@),
            decreases self.buckets.len() - i,
        {
            let mut url = self.api_url.clone();
            url.append("/v1/track");
            let mut authorization = "Bearer ".to_owned();
            authorization.append(self.secret_key.as_str());
            let request = TrackRequest {
                url,
                authorization,
                customer_id: self.buckets[i].org_id.clone(),
                feature_id: self.buckets[i].feature_id,
                value_bytes: self.buckets[i].bytes,
                idempotency_key: fresh_idempotency_key(),
            };
            requests.push(request);
            i += 1;
        }
        proof {
            assert(all.take(i as int) =~= all);
            assert forall|a: int, b: int| 0 <= a < b < requests@.len() implies !(
            #[trigger] requests@[a].customer_id@ == #[trigger] requests@[b].customer_id@
                && requests@[a].feature_id@ == requests@[b].feature_id@) by {
                assert(all[a].org_id == requests@[a].customer_id@);
                assert(all[b].org_id == requests@[b].customer_id@);
            }
        }
        requests
    }

    /// Removes every bucket whose POST got a 2xx response and keeps the
    /// others as they are.
    fn remove_flushed(&mut self, outcomes: &Vec<FlushOutcome>)
        ensures
            final(self).buckets() == remaining(old(self).buckets(), outcome_models(outcomes@)),
            distinct_keys(final(self).buckets()),
            final(self).failures() == old(self).failures(),
            final(self).threshold() == old(self).threshold(),
            final(self).api_url() == old(self).api_url(),
            final(self).secret() == old(self).secret(),
    {
        proof {
            use_type_invariant(&*self);
        }
        let ghost before = bucket_models(self.buckets@);
        let ghost results = outcome_models(outcomes@);
        let mut all: Vec<UsageBucket> = Vec::new();
        std::mem::swap(&mut self.buckets, &mut all);
        let mut kept: Vec<UsageBucket> = Vec::new();
        proof {
            reveal(Seq::filter);
            assert(before.take(0) =~= Seq::<BucketModel>::empty());
        }
        for bucket in it: all.into_iter()
            invariant
                bucket_models(it.seq()) == before,
                results == outcome_models(outcomes@),
                bucket_models(kept@) == remaining(before.take(it.index() as int), results),
        {
            let ghost n = it.index() as int;
            proof {
                reveal(Seq::filter);
                assert(before.take(n + 1).drop_last() =~= before.take(n));
                assert(before.take(n + 1).last() == bucket@);
            }
            if !was_flushed(outcomes, bucket.org_id.as_str(), bucket.feature_id) {
                let ghost shorter = bucket_models(kept@);
                kept.push(bucket);
                assert(bucket_models(kept@) =~= shorter.push(bucket@));
            }
        }
        proof {
            assert(before.take(before.len() as int) =~= before);
            lemma_remaining_distinct(before, results);
        }
        self.buckets = kept;
    }

    /// Takes in the outcomes of a periodic flush pass: buckets whose POST
    /// got a 2xx response are removed, the others stay; the run of failed
    /// passes ends if every POST succeeded and grows by one otherwise.
    pub fn complete_flush(&mut self, outcomes: &Vec<FlushOutcome>) -> (report: FlushReport)
        ensures
            final(self).buckets() == remaining(old(self).buckets(), outcome_models(outcomes@)),
            distinct_keys(final(self).buckets()),
            final(self).failures() == next_failures(
                old(self).failures(),
                all_succeeded(outcome_models(outcomes@)),
            ),
            final(self).threshold() == old(self).threshold(),
            final(self).api_url() == old(self).api_url(),
            final(self).secret() == old(self).secret(),
            report == report_of(
                all_succeeded(outcome_models(outcomes@)),
                final(self).failures(),
                final(self).threshold(),
                final(self).buckets(),
            ),
    {
        self.remove_flushed(outcomes);
        proof {
            use_type_invariant(&*self);
        }
        let all_ok = all_ok(outcomes);
        if all_ok {
            self.consecutive_failures = 0;
        } else {
            self.consecutive_failures = self.consecutive_failures.saturating_add(1);
        }
        proof {
            use_type_invariant(&*self);
        }
        FlushReport {
            all_ok,
            consecutive_failures: self.consecutive_failures,
            critical: !all_ok && self.consecutive_failures == self.critical_threshold,
            pending_entries: self.buckets.len(),
            pending_bytes: self.pending_bytes(),
        }
    }

    /// Takes in the outcomes of the final flush pass at shutdown: buckets
    /// whose POST got a 2xx response are removed; nothing else changes.
    pub fn complete_final_flush(&mut self, outcomes: &Vec<FlushOutcome>)
        ensures
            final(self).buckets() == remaining(old(self).buckets(), outcome_models(outcomes@)),
            distinct_keys(final(self).buckets()),
            final(self).failures() == old(self).failures(),
            final(self).threshold() == old(self).threshold(),
            final(self).api_url() == old(self).api_url(),
            final(self).secret() == old(self).secret(),
    {
        self.remove_flushed(outcomes);
    }

    /// Whether `after` and `action` are what one step on `event` makes of
    /// `self`.
    pub open spec fn steps_to(
        self,
        event: AggregatorEvent,
        after: UsageAggregator,
        action: AggregatorAction,
    ) -> bool {
        &&& after.threshold() == self.threshold()
        &&& after.api_url() == self.api_url()
        &&& after.secret() == self.secret()
        &&& match event {
            AggregatorEvent::Tick => {
                &&& after.buckets() == self.buckets()
                &&& after.failures() == self.failures()
                &&& if self.buckets().len() == 0 {
                    action is Continue
                } else {
                    action matches AggregatorAction::Flush(requests) && planned(
                        requests@,
                        self.buckets(),
                        self.api_url(),
                        self.secret(),
                    ) && one_request_per_key(requests@)
                }
            },
            AggregatorEvent::Report(usage) => {
                &&& after.buckets() == recorded(
                    self.buckets(),
                    usage.org_id@,
                    usage.feature_id@,
                    usage.value_bytes as nat,
                )
                &&& after.failures() == self.failures()
                &&& action is Continue
            },
            AggregatorEvent::Flushed(outcomes) => {
                let all_ok = all_succeeded(outcome_models(outcomes@));
                &&& after.buckets() == remaining(self.buckets(), outcome_models(outcomes@))
                &&& after.failures() == next_failures(self.failures(), all_ok)
                &&& action == AggregatorAction::Settle(
                    report_of(all_ok, after.failures(), after.threshold(), after.buckets()),
                )
            },
            AggregatorEvent::Closed => {
                &&& after.buckets() == self.buckets()
                &&& after.failures() == self.failures()
                &&& if self.buckets().len() == 0 {
                    action is Stop
                } else {
                    action matches AggregatorAction::FinalFlush(requests) && planned(
                        requests@,
                        self.buckets(),
                        self.api_url(),
                        self.secret(),
                    ) && one_request_per_key(requests@)
                }
            },
            AggregatorEvent::FinalFlushed(outcomes) => {
                &&& after.buckets() == remaining(self.buckets(), outcome_models(outcomes@))
                &&& after.failures() == self.failures()
                &&& action is Stop
            },
        }
    }

    /// One step of the aggregator's task: takes in what the task observed
    /// and says what it has to do next.
    ///
    /// A tick with nothing pending asks for nothing. A tick with buckets
    /// pending asks for one POST per bucket and changes nothing until the
    /// outcomes come back. When every sender is gone, one last pass is asked
    /// for if anything is pending, and its outcomes end the task.
    pub fn step(&mut self, event: AggregatorEvent) -> (action: AggregatorAction)
        ensures
            old(self).steps_to(event, *final(self), action),
            distinct_keys(final(self).buckets()),
    {
        proof {
            use_type_invariant(&*self);
        }
        match event {
            AggregatorEvent::Tick => {
                if self.buckets.len() == 0 {
                    AggregatorAction::Continue
                } else {
                    AggregatorAction::Flush(self.plan_flush())
                }
            },
            AggregatorEvent::Report(usage) => {
                self.record(usage);
                AggregatorAction::Continue
            },
            AggregatorEvent::Flushed(outcomes) => {
                let report = self.complete_flush(&outcomes);
                AggregatorAction::Settle(report)
            },
            AggregatorEvent::Closed => {
                if self.buckets.len() == 0 {
                    AggregatorAction::Stop
                } else {
                    AggregatorAction::FinalFlush(self.plan_flush())
                }
            },
            AggregatorEvent::FinalFlushed(outcomes) => {
                self.complete_final_flush(&outcomes);
                AggregatorAction::Stop
            },
        }
    }

    /// The number of pending buckets.
    pub fn pending_entries(&self) -> (r: usize)
        ensures
            r == self.buckets().len(),
    {
        self.buckets.len()
    }

    /// The bytes pending over all buckets.
    pub fn pending_bytes(&self) -> (r: u128)
        ensures
            r == pending_total(self.buckets()),
    {
        let ghost all = bucket_models(self.buckets@);
        let mut acc: u128 = 0;
        let mut i: usize = 0;
        assert(all.take(0) =~= Seq::<BucketModel>::empty());
        while i < self.buckets.len()
            invariant
                i <= self.buckets.len(),
                all == bucket_models(self.buckets@),
                acc == pending_total(all.take(i as int)),
                acc <= i * 0xffff_ffff_ffff_ffff,
            decreases self.buckets.len() - i,
        {
            assert(all.take(i + 1).drop_last() =~= all.take(i as int));
            assert(all.take(i + 1).last().bytes == self.buckets[i as int].bytes);
            assert((i + 1) * 0xffff_ffff_ffff_ffff == i * 0xffff_ffff_ffff_ffff
                + 0xffff_ffff_ffff_ffff) by (nonlinear_arith);
            assert(i * 0xffff_ffff_ffff_ffff <= 0xffff_ffff_ffff_ffff * 0xffff_ffff_ffff_ffff)
                by (nonlinear_arith)
                requires
                    i <= 0xffff_ffff_ffff_ffff,
            ;
            let bytes: u64 = self.buckets[i].bytes;
            acc = acc + (bytes as u128);
            i += 1;
        }
        assert(all.take(i as int) =~= all);
        acc
    }
}

/// Whether some outcome reports a 2xx response for `(org_id, feature_id)`.
fn was_flushed(outcomes: &Vec<FlushOutcome>, org_id: &str, feature_id: &str) -> (r: bool)
    ensures
        r == flushed(outcome_models(outcomes@), org_id@, feature_id@),
{
    let ghost results = outcome_models(outcomes@);
    let mut i: usize = 0;
    while i < outcomes.len()
        invariant
            i <= outcomes.len(),
            results == outcome_models(outcomes@),
            forall|j: int|
                0 <= j < i ==> !((#[trigger] results[j]).success && results[j].customer_id
                    == org_id@ && results[j].feature_id == feature_id@),
        decreases outcomes.len() - i,
    {
        if is_success(outcomes[i].status) && str_eq(outcomes[i].customer_id.as_str(), org_id)
            && str_eq(outcomes[i].feature_id, feature_id) {
            assert(results[i as int].success);
            return true;
        }
        i += 1;
    }
    false
}

/// Whether every outcome reports a 2xx response.
fn all_ok(outcomes: &Vec<FlushOutcome>) -> (r: bool)
    ensures
        r == all_succeeded(outcome_models(outcomes@)),
{
    let ghost results = outcome_models(outcomes@);
    let mut i: usize = 0;
    while i < outcomes.len()
        invariant
            i <= outcomes.len(),
            results == outcome_models(outcomes@),
            forall|j: int| 0 <= j < i ==> (#[trigger] results[j]).success,
        decreases outcomes.len() - i,
    {
        if !is_success(outcomes[i].status) {
            assert(!results[i as int].success);
            return false;
        }
        i += 1;
    }
    true
}

/// Whether the metering API accepted a POST: a response arrived and its
/// status is in the 2xx class.
pub fn is_success(status: Option<u16>) -> (r: bool)
    ensures
        r == is_success_status(status),
{
    match status {
        Some(code) => 200 <= code && code < 300,
        None => false,
    }
}

} // verus!
