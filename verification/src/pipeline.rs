//! The request pipeline: the decisions of one `POST /v1/{signal}`, stage by
//! stage.
//!
//! The gateway's handler does the waiting — it asks the key store, and it
//! posts to the collector — and calls the stage that is due with what came
//! back. Every stage either names the next thing to do or the failure to
//! answer with; no stage is entered after a failure.

use vstd::prelude::*;
use crate::codec::{
    decode_payload, decoded, detect_payload_format, encode_payload, encoded, format_of,
    unsupported_content_type, PayloadFormat,
};
use crate::enrich::{clamped, enrich_payload, enriched_request, item_total};
use crate::error::{ApiError, PAYLOAD_TOO_LARGE, SERVICE_UNAVAILABLE, UNAUTHORIZED};
use crate::forward::{
    collector_url, forward_url, relay, relayed, CollectorOutcome, ForwardRequest, GatewayResponse,
    ResponseModel,
};
use crate::keys::{
    extract_ingest_key, ingest_key_hash, key_id_of, key_type_of, lookup_query, presented_key,
    IngestKeyResolver, IngestKeyType, KeyLookup, ResolvedIngestKey, HASH_LENGTH,
};
use crate::otlp::{invalid_payload, parsed, serialize_failure, serialized};
use crate::signal::Signal;
use crate::text::{lowercased, str_eq, string_text, text_of, to_ascii_lowercase, trim, trimmed};
use crate::usage::UsageEvent;

verus! {

/// A request that failed: what to answer, and the kind of failure as
/// counted in metrics.
#[derive(Debug)]
pub struct Failure {
    pub error: ApiError,
    pub kind: &'static str,
}

/// The mathematical content of a `Failure`.
pub ghost struct FailureModel {
    pub status: u16,
    pub message: Seq<char>,
    pub kind: Seq<char>,
}

impl View for Failure {
    type V = FailureModel;

    open spec fn view(&self) -> FailureModel {
        FailureModel { status: self.error.status, message: self.error.message@, kind: self.kind@ }
    }
}

/// The failure of kind `kind` that answers with `error`.
pub open spec fn failure(error: (u16, Seq<char>), kind: Seq<char>) -> FailureModel {
    FailureModel { status: error.0, message: error.1, kind }
}

/// The answer to a request that presents no key.
pub open spec fn missing_key() -> FailureModel {
    failure((UNAUTHORIZED, "Missing ingest key"@), "auth"@)
}

/// The answer to a key that no tenant owns.
pub open spec fn invalid_key() -> FailureModel {
    failure((UNAUTHORIZED, "Invalid ingest key"@), "auth"@)
}

/// The answer when the key store cannot be asked.
pub open spec fn auth_unavailable() -> FailureModel {
    failure((SERVICE_UNAVAILABLE, "Ingest authentication unavailable"@), "auth"@)
}

/// The answer to a body over the configured limit.
pub open spec fn body_too_large() -> FailureModel {
    failure((PAYLOAD_TOO_LARGE, "Request body too large"@), "payload_too_large"@)
}

/// What the first stage decided.
#[derive(Debug)]
pub enum AuthStep {
    /// Answer with this failure.
    Reject(Failure),
    /// Ask the key store, then go on with `key_resolved`.
    Lookup(KeyLookup),
}

/// First stage: takes the key from the headers and decides whether the key
/// store has to be asked. A request without a key, or with a key of an
/// unknown kind, is rejected without a lookup.
pub fn authenticate(
    resolver: &IngestKeyResolver,
    authorization: Option<&str>,
    ingest_key_header: Option<&str>,
) -> (step: AuthStep)
    ensures
        match presented_key(text_of(authorization), text_of(ingest_key_header)) {
            None => step matches AuthStep::Reject(f) && f@ == missing_key(),
            Some(key) => match key_type_of(key) {
                None => step matches AuthStep::Reject(f) && f@ == invalid_key(),
                Some(key_type) => step matches AuthStep::Lookup(lookup) && lookup.key_type
                    == key_type && lookup.key_hash@ == ingest_key_hash(
                    key,
                    resolver.lookup_hmac_key@,
                ) && lookup.key_hash@.len() == HASH_LENGTH && lookup.query@ == lookup_query(
                    key_type,
                ),
            },
        },
{
    let ingest_key = match extract_ingest_key(authorization, ingest_key_header) {
        Some(key) => key,
        None => {
            return AuthStep::Reject(
                Failure { error: ApiError::unauthorized("Missing ingest key"), kind: "auth" },
            );
        },
    };
    match resolver.begin_lookup(ingest_key.as_str()) {
        Ok(Some(lookup)) => AuthStep::Lookup(lookup),
        Ok(None) => AuthStep::Reject(
            Failure { error: ApiError::unauthorized("Invalid ingest key"), kind: "auth" },
        ),
        Err(_) => AuthStep::Reject(
            Failure {
                error: ApiError::service_unavailable("Ingest authentication unavailable"),
                kind: "auth",
            },
        ),
    }
}

/// Second stage: takes in the key store's answer to `lookup`. `answer` is
/// the `org_id` of the first matching row, `Ok(None)` where no row matched,
/// or the error the store failed with.
pub fn key_resolved(lookup: &KeyLookup, answer: Result<Option<String>, String>) -> (r: Result<
    ResolvedIngestKey,
    Failure,
>)
    ensures
        match answer {
            Ok(Some(org_id)) => r matches Ok(key) && key.org_id@ == org_id@ && key.key_type
                == lookup.key_type && key.key_id@ == key_id_of(lookup.key_hash@),
            Ok(None) => r matches Err(f) && f@ == invalid_key(),
            Err(_) => r matches Err(f) && f@ == auth_unavailable(),
        },
{
    match answer {
        Ok(row) => match IngestKeyResolver::finish_lookup(lookup, row) {
            Some(key) => Ok(key),
            None => Err(
                Failure { error: ApiError::unauthorized("Invalid ingest key"), kind: "auth" },
            ),
        },
        Err(_) => Err(
            Failure {
                error: ApiError::service_unavailable("Ingest authentication unavailable"),
                kind: "auth",
            },
        ),
    }
}

/// The format a request declares; protobuf where it declares none.
pub open spec fn declared_format(content_type: Option<Seq<char>>) -> Option<PayloadFormat> {
    match content_type {
        Some(value) => format_of(value),
        None => format_of("application/x-protobuf"@),
    }
}

/// The content encoding a request declares, trimmed and in lower case;
/// `None` where it declares none, a blank one, or `identity`.
pub open spec fn declared_encoding(content_encoding: Option<Seq<char>>) -> Option<Seq<char>> {
    match content_encoding {
        Some(value) => {
            let encoding = lowercased(trimmed(value));
            if encoding.len() == 0 || encoding == "identity"@ {
                None
            } else {
                Some(encoding)
            }
        },
        None => None,
    }
}

/// A request body that passed the size and media checks and was decoded.
#[derive(Debug)]
pub struct Admitted {
    pub format: PayloadFormat,
    pub encoding: Option<String>,
    pub payload: Vec<u8>,
}

/// The mathematical content of an `Admitted`.
pub ghost struct AdmittedModel {
    pub format: PayloadFormat,
    pub encoding: Option<Seq<char>>,
    pub payload: Seq<u8>,
}

impl View for Admitted {
    type V = AdmittedModel;

    open spec fn view(&self) -> AdmittedModel {
        AdmittedModel {
            format: self.format,
            encoding: string_text(self.encoding),
            payload: self.payload@,
        }
    }
}

/// The content of a result of admitting a body.
pub open spec fn admitted_result(r: Result<Admitted, Failure>) -> Result<
    AdmittedModel,
    FailureModel,
> {
    match r {
        Ok(a) => Ok(a@),
        Err(f) => Err(f@),
    }
}

/// What admitting a request body yields: the first failure in the order
/// size, content type, decoding; or else the declared format, the declared
/// encoding and the decoded payload.
pub open spec fn admitted(
    max_request_body_bytes: usize,
    body: Seq<u8>,
    content_type: Option<Seq<char>>,
    content_encoding: Option<Seq<char>>,
) -> Result<AdmittedModel, FailureModel> {
    let encoding = declared_encoding(content_encoding);
    if body.len() > max_request_body_bytes {
        Err(body_too_large())
    } else if declared_format(content_type) is None {
        Err(failure(unsupported_content_type(), "unsupported_media"@))
    } else {
        match decoded(body, encoding) {
            Err(e) => Err(failure(e, "decode"@)),
            Ok(payload) => Ok(
                AdmittedModel { format: declared_format(content_type)->0, encoding, payload },
            ),
        }
    }
}

/// An authenticated request, ready to be forwarded.
#[derive(Debug)]
pub struct Prepared {
    pub request: ForwardRequest,
    pub item_count: usize,
    pub decoded_bytes: usize,
}

/// The mathematical content of a `Prepared`.
pub ghost struct PreparedModel {
    pub url: Seq<char>,
    pub content_type: Seq<char>,
    pub content_encoding: Option<Seq<char>>,
    pub body: Seq<u8>,
    pub item_count: usize,
    pub decoded_bytes: nat,
}

impl View for Prepared {
    type V = PreparedModel;

    open spec fn view(&self) -> PreparedModel {
        PreparedModel {
            url: self.request.url@,
            content_type: self.request.content_type@,
            content_encoding: string_text(self.request.content_encoding),
            body: self.request.body@,
            item_count: self.item_count,
            decoded_bytes: self.decoded_bytes as nat,
        }
    }
}

/// The content of a result of preparing a forward.
pub open spec fn prepared_result(r: Result<Prepared, Failure>) -> Result<
    PreparedModel,
    FailureModel,
> {
    match r {
        Ok(p) => Ok(p@),
        Err(f) => Err(f@),
    }
}

/// What an admitted body becomes for the tenant `org_id`: the first failure
/// in the order parsing, serializing, re-encoding; or else the POST for the
/// collector, which carries the enriched payload in the format and encoding
/// the request came in.
pub open spec fn outbound(
    forward_endpoint: Seq<char>,
    signal: Signal,
    org_id: Seq<char>,
    key_type: IngestKeyType,
    admitted: AdmittedModel,
) -> Result<PreparedModel, FailureModel> {
    match parsed(signal, admitted.format, admitted.payload) {
        None => Err(failure(invalid_payload(signal, admitted.format), "enrich"@)),
        Some(request) => match serialized(
            enriched_request(request, org_id, key_type),
            admitted.format,
        ) {
            None => Err(failure(serialize_failure(signal), "enrich"@)),
            Some(bytes) => match encoded(bytes, admitted.encoding) {
                Err(e) => Err(failure(e, "encode"@)),
                Ok(wire) => Ok(
                    PreparedModel {
                        url: collector_url(forward_endpoint, signal),
                        content_type: admitted.format.media_type(),
                        content_encoding: admitted.encoding,
                        body: wire,
                        item_count: clamped(item_total(request)),
                        decoded_bytes: admitted.payload.len(),
                    },
                ),
            },
        },
    }
}

/// What the third stage makes of an authenticated request: the first
/// failure in the order size, content type, decoding, parsing and
/// serializing, re-encoding; or else the POST for the collector.
pub open spec fn prepared(
    max_request_body_bytes: usize,
    forward_endpoint: Seq<char>,
    signal: Signal,
    org_id: Seq<char>,
    key_type: IngestKeyType,
    body: Seq<u8>,
    content_type: Option<Seq<char>>,
    content_encoding: Option<Seq<char>>,
) -> Result<PreparedModel, FailureModel> {
    match admitted(max_request_body_bytes, body, content_type, content_encoding) {
        Err(f) => Err(f),
        Ok(a) => outbound(forward_endpoint, signal, org_id, key_type, a),
    }
}

/// The declared content encoding, normalized.
fn normalize_encoding(content_encoding: Option<&str>) -> (r: Option<String>)
    ensures
        string_text(r) == declared_encoding(text_of(content_encoding)),
{
    match content_encoding {
        Some(value) => {
            let encoding = to_ascii_lowercase(trim(value));
            if encoding.as_str().is_empty() || str_eq(encoding.as_str(), "identity") {
                None
            } else {
                Some(encoding)
            }
        },
        None => None,
    }
}

/// First half of the third stage: checks the size of the body, tells its
/// format and encoding from the headers, and decodes it. `content_type` and
/// `content_encoding` are the values of the headers of those names, `None`
/// where absent or not text.
pub fn admit_body(
    max_request_body_bytes: usize,
    body: &[u8],
    content_type: Option<&str>,
    content_encoding: Option<&str>,
) -> (r: Result<Admitted, Failure>)
    ensures
        admitted_result(r) == admitted(
            max_request_body_bytes,
            body@,
            text_of(content_type),
            text_of(content_encoding),
        ),
{
    if body.len() > max_request_body_bytes {
        return Err(
            Failure {
                error: ApiError::payload_too_large("Request body too large"),
                kind: "payload_too_large",
            },
        );
    }
    let declared = match content_type {
        Some(value) => value,
        None => "application/x-protobuf",
    };
    let format = match detect_payload_format(declared) {
        Ok(format) => format,
        Err(error) => {
            return Err(Failure { error, kind: "unsupported_media" });
        },
    };
    let encoding = normalize_encoding(content_encoding);
    let decoded_payload = match decode_payload(body, optional_str(&encoding)) {
        Ok(payload) => payload,
        Err(error) => {
            return Err(Failure { error, kind: "decode" });
        },
    };
    Ok(Admitted { format, encoding, payload: decoded_payload })
}

/// The text of an optional string, borrowed.
fn optional_str(value: &Option<String>) -> (r: Option<&str>)
    ensures
        text_of(r) == string_text(*value),
{
    match value {
        Some(text) => Some(text.as_str()),
        None => None,
    }
}

/// Second half of the third stage: parses the decoded payload, enriches
/// every resource for the authenticated tenant, serializes and re-encodes
/// it, and addresses it to the collector.
pub fn prepare_admitted(
    forward_endpoint: &str,
    signal: Signal,
    resolved_key: &ResolvedIngestKey,
    admitted: Admitted,
) -> (r: Result<Prepared, Failure>)
    ensures
        prepared_result(r) == outbound(
            forward_endpoint@,
            signal,
            resolved_key.org_id@,
            resolved_key.key_type,
            admitted@,
        ),
{
    let enrich_result = match enrich_payload(
        signal,
        admitted.format,
        admitted.payload.as_slice(),
        resolved_key,
    ) {
        Ok(result) => result,
        Err(error) => {
            return Err(Failure { error, kind: "enrich" });
        },
    };
    let outbound_body = match encode_payload(
        enrich_result.payload.as_slice(),
        optional_str(&admitted.encoding),
    ) {
        Ok(bytes) => bytes,
        Err(error) => {
            return Err(Failure { error, kind: "encode" });
        },
    };
    Ok(
        Prepared {
            request: ForwardRequest {
                url: forward_url(forward_endpoint, signal),
                content_type: admitted.format.content_type(),
                content_encoding: admitted.encoding,
                body: outbound_body,
            },
            item_count: enrich_result.item_count,
            decoded_bytes: admitted.payload.len(),
        },
    )
}

/// Third stage: checks, decodes, enriches and re-encodes the body of an
/// authenticated request. `content_type` and `content_encoding` are the
/// values of the headers of those names, `None` where absent or not text.
pub fn prepare_forward(
    max_request_body_bytes: usize,
    forward_endpoint: &str,
    signal: Signal,
    resolved_key: &ResolvedIngestKey,
    body: &[u8],
    content_type: Option<&str>,
    content_encoding: Option<&str>,
) -> (r: Result<Prepared, Failure>)
    ensures
        prepared_result(r) == prepared(
            max_request_body_bytes,
            forward_endpoint@,
            signal,
            resolved_key.org_id@,
            resolved_key.key_type,
            body@,
            text_of(content_type),
            text_of(content_encoding),
        ),
{
    match admit_body(max_request_body_bytes, body, content_type, content_encoding) {
        Ok(admitted) => prepare_admitted(forward_endpoint, signal, resolved_key, admitted),
        Err(failure) => Err(failure),
    }
}

/// A request that was forwarded and answered.
#[derive(Debug)]
pub struct Completed {
    pub response: GatewayResponse,
    pub item_count: usize,
    pub org_id: String,
    pub decoded_bytes: usize,
}

/// Fourth stage: takes in the outcome of the forward. A request completes
/// exactly when the collector's answer can be relayed.
pub fn complete(
    resolved_key: &ResolvedIngestKey,
    item_count: usize,
    decoded_bytes: usize,
    outcome: CollectorOutcome,
) -> (r: Result<Completed, Failure>)
    ensures
        match r {
            Ok(done) => relayed(outcome) == Ok::<ResponseModel, (u16, Seq<char>)>(done.response@)
                && done.item_count == item_count && done.org_id@ == resolved_key.org_id@
                && done.decoded_bytes == decoded_bytes,
            Err(f) => relayed(outcome) is Err && f@ == failure(relayed(outcome)->Err_0, "forward"@),
        },
{
    match relay(outcome) {
        Ok(response) => Ok(
            Completed { response, item_count, org_id: resolved_key.org_id.clone(), decoded_bytes },
        ),
        Err(error) => Err(Failure { error, kind: "forward" }),
    }
}

/// What is recorded about a request once it has ended.
#[derive(Debug)]
pub struct RequestSummary {
    /// `ok` or `error`.
    pub status: &'static str,
    /// The kind of failure, or `none`.
    pub error_kind: &'static str,
    /// The usage to report to the aggregator, if any.
    pub usage: Option<UsageEvent>,
}

/// Sums up a request that has ended. Usage is reported for a request that
/// completed — the decoded size of its body, for the tenant that
/// authenticated it, under the name of the signal — and for no other.
pub fn summarize(signal: Signal, result: &Result<Completed, Failure>) -> (summary: RequestSummary)
    ensures
        match result {
            Ok(done) => {
                &&& summary.status@ == "ok"@
                &&& summary.error_kind@ == "none"@
                &&& summary.usage matches Some(usage) && usage.org_id@ == done.org_id@
                    && usage.feature_id@ == signal.name() && usage.value_bytes
                    == done.decoded_bytes
            },
            Err(f) => summary.status@ == "error"@ && summary.error_kind@ == f.kind@
                && summary.usage is None,
        },
{
    match result {
        Ok(done) => RequestSummary {
            status: "ok",
            error_kind: "none",
            usage: Some(
                UsageEvent {
                    org_id: done.org_id.clone(),
                    feature_id: signal.path(),
                    value_bytes: done.decoded_bytes as u64,
                },
            ),
        },
        Err(f) => RequestSummary { status: "error", error_kind: f.kind, usage: None },
    }
}

} // verus!
