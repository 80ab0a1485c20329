//! Parsed OTLP export requests.
//!
//! The request messages themselves are values of `opentelemetry-proto`; this
//! module treats them as opaque and names the two things the gateway reads
//! from them: the attribute list of each resource entry and the number of
//! items under each of its scopes.

use opentelemetry_proto::tonic::collector::logs::v1::ExportLogsServiceRequest;
use opentelemetry_proto::tonic::collector::metrics::v1::ExportMetricsServiceRequest;
use opentelemetry_proto::tonic::collector::trace::v1::ExportTraceServiceRequest;
use opentelemetry_proto::tonic::common::v1::any_value::Value;
use opentelemetry_proto::tonic::common::v1::{AnyValue, KeyValue};
use opentelemetry_proto::tonic::resource::v1::Resource;
use prost::Message;
use vstd::prelude::*;
use crate::codec::PayloadFormat;
use crate::error::{ApiError, BAD_REQUEST, SERVICE_UNAVAILABLE};
use crate::signal::Signal;

verus! {

/// `AnyValue` of `opentelemetry-proto`: an attribute value, carried through
/// unopened.
#[verifier::external_type_specification]
#[verifier::external_body]
pub struct ExAnyValue(AnyValue);

/// `ExportTraceServiceRequest` of `opentelemetry-proto`.
#[verifier::external_type_specification]
#[verifier::external_body]
pub struct ExExportTraceServiceRequest(ExportTraceServiceRequest);

/// `ExportLogsServiceRequest` of `opentelemetry-proto`.
#[verifier::external_type_specification]
#[verifier::external_body]
pub struct ExExportLogsServiceRequest(ExportLogsServiceRequest);

/// `ExportMetricsServiceRequest` of `opentelemetry-proto`.
#[verifier::external_type_specification]
#[verifier::external_body]
pub struct ExExportMetricsServiceRequest(ExportMetricsServiceRequest);

/// The error of `prost`'s decoder.
#[verifier::external_type_specification]
#[verifier::external_body]
pub struct ExDecodeError(prost::DecodeError);

/// The error of `serde_json`.
#[verifier::external_type_specification]
#[verifier::external_body]
pub struct ExJsonError(serde_json::Error);

/// One resource-level attribute: a key and a value that is carried through
/// as the OTLP library holds it.
#[derive(Debug)]
pub struct ResourceAttribute {
    pub key: String,
    pub value: Option<AnyValue>,
    pub key_strindex: i32,
}

/// The mathematical content of an attribute's value: absent, a string, or
/// anything else, which is carried through as it came.
pub ghost enum ValueModel {
    Absent,
    Text(Seq<char>),
    Other(AnyValue),
}

/// The mathematical content of a `ResourceAttribute`.
pub ghost struct AttributeModel {
    pub key: Seq<char>,
    pub value: ValueModel,
    pub key_strindex: i32,
}

/// The string that `value` holds, if what it holds is a string.
pub uninterp spec fn any_value_text(value: AnyValue) -> Option<Seq<char>>;

/// The content of the value field of an attribute.
pub open spec fn value_model(value: Option<AnyValue>) -> ValueModel {
    match value {
        None => ValueModel::Absent,
        Some(v) => match any_value_text(v) {
            Some(text) => ValueModel::Text(text),
            None => ValueModel::Other(v),
        },
    }
}

impl View for ResourceAttribute {
    type V = AttributeModel;

    open spec fn view(&self) -> AttributeModel {
        AttributeModel {
            key: self.key@,
            value: value_model(self.value),
            key_strindex: self.key_strindex,
        }
    }
}

/// The contents of a list of attributes.
pub open spec fn models(attributes: Seq<ResourceAttribute>) -> Seq<AttributeModel> {
    attributes.map_values(|a: ResourceAttribute| a@)
}

/// A parsed export request of one of the three signals.
pub enum ParsedRequest {
    Traces(ExportTraceServiceRequest),
    Logs(ExportLogsServiceRequest),
    Metrics(ExportMetricsServiceRequest),
}

impl ParsedRequest {
    /// The signal that the request is of.
    pub open spec fn signal(self) -> Signal {
        match self {
            ParsedRequest::Traces(_) => Signal::Traces,
            ParsedRequest::Logs(_) => Signal::Logs,
            ParsedRequest::Metrics(_) => Signal::Metrics,
        }
    }
}

/// For each resource entry of `request`, in order, the attributes of its
/// resource; the empty list for an entry without a resource.
pub uninterp spec fn resource_attributes(request: ParsedRequest) -> Seq<Seq<AttributeModel>>;

/// For each resource entry of `request`, in order, the number of items
/// (spans, log records or metric definitions) under each of its scopes.
pub uninterp spec fn scope_item_counts(request: ParsedRequest) -> Seq<Seq<nat>>;

/// `request` with the resource of entry `index` holding exactly `attributes`,
/// and nothing else changed but that an entry without a resource gets an
/// otherwise empty one.
pub uninterp spec fn with_entry_attributes(
    request: ParsedRequest,
    index: int,
    attributes: Seq<AttributeModel>,
) -> ParsedRequest;

/// The request of `signal` that `bytes` decode to as protobuf, or `None`
/// where they are not a well-formed message of that signal.
pub uninterp spec fn protobuf_decoding(signal: Signal, bytes: Seq<u8>) -> Option<ParsedRequest>;

/// The request of `signal` that `bytes` decode to as OTLP JSON, or `None`
/// where they are not a well-formed document of that signal.
pub uninterp spec fn json_decoding(signal: Signal, bytes: Seq<u8>) -> Option<ParsedRequest>;

/// The protobuf encoding of `request`.
pub uninterp spec fn protobuf_encoding(request: ParsedRequest) -> Seq<u8>;

/// The JSON encoding of `request`, or `None` where the serializer fails.
pub uninterp spec fn json_encoding(request: ParsedRequest) -> Option<Seq<u8>>;

/// Builds the `AnyValue` whose value is `Value::StringValue` of `text`.
#[verifier::external_body]
pub(crate) fn string_value(text: &str) -> (r: AnyValue)
    ensures
        any_value_text(r) == Some(text@),
{
    AnyValue { value: Some(Value::StringValue(text.to_string())) }
}

/// Calls `prost::Message::decode` for `ExportTraceServiceRequest`; the
/// outcome is a function of the bytes.
#[verifier::external_body]
fn decode_traces_protobuf(payload: &[u8]) -> (r: Result<
    ExportTraceServiceRequest,
    prost::DecodeError,
>)
    ensures
        match r {
            Ok(m) => protobuf_decoding(Signal::Traces, payload@) == Some(ParsedRequest::Traces(m)),
            Err(_) => protobuf_decoding(Signal::Traces, payload@) is None,
        },
{
    ExportTraceServiceRequest::decode(payload)
}

/// Calls `prost::Message::decode` for `ExportLogsServiceRequest`; the
/// outcome is a function of the bytes.
#[verifier::external_body]
fn decode_logs_protobuf(payload: &[u8]) -> (r: Result<ExportLogsServiceRequest, prost::DecodeError>)
    ensures
        match r {
            Ok(m) => protobuf_decoding(Signal::Logs, payload@) == Some(ParsedRequest::Logs(m)),
            Err(_) => protobuf_decoding(Signal::Logs, payload@) is None,
        },
{
    ExportLogsServiceRequest::decode(payload)
}

/// Calls `prost::Message::decode` for `ExportMetricsServiceRequest`; the
/// outcome is a function of the bytes.
#[verifier::external_body]
fn decode_metrics_protobuf(payload: &[u8]) -> (r: Result<
    ExportMetricsServiceRequest,
    prost::DecodeError,
>)
    ensures
        match r {
            Ok(m) => protobuf_decoding(Signal::Metrics, payload@) == Some(
                ParsedRequest::Metrics(m),
            ),
            Err(_) => protobuf_decoding(Signal::Metrics, payload@) is None,
        },
{
    ExportMetricsServiceRequest::decode(payload)
}

/// Calls `serde_json::from_slice` for `ExportTraceServiceRequest`; the
/// outcome is a function of the bytes.
#[verifier::external_body]
fn decode_traces_json(payload: &[u8]) -> (r: Result<ExportTraceServiceRequest, serde_json::Error>)
    ensures
        match r {
            Ok(m) => json_decoding(Signal::Traces, payload@) == Some(ParsedRequest::Traces(m)),
            Err(_) => json_decoding(Signal::Traces, payload@) is None,
        },
{
    serde_json::from_slice(payload)
}

/// Calls `serde_json::from_slice` for `ExportLogsServiceRequest`; the
/// outcome is a function of the bytes.
#[verifier::external_body]
fn decode_logs_json(payload: &[u8]) -> (r: Result<ExportLogsServiceRequest, serde_json::Error>)
    ensures
        match r {
            Ok(m) => json_decoding(Signal::Logs, payload@) == Some(ParsedRequest::Logs(m)),
            Err(_) => json_decoding(Signal::Logs, payload@) is None,
        },
{
    serde_json::from_slice(payload)
}

/// Calls `serde_json::from_slice` for `ExportMetricsServiceRequest`; the
/// outcome is a function of the bytes.
#[verifier::external_body]
fn decode_metrics_json(payload: &[u8]) -> (r: Result<
    ExportMetricsServiceRequest,
    serde_json::Error,
>)
    ensures
        match r {
            Ok(m) => json_decoding(Signal::Metrics, payload@) == Some(ParsedRequest::Metrics(m)),
            Err(_) => json_decoding(Signal::Metrics, payload@) is None,
        },
{
    serde_json::from_slice(payload)
}

/// Calls `prost::Message::encode_to_vec` on the message of `request`, which
/// cannot fail and whose output is a function of the message.
#[verifier::external_body]
fn encode_protobuf(request: &ParsedRequest) -> (r: Vec<u8>)
    ensures
        r@ == protobuf_encoding(*request),
{
    match request {
        ParsedRequest::Traces(m) => m.encode_to_vec(),
        ParsedRequest::Logs(m) => m.encode_to_vec(),
        ParsedRequest::Metrics(m) => m.encode_to_vec(),
    }
}

/// Calls `serde_json::to_vec` on the message of `request`; the outcome is a
/// function of the message.
#[verifier::external_body]
fn encode_json(request: &ParsedRequest) -> (r: Result<Vec<u8>, serde_json::Error>)
    ensures
        match r {
            Ok(bytes) => json_encoding(*request) == Some(bytes@),
            Err(_) => json_encoding(*request) is None,
        },
{
    match request {
        ParsedRequest::Traces(m) => serde_json::to_vec(m),
        ParsedRequest::Logs(m) => serde_json::to_vec(m),
        ParsedRequest::Metrics(m) => serde_json::to_vec(m),
    }
}

/// The length of the message's list of resource entries.
#[verifier::external_body]
pub(crate) fn entry_count(request: &ParsedRequest) -> (n: usize)
    ensures
        n == resource_attributes(*request).len(),
        n == scope_item_counts(*request).len(),
{
    match request {
        ParsedRequest::Traces(m) => m.resource_spans.len(),
        ParsedRequest::Logs(m) => m.resource_logs.len(),
        ParsedRequest::Metrics(m) => m.resource_metrics.len(),
    }
}

/// Copies the attributes of the resource of entry `index` out of the
/// message, field by field; an entry without a resource gives none.
#[verifier::external_body]
pub(crate) fn entry_attributes(request: &ParsedRequest, index: usize) -> (r: Vec<
    ResourceAttribute,
>)
    requires
        index < resource_attributes(*request).len(),
    ensures
        models(r@) == resource_attributes(*request)[index as int],
{
    let resource = match request {
        ParsedRequest::Traces(m) => &m.resource_spans[index].resource,
        ParsedRequest::Logs(m) => &m.resource_logs[index].resource,
        ParsedRequest::Metrics(m) => &m.resource_metrics[index].resource,
    };
    resource.iter().flat_map(|found| found.attributes.iter()).map(
        |kv| ResourceAttribute {
            key: kv.key.clone(),
            value: kv.value.clone(),
            key_strindex: kv.key_strindex,
        },
    ).collect()
}

/// Stores `attributes`, field by field, as the attribute list of the
/// resource of entry `index`, first giving the entry `Resource::default()`
/// if it has no resource. The other entries, and everything else in this
/// one, stay as they are.
#[verifier::external_body]
pub(crate) fn set_entry_attributes(
    request: &mut ParsedRequest,
    index: usize,
    attributes: Vec<ResourceAttribute>,
)
    requires
        index < resource_attributes(*old(request)).len(),
    ensures
        *final(request) == with_entry_attributes(
            *old(request),
            index as int,
            models(attributes@),
        ),
        resource_attributes(*final(request)) == resource_attributes(*old(request)).update(
            index as int,
            models(attributes@),
        ),
        scope_item_counts(*final(request)) == scope_item_counts(*old(request)),
        final(request).signal() == old(request).signal(),
{
    let resource = match request {
        ParsedRequest::Traces(m) => &mut m.resource_spans[index].resource,
        ParsedRequest::Logs(m) => &mut m.resource_logs[index].resource,
        ParsedRequest::Metrics(m) => &mut m.resource_metrics[index].resource,
    };
    resource.get_or_insert_with(Resource::default).attributes = attributes.into_iter().map(
        |a| KeyValue { key: a.key, value: a.value, key_strindex: a.key_strindex },
    ).collect();
}

/// The lengths of the item lists under the scopes of entry `index`.
#[verifier::external_body]
pub(crate) fn entry_scope_item_counts(request: &ParsedRequest, index: usize) -> (r: Vec<usize>)
    requires
        index < scope_item_counts(*request).len(),
    ensures
        r@.map_values(|n: usize| n as nat) == scope_item_counts(*request)[index as int],
{
    match request {
        ParsedRequest::Traces(m) => m.resource_spans[index].scope_spans.iter().map(
            |s| s.spans.len(),
        ).collect(),
        ParsedRequest::Logs(m) => m.resource_logs[index].scope_logs.iter().map(
            |s| s.log_records.len(),
        ).collect(),
        ParsedRequest::Metrics(m) => m.resource_metrics[index].scope_metrics.iter().map(
            |s| s.metrics.len(),
        ).collect(),
    }
}

/// The name a format goes by in messages about malformed payloads.
pub open spec fn format_title(format: PayloadFormat) -> Seq<char> {
    match format {
        PayloadFormat::Protobuf => "protobuf"@,
        PayloadFormat::Json => "JSON"@,
    }
}

/// The answer to a payload that is malformed for its declared signal and format.
pub open spec fn invalid_payload(signal: Signal, format: PayloadFormat) -> (u16, Seq<char>) {
    (BAD_REQUEST, "Invalid OTLP "@ + signal.name() + " "@ + format_title(format) + " payload"@)
}

/// The answer to a request that could not be serialized again.
pub open spec fn serialize_failure(signal: Signal) -> (u16, Seq<char>) {
    (SERVICE_UNAVAILABLE, "Failed to serialize "@ + signal.name() + " payload"@)
}

/// The request that `bytes` hold for `signal` in `format`, if they are well formed.
pub open spec fn parsed(signal: Signal, format: PayloadFormat, bytes: Seq<u8>) -> Option<
    ParsedRequest,
> {
    match format {
        PayloadFormat::Protobuf => protobuf_decoding(signal, bytes),
        PayloadFormat::Json => json_decoding(signal, bytes),
    }
}

/// The bytes of `request` in `format`, if it can be serialized.
pub open spec fn serialized(request: ParsedRequest, format: PayloadFormat) -> Option<Seq<u8>> {
    match format {
        PayloadFormat::Protobuf => Some(protobuf_encoding(request)),
        PayloadFormat::Json => json_encoding(request),
    }
}

/// The answer to a payload that is malformed for its declared signal and format.
fn invalid_payload_error(signal: Signal, format: PayloadFormat) -> (e: ApiError)
    ensures
        e@ == invalid_payload(signal, format),
{
    let mut message = "Invalid OTLP ".to_owned();
    message.append(signal.path());
    message.append(" ");
    message.append(
        match format {
            PayloadFormat::Protobuf => "protobuf",
            PayloadFormat::Json => "JSON",
        },
    );
    message.append(" payload");
    ApiError { status: BAD_REQUEST, message }
}

/// Parses a decoded body as the export request of `signal` in `format`.
pub fn parse_request(signal: Signal, format: PayloadFormat, bytes: &[u8]) -> (r: Result<
    ParsedRequest,
    ApiError,
>)
    ensures
        match r {
            Ok(request) => parsed(signal, format, bytes@) == Some(request) && request.signal()
                == signal,
            Err(e) => parsed(signal, format, bytes@) is None && e@ == invalid_payload(
                signal,
                format,
            ),
        },
{
    let request = match (signal, format) {
        (Signal::Traces, PayloadFormat::Protobuf) => match decode_traces_protobuf(bytes) {
            Ok(m) => Some(ParsedRequest::Traces(m)),
            Err(_) => None,
        },
        (Signal::Logs, PayloadFormat::Protobuf) => match decode_logs_protobuf(bytes) {
            Ok(m) => Some(ParsedRequest::Logs(m)),
            Err(_) => None,
        },
        (Signal::Metrics, PayloadFormat::Protobuf) => match decode_metrics_protobuf(bytes) {
            Ok(m) => Some(ParsedRequest::Metrics(m)),
            Err(_) => None,
        },
        (Signal::Traces, PayloadFormat::Json) => match decode_traces_json(bytes) {
            Ok(m) => Some(ParsedRequest::Traces(m)),
            Err(_) => None,
        },
        (Signal::Logs, PayloadFormat::Json) => match decode_logs_json(bytes) {
            Ok(m) => Some(ParsedRequest::Logs(m)),
            Err(_) => None,
        },
        (Signal::Metrics, PayloadFormat::Json) => match decode_metrics_json(bytes) {
            Ok(m) => Some(ParsedRequest::Metrics(m)),
            Err(_) => None,
        },
    };
    match request {
        Some(request) => Ok(request),
        None => Err(invalid_payload_error(signal, format)),
    }
}

/// Serializes a request in `format`.
pub fn serialize_request(request: &ParsedRequest, format: PayloadFormat) -> (r: Result<
    Vec<u8>,
    ApiError,
>)
    ensures
        match r {
            Ok(bytes) => serialized(*request, format) == Some(bytes@),
            Err(e) => serialized(*request, format) is None && e@ == serialize_failure(
                request.signal(),
            ),
        },
{
    match format {
        PayloadFormat::Protobuf => Ok(encode_protobuf(request)),
        PayloadFormat::Json => match encode_json(request) {
            Ok(bytes) => Ok(bytes),
            Err(_) => {
                let signal = match request {
                    ParsedRequest::Traces(_) => Signal::Traces,
                    ParsedRequest::Logs(_) => Signal::Logs,
                    ParsedRequest::Metrics(_) => Signal::Metrics,
                };
                let mut message = "Failed to serialize ".to_owned();
                message.append(signal.path());
                message.append(" payload");
                Err(ApiError { status: SERVICE_UNAVAILABLE, message })
            },
        },
    }
}

} // verus!
