use flate2::read::GzDecoder;
use flate2::write::GzEncoder;
use flate2::Compression;
use maple_ingest::forward::CollectorOutcome;
use maple_ingest::keys::{IngestKeyResolver, IngestKeyType, ResolvedIngestKey};
use maple_ingest::codec::PayloadFormat;
use maple_ingest::pipeline::{
    admit_body, authenticate, complete, key_resolved, prepare_admitted, prepare_forward,
    summarize, AuthStep, Completed, Failure, Prepared,
};
use maple_ingest::signal::Signal;
use opentelemetry_proto::tonic::collector::trace::v1::ExportTraceServiceRequest;
use opentelemetry_proto::tonic::common::v1::any_value::Value;
use opentelemetry_proto::tonic::common::v1::{AnyValue, KeyValue};
use opentelemetry_proto::tonic::resource::v1::Resource;
use opentelemetry_proto::tonic::trace::v1::{ResourceSpans, ScopeSpans, Span};
use prost::Message;
use std::io::{Read, Write};

const MAX_BODY: usize = 20 * 1024 * 1024;
const ENDPOINT: &str = "http://127.0.0.1:4318";

fn text(value: &str) -> Option<AnyValue> {
    Some(AnyValue { value: Some(Value::StringValue(value.to_string())) })
}

fn trace_body(attributes: &[(&str, &str)]) -> Vec<u8> {
    ExportTraceServiceRequest {
        resource_spans: vec![ResourceSpans {
            resource: Some(Resource {
                attributes: attributes
                    .iter()
                    .map(|(k, v)| KeyValue { key: k.to_string(), value: text(v), key_strindex: 0 })
                    .collect(),
                ..Default::default()
            }),
            scope_spans: vec![ScopeSpans {
                spans: vec![Span { name: "op".to_string(), ..Default::default() }],
                ..Default::default()
            }],
            ..Default::default()
        }],
    }
    .encode_to_vec()
}

fn attributes_of(payload: &[u8]) -> Vec<(String, Option<AnyValue>)> {
    let request = ExportTraceServiceRequest::decode(payload).unwrap();
    request.resource_spans[0]
        .resource
        .as_ref()
        .unwrap()
        .attributes
        .iter()
        .map(|kv| (kv.key.clone(), kv.value.clone()))
        .collect()
}

fn expected_attributes() -> Vec<(String, Option<AnyValue>)> {
    vec![
        ("service.name".to_string(), text("foo")),
        ("maple_org_id".to_string(), text("org_a")),
        ("maple_ingest_key_type".to_string(), text("private")),
        ("maple_ingest_source".to_string(), text("maple-ingest-gateway")),
    ]
}

fn resolver() -> IngestKeyResolver {
    IngestKeyResolver { lookup_hmac_key: "lookup-secret".to_string() }
}

fn org_a() -> ResolvedIngestKey {
    ResolvedIngestKey {
        org_id: "org_a".to_string(),
        key_type: IngestKeyType::Private,
        key_id: "q6AQMFwZvzH0zgyF".to_string(),
    }
}

fn gzip(bytes: &[u8]) -> Vec<u8> {
    let mut encoder = GzEncoder::new(Vec::new(), Compression::default());
    encoder.write_all(bytes).unwrap();
    encoder.finish().unwrap()
}

fn gunzip(bytes: &[u8]) -> Vec<u8> {
    let mut out = Vec::new();
    GzDecoder::new(bytes).read_to_end(&mut out).unwrap();
    out
}

fn ok_response() -> CollectorOutcome {
    CollectorOutcome::Response { status: 200, content_type: None, body: Some(Vec::new()) }
}

fn rejected(result: Result<Prepared, Failure>) -> Failure {
    match result {
        Ok(_) => panic!("expected a failure"),
        Err(failure) => failure,
    }
}

#[test]
fn happy_path_protobuf_trace() {
    let lookup = match authenticate(&resolver(), Some("Bearer maple_sk_AAA"), None) {
        AuthStep::Lookup(lookup) => lookup,
        AuthStep::Reject(_) => panic!("expected a lookup"),
    };
    assert_eq!(lookup.key_hash, "q6AQMFwZvzH0zgyFIi7nATM8KEyIYT2UiqzPkFZmMec");
    assert_eq!(
        lookup.query,
        "SELECT org_id FROM org_ingest_keys WHERE private_key_hash = ? LIMIT 1"
    );
    let key = key_resolved(&lookup, Ok(Some("org_a".to_string()))).ok().unwrap();
    assert_eq!(key.org_id, "org_a");
    assert_eq!(key.key_type, IngestKeyType::Private);
    assert_eq!(key.key_id, "q6AQMFwZvzH0zgyF");

    let body = trace_body(&[("service.name", "foo")]);
    let prepared = prepare_forward(
        MAX_BODY,
        ENDPOINT,
        Signal::Traces,
        &key,
        &body,
        Some("application/x-protobuf"),
        None,
    )
    .ok()
    .unwrap();
    assert_eq!(prepared.request.url, "http://127.0.0.1:4318/v1/traces");
    assert_eq!(prepared.request.content_type, "application/x-protobuf");
    assert_eq!(prepared.request.content_encoding, None);
    assert_eq!(attributes_of(&prepared.request.body), expected_attributes());
    assert_eq!(prepared.item_count, 1);
    assert_eq!(prepared.decoded_bytes, body.len());

    let result = complete(&key, prepared.item_count, prepared.decoded_bytes, ok_response());
    let done = match &result {
        Ok(done) => done,
        Err(_) => panic!("expected completion"),
    };
    assert_eq!(done.response.status, 200);
    assert_eq!(done.org_id, "org_a");
    let summary = summarize(Signal::Traces, &result);
    assert_eq!(summary.status, "ok");
    assert_eq!(summary.error_kind, "none");
    let usage = summary.usage.unwrap();
    assert_eq!(usage.org_id, "org_a");
    assert_eq!(usage.feature_id, "traces");
    assert_eq!(usage.value_bytes, body.len() as u64);
}

#[test]
fn spoofed_org_id_is_stripped() {
    let body = trace_body(&[("org_id", "evil"), ("service.name", "foo"), ("maple_org_id", "evil")]);
    let prepared =
        prepare_forward(MAX_BODY, ENDPOINT, Signal::Traces, &org_a(), &body, None, None)
            .ok()
            .unwrap();
    let attributes = attributes_of(&prepared.request.body);
    assert_eq!(attributes, expected_attributes());
    assert!(attributes.iter().all(|(key, _)| key != "org_id"));
}

#[test]
fn gzip_round_trip() {
    let body = trace_body(&[("service.name", "foo")]);
    let prepared = prepare_forward(
        MAX_BODY,
        ENDPOINT,
        Signal::Traces,
        &org_a(),
        &gzip(&body),
        Some("application/x-protobuf"),
        Some(" GZip "),
    )
    .ok()
    .unwrap();
    assert_eq!(prepared.request.content_encoding, Some("gzip".to_string()));
    assert_eq!(attributes_of(&gunzip(&prepared.request.body)), expected_attributes());
    assert_eq!(prepared.decoded_bytes, body.len());

    let plain =
        prepare_forward(MAX_BODY, ENDPOINT, Signal::Traces, &org_a(), &body, None, None)
            .ok()
            .unwrap();
    assert_eq!(gunzip(&prepared.request.body), plain.request.body);
}

#[test]
fn unknown_key() {
    let lookup = match authenticate(&resolver(), Some("Bearer maple_pk_ZZZ"), None) {
        AuthStep::Lookup(lookup) => lookup,
        AuthStep::Reject(_) => panic!("expected a lookup"),
    };
    assert_eq!(lookup.key_type, IngestKeyType::Public);
    let failure = key_resolved(&lookup, Ok(None)).err().unwrap();
    assert_eq!(failure.error.status, 401);
    assert_eq!(failure.error.message, "Invalid ingest key");
    assert_eq!(failure.kind, "auth");
    let result: Result<Completed, Failure> = Err(failure);
    let summary = summarize(Signal::Traces, &result);
    assert_eq!(summary.status, "error");
    assert_eq!(summary.error_kind, "auth");
    assert!(summary.usage.is_none());
}

#[test]
fn bad_prefix() {
    match authenticate(&resolver(), Some("Bearer random_token"), None) {
        AuthStep::Reject(failure) => {
            assert_eq!(failure.error.status, 401);
            assert_eq!(failure.error.message, "Invalid ingest key");
            assert_eq!(failure.kind, "auth");
        }
        AuthStep::Lookup(_) => panic!("no lookup is due for an unknown prefix"),
    }
}

#[test]
fn missing_key() {
    match authenticate(&resolver(), None, None) {
        AuthStep::Reject(failure) => {
            assert_eq!(failure.error.status, 401);
            assert_eq!(failure.error.message, "Missing ingest key");
            assert_eq!(failure.kind, "auth");
        }
        AuthStep::Lookup(_) => panic!("no lookup is due without a key"),
    }
}

#[test]
fn key_header_authenticates() {
    match authenticate(&resolver(), None, Some(" maple_sk_AAA ")) {
        AuthStep::Lookup(lookup) => {
            assert_eq!(lookup.key_hash, "q6AQMFwZvzH0zgyFIi7nATM8KEyIYT2UiqzPkFZmMec")
        }
        AuthStep::Reject(_) => panic!("expected a lookup"),
    }
}

#[test]
fn key_store_failure_is_unavailable() {
    let lookup = match authenticate(&resolver(), Some("Bearer maple_sk_AAA"), None) {
        AuthStep::Lookup(lookup) => lookup,
        AuthStep::Reject(_) => panic!("expected a lookup"),
    };
    let failure = key_resolved(&lookup, Err("connection reset".to_string())).err().unwrap();
    assert_eq!(failure.error.status, 503);
    assert_eq!(failure.error.message, "Ingest authentication unavailable");
    assert_eq!(failure.kind, "auth");
}

#[test]
fn oversized_bodies_are_refused() {
    let body = trace_body(&[("service.name", "foo")]);
    let failure = rejected(prepare_forward(
        body.len() - 1,
        ENDPOINT,
        Signal::Traces,
        &org_a(),
        &body,
        None,
        None,
    ));
    assert_eq!(failure.error.status, 413);
    assert_eq!(failure.error.message, "Request body too large");
    assert_eq!(failure.kind, "payload_too_large");
    assert!(prepare_forward(body.len(), ENDPOINT, Signal::Traces, &org_a(), &body, None, None)
        .is_ok());
}

#[test]
fn stages_fail_in_order() {
    let body = trace_body(&[("service.name", "foo")]);
    let key = org_a();

    let failure =
        rejected(prepare_forward(1, ENDPOINT, Signal::Traces, &key, &body, Some("text/plain"), Some("br")));
    assert_eq!(failure.kind, "payload_too_large");

    let failure = rejected(prepare_forward(
        MAX_BODY,
        ENDPOINT,
        Signal::Traces,
        &key,
        &body,
        Some("text/plain"),
        Some("br"),
    ));
    assert_eq!(failure.error.status, 415);
    assert_eq!(failure.error.message, "Unsupported content type (expected OTLP protobuf/json)");
    assert_eq!(failure.kind, "unsupported_media");

    let failure =
        rejected(prepare_forward(MAX_BODY, ENDPOINT, Signal::Traces, &key, &body, None, Some("br")));
    assert_eq!(failure.error.status, 415);
    assert_eq!(failure.error.message, "Unsupported content-encoding");
    assert_eq!(failure.kind, "decode");

    let failure = rejected(prepare_forward(
        MAX_BODY,
        ENDPOINT,
        Signal::Traces,
        &key,
        &body,
        None,
        Some("gzip"),
    ));
    assert_eq!(failure.error.status, 400);
    assert_eq!(failure.error.message, "Invalid gzip body");
    assert_eq!(failure.kind, "decode");

    let failure = rejected(prepare_forward(
        MAX_BODY,
        ENDPOINT,
        Signal::Logs,
        &key,
        &gzip(b"\xff\xff\xff"),
        Some("application/json"),
        Some("gzip"),
    ));
    assert_eq!(failure.error.status, 400);
    assert_eq!(failure.error.message, "Invalid OTLP logs JSON payload");
    assert_eq!(failure.kind, "enrich");
}

#[test]
fn identity_encoding_is_not_forwarded() {
    let body = trace_body(&[("service.name", "foo")]);
    for encoding in [Some("identity"), Some(" Identity "), Some(""), Some("  "), None] {
        let prepared =
            prepare_forward(MAX_BODY, ENDPOINT, Signal::Traces, &org_a(), &body, None, encoding)
                .ok()
                .unwrap();
        assert_eq!(prepared.request.content_encoding, None);
        assert_eq!(attributes_of(&prepared.request.body), expected_attributes());
    }
}

#[test]
fn json_requests_are_forwarded_as_json() {
    let body = br#"{"resourceSpans":[]}"#;
    let prepared = prepare_forward(
        MAX_BODY,
        "https://collector.example.com",
        Signal::Traces,
        &org_a(),
        body,
        Some("Application/JSON; charset=utf-8"),
        None,
    )
    .ok()
    .unwrap();
    assert_eq!(prepared.request.url, "https://collector.example.com/v1/traces");
    assert_eq!(prepared.request.content_type, "application/json");
    assert_eq!(prepared.item_count, 0);
    assert_eq!(prepared.decoded_bytes, body.len());
}

#[test]
fn failed_forwards_report_no_usage() {
    let key = org_a();
    for outcome in [
        CollectorOutcome::Unreachable,
        CollectorOutcome::Response { status: 500, content_type: None, body: Some(Vec::new()) },
        CollectorOutcome::Response { status: 200, content_type: None, body: None },
    ] {
        let result = complete(&key, 1, 100, outcome);
        match &result {
            Ok(_) => panic!("expected a failure"),
            Err(failure) => {
                assert_eq!(failure.error.status, 503);
                assert_eq!(failure.error.message, "Telemetry backend unavailable");
                assert_eq!(failure.kind, "forward");
            }
        }
        let summary = summarize(Signal::Logs, &result);
        assert_eq!(summary.status, "error");
        assert_eq!(summary.error_kind, "forward");
        assert!(summary.usage.is_none());
    }
}

#[test]
fn relayed_client_errors_still_count_as_completed() {
    let result = complete(
        &org_a(),
        3,
        4096,
        CollectorOutcome::Response {
            status: 400,
            content_type: Some(b"text/plain".to_vec()),
            body: Some(b"bad".to_vec()),
        },
    );
    let summary = summarize(Signal::Metrics, &result);
    assert_eq!(summary.status, "ok");
    let usage = summary.usage.unwrap();
    assert_eq!(usage.org_id, "org_a");
    assert_eq!(usage.feature_id, "metrics");
    assert_eq!(usage.value_bytes, 4096);
    let done = result.ok().unwrap();
    assert_eq!(done.response.status, 400);
    assert_eq!(done.response.body, b"bad".to_vec());
    assert_eq!(done.item_count, 3);
}

#[test]
fn a_body_is_admitted_with_its_format_and_encoding() {
    let body = trace_body(&[("service.name", "foo")]);
    let admitted = admit_body(MAX_BODY, &gzip(&body), Some("application/json"), Some("GZIP "))
        .ok()
        .unwrap();
    assert_eq!(admitted.format, PayloadFormat::Json);
    assert_eq!(admitted.encoding, Some("gzip".to_string()));
    assert_eq!(admitted.payload, body);

    let admitted = admit_body(MAX_BODY, &body, None, Some("identity")).ok().unwrap();
    assert_eq!(admitted.format, PayloadFormat::Protobuf);
    assert_eq!(admitted.encoding, None);
    assert_eq!(admitted.payload, body);
}

#[test]
fn admission_fails_on_size_then_media_then_decoding() {
    let body = trace_body(&[("service.name", "foo")]);
    let failure = admit_body(3, &body, Some("text/plain"), Some("br")).err().unwrap();
    assert_eq!(failure.error.status, 413);
    assert_eq!(failure.kind, "payload_too_large");
    let failure = admit_body(MAX_BODY, &body, Some("text/plain"), Some("br")).err().unwrap();
    assert_eq!(failure.error.status, 415);
    assert_eq!(failure.kind, "unsupported_media");
    let failure = admit_body(MAX_BODY, &body, None, Some("br")).err().unwrap();
    assert_eq!(failure.error.status, 415);
    assert_eq!(failure.kind, "decode");
    let failure = admit_body(MAX_BODY, &body, None, Some("gzip")).err().unwrap();
    assert_eq!(failure.error.status, 400);
    assert_eq!(failure.kind, "decode");
}

#[test]
fn the_two_halves_make_the_third_stage() {
    let body = trace_body(&[("service.name", "foo")]);
    let whole = prepare_forward(
        MAX_BODY,
        ENDPOINT,
        Signal::Traces,
        &org_a(),
        &gzip(&body),
        None,
        Some("gzip"),
    )
    .ok()
    .unwrap();
    let admitted = admit_body(MAX_BODY, &gzip(&body), None, Some("gzip")).ok().unwrap();
    let halves = prepare_admitted(ENDPOINT, Signal::Traces, &org_a(), admitted).ok().unwrap();
    assert_eq!(halves.request.url, whole.request.url);
    assert_eq!(halves.request.content_type, whole.request.content_type);
    assert_eq!(halves.request.content_encoding, whole.request.content_encoding);
    assert_eq!(halves.request.body, whole.request.body);
    assert_eq!(halves.item_count, whole.item_count);
    assert_eq!(halves.decoded_bytes, whole.decoded_bytes);
}

#[test]
fn an_admitted_body_that_does_not_parse_fails_at_enrichment() {
    let admitted = admit_body(MAX_BODY, b"\xff\xff\xff", Some("application/json"), None)
        .ok()
        .unwrap();
    let failure = rejected(prepare_admitted(ENDPOINT, Signal::Metrics, &org_a(), admitted));
    assert_eq!(failure.error.status, 400);
    assert_eq!(failure.error.message, "Invalid OTLP metrics JSON payload");
    assert_eq!(failure.kind, "enrich");
}
