use maple_ingest::codec::{decode_payload, detect_payload_format, encode_payload, PayloadFormat};
use maple_ingest::signal::Signal;

const HELLO_GZIP: [u8; 25] = [
    31, 139, 8, 0, 0, 0, 0, 0, 2, 3, 203, 72, 205, 201, 201, 7, 0, 134, 166, 16, 54, 5, 0, 0, 0,
];

#[test]
fn signal_paths() {
    assert_eq!(Signal::Traces.path(), "traces");
    assert_eq!(Signal::Logs.path(), "logs");
    assert_eq!(Signal::Metrics.path(), "metrics");
}

#[test]
fn format_content_types_and_labels() {
    assert_eq!(PayloadFormat::Protobuf.content_type(), "application/x-protobuf");
    assert_eq!(PayloadFormat::Json.content_type(), "application/json");
    assert_eq!(PayloadFormat::Protobuf.label(), "protobuf");
    assert_eq!(PayloadFormat::Json.label(), "json");
}

#[test]
fn json_content_types_are_detected() {
    assert_eq!(detect_payload_format("application/json").unwrap(), PayloadFormat::Json);
    assert_eq!(
        detect_payload_format("application/json; charset=utf-8").unwrap(),
        PayloadFormat::Json
    );
    assert_eq!(detect_payload_format("Application/JSON").unwrap(), PayloadFormat::Json);
    assert_eq!(detect_payload_format("application/protobuf+json").unwrap(), PayloadFormat::Json);
}

#[test]
fn protobuf_content_types_are_detected() {
    assert_eq!(detect_payload_format("application/x-protobuf").unwrap(), PayloadFormat::Protobuf);
    assert_eq!(detect_payload_format("application/protobuf").unwrap(), PayloadFormat::Protobuf);
    assert_eq!(
        detect_payload_format("application/octet-stream").unwrap(),
        PayloadFormat::Protobuf
    );
    assert_eq!(
        detect_payload_format("APPLICATION/OCTET-STREAM").unwrap(),
        PayloadFormat::Protobuf
    );
}

#[test]
fn other_content_types_are_unsupported() {
    let error = detect_payload_format("text/plain").unwrap_err();
    assert_eq!(error.status, 415);
    assert_eq!(error.message, "Unsupported content type (expected OTLP protobuf/json)");
    assert_eq!(detect_payload_format("").unwrap_err().status, 415);
    assert_eq!(
        detect_payload_format("application/octet-stream; x=y").unwrap_err().status,
        415
    );
}

#[test]
fn identity_bodies_pass_through() {
    assert_eq!(decode_payload(b"abc", None).unwrap(), b"abc".to_vec());
    assert_eq!(decode_payload(b"abc", Some("identity")).unwrap(), b"abc".to_vec());
    assert_eq!(decode_payload(b"abc", Some("")).unwrap(), b"abc".to_vec());
    assert_eq!(decode_payload(b"", None).unwrap(), Vec::<u8>::new());
    assert_eq!(encode_payload(b"abc", None).unwrap(), b"abc".to_vec());
    assert_eq!(encode_payload(b"abc", Some("identity")).unwrap(), b"abc".to_vec());
    assert_eq!(encode_payload(b"abc", Some("")).unwrap(), b"abc".to_vec());
}

#[test]
fn gzip_bodies_are_decompressed() {
    assert_eq!(decode_payload(&HELLO_GZIP, Some("gzip")).unwrap(), b"hello".to_vec());
}

#[test]
fn malformed_gzip_is_a_bad_request() {
    let error = decode_payload(b"not gzip at all", Some("gzip")).unwrap_err();
    assert_eq!(error.status, 400);
    assert_eq!(error.message, "Invalid gzip body");
    let truncated = &HELLO_GZIP[..12];
    assert_eq!(decode_payload(truncated, Some("gzip")).unwrap_err().status, 400);
}

#[test]
fn unknown_encodings_are_unsupported() {
    let error = decode_payload(b"abc", Some("br")).unwrap_err();
    assert_eq!(error.status, 415);
    assert_eq!(error.message, "Unsupported content-encoding");
    let error = encode_payload(b"abc", Some("deflate")).unwrap_err();
    assert_eq!(error.status, 415);
    assert_eq!(error.message, "Unsupported content-encoding");
    assert_eq!(decode_payload(b"abc", Some("GZIP")).unwrap_err().status, 415);
}

#[test]
fn gzip_encoding_compresses() {
    let payload = vec![7u8; 4096];
    let wire = encode_payload(&payload, Some("gzip")).unwrap();
    assert_ne!(wire, payload);
    assert!(wire.len() < payload.len());
    assert_eq!(&wire[..2], &[31u8, 139u8]);
}

#[test]
fn decode_inverts_encode() {
    let payloads: Vec<Vec<u8>> =
        vec![Vec::new(), b"hello".to_vec(), (0..=255u8).collect(), vec![0u8; 10000]];
    let encodings: Vec<Option<&str>> = vec![None, Some("identity"), Some("gzip")];
    for payload in &payloads {
        for encoding in &encodings {
            let wire = encode_payload(payload, *encoding).unwrap();
            assert_eq!(&decode_payload(&wire, *encoding).unwrap(), payload);
        }
    }
}

#[test]
fn gzip_encoding_is_a_function_of_the_payload() {
    let payload: Vec<u8> = (0..5000u32).map(|i| (i % 251) as u8).collect();
    let first = encode_payload(&payload, Some("gzip")).unwrap();
    let second = encode_payload(&payload, Some("gzip")).unwrap();
    assert_eq!(first, second);
    assert_eq!(first[4..8], [0u8, 0, 0, 0]);
    assert_eq!(first[9], 255);
}
