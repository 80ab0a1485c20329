//! Wire formats and content encodings of request bodies.

use flate2::read::GzDecoder;
use flate2::write::GzEncoder;
use flate2::Compression;
use std::io::{Read, Write};
use vstd::prelude::*;
use vstd::slice::slice_to_vec;
use crate::error::{ApiError, BAD_REQUEST, SERVICE_UNAVAILABLE, UNSUPPORTED_MEDIA_TYPE};
use crate::text::{contains, contains_text, lowercased, str_eq, text_of, to_ascii_lowercase};

verus! {

/// The wire representation of an OTLP request.
#[derive(Clone, Copy, Debug, PartialEq, Eq, Structural)]
pub enum PayloadFormat {
    Protobuf,
    Json,
}

impl PayloadFormat {
    /// The media type sent downstream for this format.
    pub open spec fn media_type(self) -> Seq<char> {
        match self {
            PayloadFormat::Protobuf => "application/x-protobuf"@,
            PayloadFormat::Json => "application/json"@,
        }
    }

    /// The short name of this format.
    pub open spec fn name(self) -> Seq<char> {
        match self {
            PayloadFormat::Protobuf => "protobuf"@,
            PayloadFormat::Json => "json"@,
        }
    }

    /// The media type sent downstream for this format.
    pub fn content_type(self) -> (r: &'static str)
        ensures
            r@ == self.media_type(),
    {
        match self {
            PayloadFormat::Protobuf => "application/x-protobuf",
            PayloadFormat::Json => "application/json",
        }
    }

    /// The short name of this format, as used in logs.
    pub fn label(self) -> (r: &'static str)
        ensures
            r@ == self.name(),
    {
        match self {
            PayloadFormat::Protobuf => "protobuf",
            PayloadFormat::Json => "json",
        }
    }
}

/// The format a `Content-Type` value announces, compared without regard to
/// ASCII case: JSON if it mentions `json`, protobuf if it mentions `protobuf`
/// or is exactly `application/octet-stream`, otherwise none.
pub open spec fn format_of(content_type: Seq<char>) -> Option<PayloadFormat> {
    let lower = lowercased(content_type);
    if contains_text(lower, "json"@) {
        Some(PayloadFormat::Json)
    } else if contains_text(lower, "protobuf"@) || lower == "application/octet-stream"@ {
        Some(PayloadFormat::Protobuf)
    } else {
        None
    }
}

/// The message answered for a content type that announces no known format.
pub open spec fn unsupported_content_type() -> (u16, Seq<char>) {
    (UNSUPPORTED_MEDIA_TYPE, "Unsupported content type (expected OTLP protobuf/json)"@)
}

/// Tells the wire format from the value of `Content-Type`.
pub fn detect_payload_format(content_type: &str) -> (r: Result<PayloadFormat, ApiError>)
    ensures
        match r {
            Ok(format) => format_of(content_type@) == Some(format),
            Err(e) => format_of(content_type@) is None && e@ == unsupported_content_type(),
        },
{
    let lower = to_ascii_lowercase(content_type);
    if contains(lower.as_str(), "json") {
        return Ok(PayloadFormat::Json);
    }
    if contains(lower.as_str(), "protobuf") || str_eq(lower.as_str(), "application/octet-stream") {
        return Ok(PayloadFormat::Protobuf);
    }
    Err(
        ApiError::unsupported_media_type("Unsupported content type (expected OTLP protobuf/json)"),
    )
}

/// How a body is wrapped on the wire.
#[derive(Clone, Copy, Debug, PartialEq, Eq, Structural)]
pub enum ContentEncoding {
    Identity,
    Gzip,
}

/// The encoding a `Content-Encoding` value names: identity when the header is
/// absent, empty or `identity`; gzip when it is `gzip`; none otherwise.
pub open spec fn encoding_of(content_encoding: Option<Seq<char>>) -> Option<ContentEncoding> {
    match content_encoding {
        None => Some(ContentEncoding::Identity),
        Some(e) => if e.len() == 0 || e == "identity"@ {
            Some(ContentEncoding::Identity)
        } else if e == "gzip"@ {
            Some(ContentEncoding::Gzip)
        } else {
            None
        },
    }
}

/// The bytes that decompressing the gzip member `bytes` yields, or `None`
/// where `bytes` is not a well-formed gzip member.
pub uninterp spec fn gunzip(bytes: Seq<u8>) -> Option<Seq<u8>>;

/// The gzip member that compressing `bytes` at the default level yields, or
/// `None` where the compressor fails.
pub uninterp spec fn gzip(bytes: Seq<u8>) -> Option<Seq<u8>>;

/// The answer to a content encoding other than identity and gzip.
pub open spec fn unsupported_content_encoding() -> (u16, Seq<char>) {
    (UNSUPPORTED_MEDIA_TYPE, "Unsupported content-encoding"@)
}

/// What decoding `body` under `content_encoding` yields.
pub open spec fn decoded(body: Seq<u8>, content_encoding: Option<Seq<char>>) -> Result<
    Seq<u8>,
    (u16, Seq<char>),
> {
    match encoding_of(content_encoding) {
        Some(ContentEncoding::Identity) => Ok(body),
        Some(ContentEncoding::Gzip) => match gunzip(body) {
            Some(bytes) => Ok(bytes),
            None => Err((BAD_REQUEST, "Invalid gzip body"@)),
        },
        None => Err(unsupported_content_encoding()),
    }
}

/// The answer to a payload that the compressor failed on.
pub open spec fn encode_failure() -> (u16, Seq<char>) {
    (SERVICE_UNAVAILABLE, "Failed to encode gzip payload"@)
}

/// What encoding `payload` under `content_encoding` yields.
pub open spec fn encoded(payload: Seq<u8>, content_encoding: Option<Seq<char>>) -> Result<
    Seq<u8>,
    (u16, Seq<char>),
> {
    match encoding_of(content_encoding) {
        Some(ContentEncoding::Identity) => Ok(payload),
        Some(ContentEncoding::Gzip) => match gzip(payload) {
            Some(bytes) => Ok(bytes),
            None => Err(encode_failure()),
        },
        None => Err(unsupported_content_encoding()),
    }
}

/// The mathematical content of a byte result.
pub open spec fn bytes_result(r: Result<Vec<u8>, ApiError>) -> Result<Seq<u8>, (u16, Seq<char>)> {
    match r {
        Ok(bytes) => Ok(bytes@),
        Err(e) => Err(e@),
    }
}

/// Reads a `flate2::read::GzDecoder` over `body` to its end. The bytes read
/// are a function of `body`; a read error means `body` is not a well-formed
/// gzip member.
#[verifier::external_body]
fn gunzip_bytes(body: &[u8]) -> (r: Option<Vec<u8>>)
    ensures
        match r {
            Some(bytes) => gunzip(body@) == Some(bytes@),
            None => gunzip(body@) is None,
        },
{
    let mut decompressed = Vec::new();
    match GzDecoder::new(body).read_to_end(&mut decompressed) {
        Ok(_) => Some(decompressed),
        Err(_) => None,
    }
}

/// Writes `payload` through a `flate2::write::GzEncoder` at the default
/// compression level and finishes it. The header carries no timestamp and a
/// fixed operating-system byte, so the member written is a function of
/// `payload`; and it is one that the decoder turns back into `payload`.
#[verifier::external_body]
fn gzip_bytes(payload: &[u8]) -> (r: Option<Vec<u8>>)
    ensures
        match r {
            Some(bytes) => gzip(payload@) == Some(bytes@) && gunzip(bytes@) == Some(payload@),
            None => gzip(payload@) is None,
        },
{
    let mut encoder = GzEncoder::new(Vec::new(), Compression::default());
    if encoder.write_all(payload).is_err() {
        return None;
    }
    encoder.finish().ok()
}

/// The normalized encoding of a header value given as text.
fn detect_encoding(content_encoding: Option<&str>) -> (r: Option<ContentEncoding>)
    ensures
        r == encoding_of(text_of(content_encoding)),
{
    match content_encoding {
        None => Some(ContentEncoding::Identity),
        Some(e) => {
            if e.is_empty() || str_eq(e, "identity") {
                Some(ContentEncoding::Identity)
            } else if str_eq(e, "gzip") {
                Some(ContentEncoding::Gzip)
            } else {
                None
            }
        },
    }
}

/// Undoes the content encoding of a request body.
pub fn decode_payload(body: &[u8], content_encoding: Option<&str>) -> (r: Result<
    Vec<u8>,
    ApiError,
>)
    ensures
        bytes_result(r) == decoded(body@, text_of(content_encoding)),
{
    match detect_encoding(content_encoding) {
        Some(ContentEncoding::Identity) => Ok(slice_to_vec(body)),
        Some(ContentEncoding::Gzip) => match gunzip_bytes(body) {
            Some(bytes) => Ok(bytes),
            None => Err(ApiError::bad_request("Invalid gzip body")),
        },
        None => Err(ApiError::unsupported_media_type("Unsupported content-encoding")),
    }
}

/// Applies the content encoding to an outbound payload. Whatever it yields,
/// `decode_payload` under the same encoding turns back into `payload`.
pub fn encode_payload(payload: &[u8], content_encoding: Option<&str>) -> (r: Result<
    Vec<u8>,
    ApiError,
>)
    ensures
        bytes_result(r) == encoded(payload@, text_of(content_encoding)),
        r matches Ok(bytes) ==> decoded(bytes@, text_of(content_encoding)) == Ok::<
            Seq<u8>,
            (u16, Seq<char>),
        >(payload@),
{
    match detect_encoding(content_encoding) {
        Some(ContentEncoding::Identity) => Ok(slice_to_vec(payload)),
        Some(ContentEncoding::Gzip) => match gzip_bytes(payload) {
            Some(bytes) => Ok(bytes),
            None => Err(ApiError::service_unavailable("Failed to encode gzip payload")),
        },
        None => Err(ApiError::unsupported_media_type("Unsupported content-encoding")),
    }
}

} // verus!
