//! Ingest keys: their kinds, their keyed hash, and how a presented key is
//! turned into a tenant.

use base64::engine::general_purpose::URL_SAFE_NO_PAD;
use base64::Engine;
use hmac::digest::InvalidLength;
use hmac::{Hmac, Mac};
use sha2::Sha256;
use vstd::prelude::*;
use vstd::utf8::encode_utf8;
use crate::text::{
    eq_ignore_ascii_case, lowercased, non_blank, starts_with, text_of, trim, trimmed,
};

verus! {

/// The kind of an ingest key, told by its prefix.
#[derive(Clone, Copy, Debug, PartialEq, Eq, Structural)]
pub enum IngestKeyType {
    Public,
    Private,
}

impl IngestKeyType {
    /// The label written into `maple_ingest_key_type`.
    pub open spec fn label(self) -> Seq<char> {
        match self {
            IngestKeyType::Public => "public"@,
            IngestKeyType::Private => "private"@,
        }
    }

    /// The column of `org_ingest_keys` that holds hashes of keys of this kind.
    pub open spec fn hash_column(self) -> Seq<char> {
        match self {
            IngestKeyType::Public => "public_key_hash"@,
            IngestKeyType::Private => "private_key_hash"@,
        }
    }

    /// The label written into `maple_ingest_key_type`.
    pub fn as_str(self) -> (r: &'static str)
        ensures
            r@ == self.label(),
    {
        match self {
            IngestKeyType::Public => "public",
            IngestKeyType::Private => "private",
        }
    }
}

/// The tenant a presented key belongs to.
#[derive(Debug)]
pub struct ResolvedIngestKey {
    pub org_id: String,
    pub key_type: IngestKeyType,
    pub key_id: String,
}

/// The kind that the prefix of `raw_key` announces, if it announces one.
pub open spec fn key_type_of(raw_key: Seq<char>) -> Option<IngestKeyType> {
    if "maple_pk_"@.is_prefix_of(raw_key) {
        Some(IngestKeyType::Public)
    } else if "maple_sk_"@.is_prefix_of(raw_key) {
        Some(IngestKeyType::Private)
    } else {
        None
    }
}

/// Tells the kind of a presented key from its prefix.
pub fn infer_ingest_key_type(raw_key: &str) -> (r: Option<IngestKeyType>)
    ensures
        r == key_type_of(raw_key@),
{
    if starts_with(raw_key, "maple_pk_") {
        return Some(IngestKeyType::Public);
    }
    if starts_with(raw_key, "maple_sk_") {
        return Some(IngestKeyType::Private);
    }
    None
}

/// The token of an `Authorization` header value of the form `Bearer <token>`
/// (scheme compared without regard to ASCII case), trimmed; `None` when the
/// value has another form or the token is blank.
pub open spec fn bearer_token(value: Seq<char>) -> Option<Seq<char>> {
    if value.len() > 7 && lowercased(value.subrange(0, 7)) == lowercased("Bearer "@)
        && trimmed(value.subrange(7, value.len() as int)).len() > 0 {
        Some(trimmed(value.subrange(7, value.len() as int)))
    } else {
        None
    }
}

/// The ingest key a request presents: the bearer token if there is one,
/// otherwise the value of the `x-maple-ingest-key` header.
pub open spec fn presented_key(
    authorization: Option<Seq<char>>,
    ingest_key_header: Option<Seq<char>>,
) -> Option<Seq<char>> {
    match authorization {
        Some(v) if bearer_token(v) is Some => bearer_token(v),
        _ => non_blank(ingest_key_header),
    }
}

/// Extracts the ingest key from the values of the `Authorization` and
/// `x-maple-ingest-key` headers, each `None` when the header is absent or
/// not text.
pub fn extract_ingest_key(authorization: Option<&str>, ingest_key_header: Option<&str>) -> (r:
    Option<String>)
    ensures
        match r {
            Some(key) => presented_key(text_of(authorization), text_of(ingest_key_header))
                == Some(key@),
            None => presented_key(text_of(authorization), text_of(ingest_key_header)) is None,
        },
{
    if let Some(value) = authorization {
        let n: usize = value.unicode_len();
        if n > 7 && eq_ignore_ascii_case(value.substring_char(0, 7), "Bearer ") {
            let token = trim(value.substring_char(7, n));
            if !token.is_empty() {
                return Some(token.to_owned());
            }
        }
    }
    match ingest_key_header {
        Some(value) => {
            let key = trim(value);
            if key.is_empty() {
                None
            } else {
                Some(key.to_owned())
            }
        },
        None => None,
    }
}

/// The error type of `hmac`'s key setup.
#[verifier::external_type_specification]
#[verifier::external_body]
pub struct ExInvalidLength(InvalidLength);

/// The HMAC-SHA256 tag of `message` under `key`.
pub uninterp spec fn hmac_sha256(key: Seq<u8>, message: Seq<u8>) -> Seq<u8>;

/// The base64 encoding of `bytes` in the URL-safe alphabet, without padding.
pub uninterp spec fn base64_url_no_pad(bytes: Seq<u8>) -> Seq<char>;

/// The lookup hash of an ingest key: the unpadded URL-safe base64 of the
/// HMAC-SHA256 of the key's bytes under the lookup secret's bytes.
pub open spec fn ingest_key_hash(raw_key: Seq<char>, secret: Seq<char>) -> Seq<char> {
    base64_url_no_pad(hmac_sha256(encode_utf8(secret), encode_utf8(raw_key)))
}

/// Runs `Hmac::<Sha256>`: `new_from_slice` on the key, `update` with the
/// message, then `finalize`. The tag is a function of key and message and
/// has the 32 bytes of a SHA-256 output; `new_from_slice` of `Hmac` accepts
/// a key of any length, so the call always succeeds.
#[verifier::external_body]
fn hmac_sha256_tag(key: &[u8], message: &[u8]) -> (r: Result<Vec<u8>, InvalidLength>)
    ensures
        r is Ok,
        r matches Ok(tag) ==> tag@ == hmac_sha256(key@, message@) && tag@.len() == 32,
{
    let mut mac = Hmac::<Sha256>::new_from_slice(key)?;
    mac.update(message);
    Ok(mac.finalize().into_bytes().to_vec())
}

/// Calls `Engine::encode` of `base64`'s `URL_SAFE_NO_PAD` engine, whose
/// output is a function of the input bytes: four characters for every three
/// bytes, and two or three for one or two bytes left over.
#[verifier::external_body]
fn base64_encode(bytes: &[u8]) -> (r: String)
    ensures
        r@ == base64_url_no_pad(bytes@),
        r@.len() == (4 * bytes@.len() + 2) / 3,
{
    URL_SAFE_NO_PAD.encode(bytes)
}

/// Formats the message for a rejected HMAC key with the `Display` text of
/// `InvalidLength`.
#[verifier::external_body]
fn invalid_key_message(error: &InvalidLength) -> String {
    format!("Invalid HMAC key: {error}")
}

/// The number of characters of a lookup hash.
pub const HASH_LENGTH: usize = 43;

/// Hashes a presented key under the process-wide lookup secret.
pub fn hash_ingest_key(raw_key: &str, lookup_hmac_key: &str) -> (r: Result<String, String>)
    ensures
        r matches Ok(hash) && hash@ == ingest_key_hash(raw_key@, lookup_hmac_key@) && hash@.len()
            == HASH_LENGTH,
{
    match hmac_sha256_tag(lookup_hmac_key.as_bytes(), raw_key.as_bytes()) {
        Ok(tag) => Ok(base64_encode(tag.as_slice())),
        Err(error) => Err(invalid_key_message(&error)),
    }
}

/// Hashing is a function of the key and the secret: equal inputs give equal
/// hashes.
pub proof fn lemma_hash_is_deterministic(
    key_a: Seq<char>,
    secret_a: Seq<char>,
    key_b: Seq<char>,
    secret_b: Seq<char>,
)
    requires
        key_a == key_b,
        secret_a == secret_b,
    ensures
        ingest_key_hash(key_a, secret_a) == ingest_key_hash(key_b, secret_b),
{
}

/// The short identifier of a key for logs: the first 16 characters of its hash.
pub open spec fn key_id_of(hash: Seq<char>) -> Seq<char> {
    if hash.len() <= 16 {
        hash
    } else {
        hash.subrange(0, 16)
    }
}

/// The short identifier of a lookup hash has 16 characters.
pub proof fn lemma_key_id_length(hash: Seq<char>)
    requires
        hash.len() == HASH_LENGTH,
    ensures
        key_id_of(hash).len() == 16,
{
}

/// The statement that finds the organization owning a key of kind `key_type`
/// by its hash.
pub open spec fn lookup_query(key_type: IngestKeyType) -> Seq<char> {
    "SELECT org_id FROM org_ingest_keys WHERE "@ + key_type.hash_column() + " = ? LIMIT 1"@
}

/// What has to be asked of the key store for one presented key: run `query`
/// with `key_hash` as its only parameter.
#[derive(Debug)]
pub struct KeyLookup {
    pub key_type: IngestKeyType,
    pub key_hash: String,
    pub query: String,
}

/// Turns presented keys into tenants, given a store that answers lookups.
pub struct IngestKeyResolver {
    pub lookup_hmac_key: String,
}

impl IngestKeyResolver {
    /// First half of key resolution: decides whether the store has to be
    /// asked at all, and what. A key with an unrecognized prefix is answered
    /// with `Ok(None)` without a lookup.
    pub fn begin_lookup(&self, raw_key: &str) -> (r: Result<Option<KeyLookup>, String>)
        ensures
            match key_type_of(raw_key@) {
                None => r matches Ok(None),
                Some(key_type) => r matches Ok(Some(lookup)) && lookup.key_type == key_type
                    && lookup.key_hash@ == ingest_key_hash(raw_key@, self.lookup_hmac_key@)
                    && lookup.key_hash@.len() == HASH_LENGTH && lookup.query@ == lookup_query(
                    key_type,
                ),
            },
    {
        let key_type = match infer_ingest_key_type(raw_key) {
            Some(key_type) => key_type,
            None => {
                return Ok(None);
            },
        };
        let key_hash = match hash_ingest_key(raw_key, self.lookup_hmac_key.as_str()) {
            Ok(hash) => hash,
            Err(message) => {
                return Err(message);
            },
        };
        let hash_column = match key_type {
            IngestKeyType::Public => "public_key_hash",
            IngestKeyType::Private => "private_key_hash",
        };
        let mut query = "SELECT org_id FROM org_ingest_keys WHERE ".to_owned();
        query.append(hash_column);
        query.append(" = ? LIMIT 1");
        Ok(Some(KeyLookup { key_type, key_hash, query }))
    }

    /// Second half of key resolution: `row` is the `org_id` of the first row
    /// the store returned for `lookup`, or `None` if it returned no row.
    pub fn finish_lookup(lookup: &KeyLookup, row: Option<String>) -> (r: Option<ResolvedIngestKey>)
        ensures
            match row {
                None => r is None,
                Some(org_id) => r matches Some(key) && key.org_id@ == org_id@ && key.key_type
                    == lookup.key_type && key.key_id@ == key_id_of(lookup.key_hash@),
            },
    {
        match row {
            None => None,
            Some(org_id) => {
                let hash = lookup.key_hash.as_str();
                let n: usize = hash.unicode_len();
                let key_id = if n <= 16 {
                    hash.to_owned()
                } else {
                    hash.substring_char(0, 16).to_owned()
                };
                Some(ResolvedIngestKey { org_id, key_type: lookup.key_type, key_id })
            },
        }
    }
}

} // verus!
