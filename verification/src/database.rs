//! Where the ingest-key database lives, as told by its URL.

use std::path::PathBuf;
use url::{ParseError, Url};
use vstd::prelude::*;
use crate::config::AppConfig;
use crate::text::{starts_with, string_text, trim, trimmed};

verus! {

/// `std::path::PathBuf`.
#[verifier::external_type_specification]
#[verifier::external_body]
pub struct ExPathBuf(PathBuf);

/// `Url` of the `url` crate: a parsed URL.
#[verifier::external_type_specification]
#[verifier::external_body]
pub struct ExUrl(Url);

/// `ParseError` of the `url` crate.
#[verifier::external_type_specification]
#[verifier::external_body]
pub struct ExParseError(ParseError);

/// The path as text, where it is valid Unicode.
pub uninterp spec fn path_text(path: PathBuf) -> Option<Seq<char>>;

/// Calls `PathBuf::from` on a string slice, which makes a path of exactly
/// that text.
#[verifier::external_body]
fn path_from(text: &str) -> (r: PathBuf)
    ensures
        path_text(r) == Some(text@),
{
    PathBuf::from(text)
}

/// The error that parsing `text` as an absolute URL fails with; `None`
/// where `text` parses.
pub uninterp spec fn url_parse_error(text: Seq<char>) -> Option<ParseError>;

/// The message that a URL parse error displays.
pub uninterp spec fn parse_error_message(error: ParseError) -> Seq<char>;

/// Calls `Url::parse`. Whether a text parses, and the error it fails with,
/// is a function of the text; what it parses to is not stated.
#[verifier::external_body]
fn parse_url(text: &str) -> (r: Result<Url, ParseError>)
    ensures
        match r {
            Ok(_) => url_parse_error(text@) is None,
            Err(error) => url_parse_error(text@) == Some(error),
        },
{
    Url::parse(text)
}

/// Calls `Url::to_file_path`, which gives the local path of a `file` URL
/// in the conventions of the platform, or nothing where the URL has a
/// foreign host or its path cannot be a path of the platform.
#[verifier::external_body]
fn url_file_path(url: &Url) -> Option<PathBuf> {
    url.to_file_path().ok()
}

/// Formats a URL parse error with its `Display` text, which is a fixed
/// message for each kind of error.
#[verifier::external_body]
fn parse_error_text(error: &ParseError) -> (r: String)
    ensures
        r@ == parse_error_message(*error),
{
    error.to_string()
}

/// Whether a database URL points to a remote server.
pub open spec fn is_remote(db_url: Seq<char>) -> bool {
    "libsql://"@.is_prefix_of(db_url) || "https://"@.is_prefix_of(db_url) || "http://"@.is_prefix_of(
        db_url,
    )
}

/// Tells whether a database URL points to a remote server.
pub fn is_remote_db_url(db_url: &str) -> (r: bool)
    ensures
        r == is_remote(db_url@),
{
    starts_with(db_url, "libsql://") || starts_with(db_url, "https://") || starts_with(
        db_url,
        "http://",
    )
}

/// The message for a database URL that names no usable file.
pub open spec fn invalid_file_path() -> Seq<char> {
    "Invalid MAPLE_DB_URL file path"@
}

/// What the outcome of parsing a `file://` URL and asking it for its local
/// path amounts to. `parsed` is the text of the parse error, or else the
/// path that the URL gave, if it gave one.
pub fn file_path_from(parsed: Result<Option<PathBuf>, String>) -> (r: Result<PathBuf, String>)
    ensures
        match parsed {
            Ok(Some(path)) => r == Ok::<PathBuf, String>(path),
            Ok(None) => r matches Err(m) && m@ == invalid_file_path(),
            Err(text) => r matches Err(m) && m@ == "Invalid file URL: "@ + text@,
        },
{
    match parsed {
        Ok(Some(path)) => Ok(path),
        Ok(None) => Err("Invalid MAPLE_DB_URL file path".to_owned()),
        Err(text) => {
            let mut message = "Invalid file URL: ".to_owned();
            message.append(text.as_str());
            Err(message)
        },
    }
}

/// Whether `r` is a possible outcome of resolving the `file://` URL
/// `file_url`. A text that does not parse as a URL is refused with the
/// parser's message. A URL that parses resolves to the local path that it
/// has on this platform, or is refused as naming no usable file; which of
/// the two, and which path, is up to the platform's path conventions.
pub open spec fn file_url_resolves(file_url: Seq<char>, r: Result<PathBuf, String>) -> bool {
    match url_parse_error(file_url) {
        Some(error) => r matches Err(m) && m@ == "Invalid file URL: "@ + parse_error_message(
            error,
        ),
        None => r matches Err(m) ==> m@ == invalid_file_path(),
    }
}

/// The local path of a `file://` URL.
pub fn file_url_to_path(file_url: &str) -> (r: Result<PathBuf, String>)
    ensures
        file_url_resolves(file_url@, r),
{
    let parsed = match parse_url(file_url) {
        Ok(url) => Ok(url_file_path(&url)),
        Err(error) => Err(parse_error_text(&error)),
    };
    file_path_from(parsed)
}

/// Whether `r` is a possible local path for the database URL `db_url`:
/// a `file://` URL resolves as the URL parser and the platform have it;
/// `file:` followed by a path is that path, trimmed, and must not be blank;
/// anything else is taken as a path itself.
pub open spec fn resolves_to(db_url: Seq<char>, r: Result<PathBuf, String>) -> bool {
    if "file://"@.is_prefix_of(db_url) {
        file_url_resolves(db_url, r)
    } else if "file:"@.is_prefix_of(db_url) {
        let path = trimmed(db_url.subrange(5, db_url.len() as int));
        if path.len() == 0 {
            r matches Err(m) && m@ == invalid_file_path()
        } else {
            r matches Ok(p) && path_text(p) == Some(path)
        }
    } else {
        r matches Ok(p) && path_text(p) == Some(db_url)
    }
}

/// The path of the local database file that a URL names.
pub fn resolve_local_db_path(db_url: &str) -> (r: Result<PathBuf, String>)
    ensures
        resolves_to(db_url@, r),
{
    if starts_with(db_url, "file://") {
        return file_url_to_path(db_url);
    }
    if starts_with(db_url, "file:") {
        proof {
            reveal_strlit("file:");
        }
        let n: usize = db_url.unicode_len();
        let path = trim(db_url.substring_char(5, n));
        if path.is_empty() {
            return Err("Invalid MAPLE_DB_URL file path".to_owned());
        }
        return Ok(path_from(path));
    }
    Ok(path_from(db_url))
}

/// Where to open the database.
#[derive(Debug)]
pub enum DatabaseTarget {
    /// A remote server, reached with an auth token.
    Remote { url: String, auth_token: String },
    /// A local file.
    Local { path: PathBuf },
}

/// The database URL used where none is configured.
pub open spec fn default_db_url() -> Seq<char> {
    "file:../api/.data/maple.db"@
}

/// The message for a remote database URL without an auth token.
pub open spec fn missing_auth_token() -> Seq<char> {
    "MAPLE_DB_AUTH_TOKEN is required for remote MAPLE_DB_URL"@
}

/// Whether `r` is a possible target for a configuration with this database
/// URL and auth token.
pub open spec fn targets(
    db_url: Option<Seq<char>>,
    auth_token: Option<Seq<char>>,
    r: Result<DatabaseTarget, String>,
) -> bool {
    let url = match db_url {
        Some(url) => url,
        None => default_db_url(),
    };
    if is_remote(url) {
        match auth_token {
            Some(token) => r matches Ok(DatabaseTarget::Remote { url: u, auth_token: t }) && u@
                == url && t@ == token,
            None => r matches Err(m) && m@ == missing_auth_token(),
        }
    } else {
        match r {
            Ok(DatabaseTarget::Local { path }) => resolves_to(url, Ok(path)),
            Ok(DatabaseTarget::Remote { .. }) => false,
            Err(m) => resolves_to(url, Err(m)),
        }
    }
}

/// Decides where the database is to be opened: a remote URL needs the auth
/// token; anything else names a local file.
pub fn database_target(config: &AppConfig) -> (r: Result<DatabaseTarget, String>)
    ensures
        targets(string_text(config.db_url), string_text(config.db_auth_token), r),
{
    let db_url = match &config.db_url {
        Some(url) => url.clone(),
        None => "file:../api/.data/maple.db".to_owned(),
    };
    if is_remote_db_url(db_url.as_str()) {
        return match &config.db_auth_token {
            Some(token) => Ok(DatabaseTarget::Remote { url: db_url, auth_token: token.clone() }),
            None => Err("MAPLE_DB_AUTH_TOKEN is required for remote MAPLE_DB_URL".to_owned()),
        };
    }
    match resolve_local_db_path(db_url.as_str()) {
        Ok(path) => Ok(DatabaseTarget::Local { path }),
        Err(message) => Err(message),
    }
}

} // verus!
