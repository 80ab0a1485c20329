//! Gateway configuration, computed from the values of environment variables.

use vstd::prelude::*;
use crate::text::{
    bounded_decimal, lowercased, non_blank, starts_with, str_eq, string_text, to_ascii_lowercase,
    trim, trim_end_char, trim_end_matches, trimmed, u16_from_str, u64_from_str, usize_from_str,
};

verus! {

/// What a boolean setting named `name` with raw value `raw` means: the
/// default where it is absent or blank, a truth value for `1`, `true`, `0`
/// and `false` in any ASCII case, and an error otherwise.
pub open spec fn bool_setting(name: Seq<char>, raw: Option<Seq<char>>, default: bool) -> Result<
    bool,
    Seq<char>,
> {
    match raw {
        None => Ok(default),
        Some(raw) => {
            let value = lowercased(trimmed(raw));
            if value.len() == 0 {
                Ok(default)
            } else if value == "1"@ || value == "true"@ {
                Ok(true)
            } else if value == "0"@ || value == "false"@ {
                Ok(false)
            } else {
                Err(name + " must be true/false or 1/0"@)
            }
        },
    }
}

/// What a numeric setting named `name` with raw value `raw` means: the
/// default where it is absent or blank, the number it denotes where its
/// trimmed value is an unsigned decimal literal of at most `max`, and an
/// error saying that `name` + `complaint` otherwise.
pub open spec fn number_setting(
    name: Seq<char>,
    raw: Option<Seq<char>>,
    default: nat,
    max: nat,
    complaint: Seq<char>,
) -> Result<nat, Seq<char>> {
    match raw {
        None => Ok(default),
        Some(raw) => if trimmed(raw).len() == 0 {
            Ok(default)
        } else {
            match bounded_decimal(trimmed(raw), max) {
                Some(n) => Ok(n),
                None => Err(name + complaint),
            }
        },
    }
}

/// The message that `name` + `text` makes.
fn complaint(name: &str, text: &str) -> (r: String)
    ensures
        r@ == name@ + text@,
{
    let mut message = name.to_owned();
    message.append(text);
    message
}

/// Reads a boolean setting.
pub fn parse_bool(name: &str, raw: Option<String>, default: bool) -> (r: Result<bool, String>)
    ensures
        match r {
            Ok(b) => bool_setting(name@, string_text(raw), default) == Ok::<bool, Seq<char>>(b),
            Err(m) => bool_setting(name@, string_text(raw), default) == Err::<bool, Seq<char>>(m@),
        },
{
    let raw = match raw {
        Some(raw) => raw,
        None => {
            return Ok(default);
        },
    };
    let value = to_ascii_lowercase(trim(raw.as_str()));
    if value.as_str().is_empty() {
        return Ok(default);
    }
    if str_eq(value.as_str(), "1") || str_eq(value.as_str(), "true") {
        Ok(true)
    } else if str_eq(value.as_str(), "0") || str_eq(value.as_str(), "false") {
        Ok(false)
    } else {
        Err(complaint(name, " must be true/false or 1/0"))
    }
}

/// Reads a numeric setting that has to fit 16 bits.
pub fn parse_u16(name: &str, raw: Option<String>, default: u16) -> (r: Result<u16, String>)
    ensures
        match r {
            Ok(n) => number_setting(
                name@,
                string_text(raw),
                default as nat,
                u16::MAX as nat,
                " must be a valid u16"@,
            ) == Ok::<nat, Seq<char>>(n as nat),
            Err(m) => number_setting(
                name@,
                string_text(raw),
                default as nat,
                u16::MAX as nat,
                " must be a valid u16"@,
            ) == Err::<nat, Seq<char>>(m@),
        },
{
    let raw = match raw {
        Some(raw) => raw,
        None => {
            return Ok(default);
        },
    };
    let value = trim(raw.as_str());
    if value.is_empty() {
        return Ok(default);
    }
    match u16_from_str(value) {
        Some(n) => Ok(n),
        None => Err(complaint(name, " must be a valid u16")),
    }
}

/// Reads a numeric setting that has to fit 64 bits.
pub fn parse_u64(name: &str, raw: Option<String>, default: u64) -> (r: Result<u64, String>)
    ensures
        match r {
            Ok(n) => number_setting(
                name@,
                string_text(raw),
                default as nat,
                u64::MAX as nat,
                " must be a positive integer"@,
            ) == Ok::<nat, Seq<char>>(n as nat),
            Err(m) => number_setting(
                name@,
                string_text(raw),
                default as nat,
                u64::MAX as nat,
                " must be a positive integer"@,
            ) == Err::<nat, Seq<char>>(m@),
        },
{
    let raw = match raw {
        Some(raw) => raw,
        None => {
            return Ok(default);
        },
    };
    let value = trim(raw.as_str());
    if value.is_empty() {
        return Ok(default);
    }
    match u64_from_str(value) {
        Some(n) => Ok(n),
        None => Err(complaint(name, " must be a positive integer")),
    }
}

/// Reads a numeric setting that has to fit a machine word.
pub fn parse_usize(name: &str, raw: Option<String>, default: usize) -> (r: Result<usize, String>)
    ensures
        match r {
            Ok(n) => number_setting(
                name@,
                string_text(raw),
                default as nat,
                usize::MAX as nat,
                " must be a positive integer"@,
            ) == Ok::<nat, Seq<char>>(n as nat),
            Err(m) => number_setting(
                name@,
                string_text(raw),
                default as nat,
                usize::MAX as nat,
                " must be a positive integer"@,
            ) == Err::<nat, Seq<char>>(m@),
        },
{
    let raw = match raw {
        Some(raw) => raw,
        None => {
            return Ok(default);
        },
    };
    let value = trim(raw.as_str());
    if value.is_empty() {
        return Ok(default);
    }
    match usize_from_str(value) {
        Some(n) => Ok(n),
        None => Err(complaint(name, " must be a positive integer")),
    }
}

/// The raw values of the environment variables the gateway reads, each
/// `None` where the variable is unset or not valid Unicode.
#[derive(Debug)]
pub struct Environment {
    /// `INGEST_PORT`
    pub ingest_port: Option<String>,
    /// `PORT`
    pub port: Option<String>,
    /// `INGEST_FORWARD_OTLP_ENDPOINT`
    pub forward_otlp_endpoint: Option<String>,
    /// `INGEST_FORWARD_TIMEOUT_MS`
    pub forward_timeout_ms: Option<String>,
    /// `INGEST_MAX_REQUEST_BODY_BYTES`
    pub max_request_body_bytes: Option<String>,
    /// `INGEST_REQUIRE_TLS`
    pub require_tls: Option<String>,
    /// `MAPLE_DB_URL`
    pub db_url: Option<String>,
    /// `MAPLE_DB_AUTH_TOKEN`
    pub db_auth_token: Option<String>,
    /// `MAPLE_INGEST_KEY_LOOKUP_HMAC_KEY`
    pub lookup_hmac_key: Option<String>,
    /// `AUTUMN_SECRET_KEY`
    pub autumn_secret_key: Option<String>,
    /// `AUTUMN_API_URL`
    pub autumn_api_url: Option<String>,
    /// `AUTUMN_FLUSH_INTERVAL_SECS`
    pub autumn_flush_interval_secs: Option<String>,
}

/// The gateway's configuration.
#[derive(Debug)]
pub struct AppConfig {
    pub port: u16,
    pub forward_endpoint: String,
    pub forward_timeout_ms: u64,
    pub max_request_body_bytes: usize,
    pub require_tls: bool,
    pub db_url: Option<String>,
    pub db_auth_token: Option<String>,
    pub lookup_hmac_key: String,
    pub autumn_secret_key: Option<String>,
    pub autumn_api_url: String,
    pub autumn_flush_interval_secs: u64,
}

/// The mathematical content of an `AppConfig`.
pub ghost struct ConfigModel {
    pub port: nat,
    pub forward_endpoint: Seq<char>,
    pub forward_timeout_ms: nat,
    pub max_request_body_bytes: nat,
    pub require_tls: bool,
    pub db_url: Option<Seq<char>>,
    pub db_auth_token: Option<Seq<char>>,
    pub lookup_hmac_key: Seq<char>,
    pub autumn_secret_key: Option<Seq<char>>,
    pub autumn_api_url: Seq<char>,
    pub autumn_flush_interval_secs: nat,
}

impl View for AppConfig {
    type V = ConfigModel;

    open spec fn view(&self) -> ConfigModel {
        ConfigModel {
            port: self.port as nat,
            forward_endpoint: self.forward_endpoint@,
            forward_timeout_ms: self.forward_timeout_ms as nat,
            max_request_body_bytes: self.max_request_body_bytes as nat,
            require_tls: self.require_tls,
            db_url: string_text(self.db_url),
            db_auth_token: string_text(self.db_auth_token),
            lookup_hmac_key: self.lookup_hmac_key@,
            autumn_secret_key: string_text(self.autumn_secret_key),
            autumn_api_url: self.autumn_api_url@,
            autumn_flush_interval_secs: self.autumn_flush_interval_secs as nat,
        }
    }
}

/// The first of two optional values that is present.
pub open spec fn first_of(a: Option<Seq<char>>, b: Option<Seq<char>>) -> Option<Seq<char>> {
    match a {
        Some(_) => a,
        None => b,
    }
}

/// A base URL setting: the raw value or the default, trimmed, without
/// trailing slashes.
pub open spec fn base_url(raw: Option<Seq<char>>, default: Seq<char>) -> Seq<char> {
    let value = match raw {
        Some(v) => v,
        None => default,
    };
    trim_end_char(trimmed(value), '/')
}

/// The port listened on where none is configured.
pub const DEFAULT_PORT: u16 = 3474;

/// The ceiling for one forward to the collector, in milliseconds.
pub const DEFAULT_FORWARD_TIMEOUT_MS: u64 = 10000;

/// The largest request body accepted: 20 MiB.
pub const DEFAULT_MAX_REQUEST_BODY_BYTES: usize = 20971520;

/// The seconds between two flushes of usage.
pub const DEFAULT_FLUSH_INTERVAL_SECS: u64 = 1;

impl Environment {
    /// The configuration that these values amount to, or the message of the
    /// first setting found wrong, checked in this order: port, forward
    /// endpoint, forward timeout, body limit, TLS requirement, lookup
    /// secret, flush interval.
    pub open spec fn config(self) -> Result<ConfigModel, Seq<char>> {
        let port = number_setting(
            "INGEST_PORT"@,
            first_of(string_text(self.ingest_port), string_text(self.port)),
            DEFAULT_PORT as nat,
            u16::MAX as nat,
            " must be a valid u16"@,
        );
        let forward_endpoint = base_url(
            string_text(self.forward_otlp_endpoint),
            "http://127.0.0.1:4318"@,
        );
        let forward_timeout_ms = number_setting(
            "INGEST_FORWARD_TIMEOUT_MS"@,
            string_text(self.forward_timeout_ms),
            DEFAULT_FORWARD_TIMEOUT_MS as nat,
            u64::MAX as nat,
            " must be a positive integer"@,
        );
        let max_request_body_bytes = number_setting(
            "INGEST_MAX_REQUEST_BODY_BYTES"@,
            string_text(self.max_request_body_bytes),
            DEFAULT_MAX_REQUEST_BODY_BYTES as nat,
            usize::MAX as nat,
            " must be a positive integer"@,
        );
        let require_tls = bool_setting(
            "INGEST_REQUIRE_TLS"@,
            string_text(self.require_tls),
            false,
        );
        let lookup_hmac_key = non_blank(string_text(self.lookup_hmac_key));
        let autumn_flush_interval_secs = number_setting(
            "AUTUMN_FLUSH_INTERVAL_SECS"@,
            string_text(self.autumn_flush_interval_secs),
            DEFAULT_FLUSH_INTERVAL_SECS as nat,
            u64::MAX as nat,
            " must be a positive integer"@,
        );
        if port is Err {
            Err(port->Err_0)
        } else if forward_endpoint.len() == 0 {
            Err("INGEST_FORWARD_OTLP_ENDPOINT is required"@)
        } else if forward_timeout_ms is Err {
            Err(forward_timeout_ms->Err_0)
        } else if max_request_body_bytes is Err {
            Err(max_request_body_bytes->Err_0)
        } else if require_tls is Err {
            Err(require_tls->Err_0)
        } else if require_tls->Ok_0 && !"https://"@.is_prefix_of(forward_endpoint) {
            Err("INGEST_REQUIRE_TLS=true requires an https INGEST_FORWARD_OTLP_ENDPOINT"@)
        } else if lookup_hmac_key is None {
            Err("MAPLE_INGEST_KEY_LOOKUP_HMAC_KEY is required"@)
        } else if autumn_flush_interval_secs is Err {
            Err(autumn_flush_interval_secs->Err_0)
        } else {
            Ok(
                ConfigModel {
                    port: port->Ok_0,
                    forward_endpoint,
                    forward_timeout_ms: forward_timeout_ms->Ok_0,
                    max_request_body_bytes: max_request_body_bytes->Ok_0,
                    require_tls: require_tls->Ok_0,
                    db_url: non_blank(string_text(self.db_url)),
                    db_auth_token: non_blank(string_text(self.db_auth_token)),
                    lookup_hmac_key: lookup_hmac_key->0,
                    autumn_secret_key: non_blank(string_text(self.autumn_secret_key)),
                    autumn_api_url: base_url(
                        string_text(self.autumn_api_url),
                        "https://api.useautumn.com"@,
                    ),
                    autumn_flush_interval_secs: autumn_flush_interval_secs->Ok_0,
                },
            )
        }
    }
}

/// The trimmed value of an optional setting, unless it is absent or blank.
fn cleaned(raw: Option<String>) -> (r: Option<String>)
    ensures
        string_text(r) == non_blank(string_text(raw)),
{
    match raw {
        Some(value) => {
            let text = trim(value.as_str());
            if text.is_empty() {
                None
            } else {
                Some(text.to_owned())
            }
        },
        None => None,
    }
}

/// A base URL setting: the raw value or the default, trimmed, without
/// trailing slashes.
fn base_url_setting(raw: Option<String>, default: &str) -> (r: String)
    ensures
        r@ == base_url(string_text(raw), default@),
{
    let value = match raw {
        Some(value) => value,
        None => default.to_owned(),
    };
    trim_end_matches(trim(value.as_str()), '/').to_owned()
}

impl AppConfig {
    /// Computes the configuration from the values of the environment.
    pub fn from_env(env: Environment) -> (r: Result<AppConfig, String>)
        ensures
            match r {
                Ok(config) => env.config() == Ok::<ConfigModel, Seq<char>>(config@),
                Err(message) => env.config() == Err::<ConfigModel, Seq<char>>(message@),
            },
    {
        let port_text = match env.ingest_port {
            Some(value) => Some(value),
            None => env.port,
        };
        let port = match parse_u16("INGEST_PORT", port_text, DEFAULT_PORT) {
            Ok(port) => port,
            Err(message) => {
                return Err(message);
            },
        };
        let forward_endpoint = base_url_setting(env.forward_otlp_endpoint, "http://127.0.0.1:4318");
        if forward_endpoint.as_str().is_empty() {
            return Err("INGEST_FORWARD_OTLP_ENDPOINT is required".to_owned());
        }
        let forward_timeout_ms = match parse_u64(
            "INGEST_FORWARD_TIMEOUT_MS",
            env.forward_timeout_ms,
            DEFAULT_FORWARD_TIMEOUT_MS,
        ) {
            Ok(value) => value,
            Err(message) => {
                return Err(message);
            },
        };
        let max_request_body_bytes = match parse_usize(
            "INGEST_MAX_REQUEST_BODY_BYTES",
            env.max_request_body_bytes,
            DEFAULT_MAX_REQUEST_BODY_BYTES,
        ) {
            Ok(value) => value,
            Err(message) => {
                return Err(message);
            },
        };
        let require_tls = match parse_bool("INGEST_REQUIRE_TLS", env.require_tls, false) {
            Ok(value) => value,
            Err(message) => {
                return Err(message);
            },
        };
        if require_tls && !starts_with(forward_endpoint.as_str(), "https://") {
            return Err(
                "INGEST_REQUIRE_TLS=true requires an https INGEST_FORWARD_OTLP_ENDPOINT".to_owned(),
            );
        }
        let db_url = cleaned(env.db_url);
        let db_auth_token = cleaned(env.db_auth_token);
        let lookup_hmac_key = match cleaned(env.lookup_hmac_key) {
            Some(key) => key,
            None => {
                return Err("MAPLE_INGEST_KEY_LOOKUP_HMAC_KEY is required".to_owned());
            },
        };
        let autumn_secret_key = cleaned(env.autumn_secret_key);
        let autumn_api_url = base_url_setting(env.autumn_api_url, "https://api.useautumn.com");
        let autumn_flush_interval_secs = match parse_u64(
            "AUTUMN_FLUSH_INTERVAL_SECS",
            env.autumn_flush_interval_secs,
            DEFAULT_FLUSH_INTERVAL_SECS,
        ) {
            Ok(value) => value,
            Err(message) => {
                return Err(message);
            },
        };
        Ok(
            AppConfig {
                port,
                forward_endpoint,
                forward_timeout_ms,
                max_request_body_bytes,
                require_tls,
                db_url,
                db_auth_token,
                lookup_hmac_key,
                autumn_secret_key,
                autumn_api_url,
                autumn_flush_interval_secs,
            },
        )
    }
}

} // verus!
