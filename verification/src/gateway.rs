use vstd::prelude::*;

use crate::errors::Error;

verus! {

#[verifier::external_type_specification]
#[verifier::external_body]
pub struct ExClient(reqwest::Client);

#[verifier::external_type_specification]
#[verifier::external_body]
pub struct ExHeaderValue(reqwest::header::HeaderValue);

/// The whole-request timeout applied when none is given, in milliseconds.
pub const DEFAULT_TIMEOUT_MS: u64 = 60000;

/// A character every byte of whose UTF-8 encoding is permitted in a header
/// value: horizontal tab, or a code point at least 32 other than the
/// delete character. Every byte of a multi-byte encoding is at least 0xC2,
/// so every character above the ASCII range is permitted.
pub open spec fn valid_header_char(c: char) -> bool {
    c == '\t' || (c as u32 >= 32 && c as u32 != 127)
}

/// Every character of the text may stand in a header value.
pub open spec fn valid_header_text(s: Seq<char>) -> bool {
    forall|i: int| 0 <= i < s.len() ==> valid_header_char(s[i])
}

/// The prefix every client-build failure's diagnostic carries, so that a
/// construction error can be told apart from a refused API key.
pub open spec fn build_failure_prefix() -> Seq<char> {
    "could not create reqwest client ("@
}

/// The diagnostic describes a client-build failure: it starts with the
/// build-failure prefix.
pub open spec fn is_build_failure_text(s: Seq<char>) -> bool {
    s.len() >= build_failure_prefix().len() && s.subrange(
        0,
        build_failure_prefix().len() as int,
    ) == build_failure_prefix()
}

/// The timeout a construction call asks for: the given one, or the default.
pub open spec fn spec_timeout_or_default(timeout_ms: Option<u64>) -> u64 {
    match timeout_ms {
        Some(v) => v,
        None => DEFAULT_TIMEOUT_MS,
    }
}

/// Relies on reqwest::header::HeaderValue::from_str, which accepts a
/// string exactly when each of its bytes is at least 32 and not 127, or
/// horizontal tab.
#[verifier::external_body]
fn api_key_header_value(key: &str) -> (r: Option<reqwest::header::HeaderValue>)
    ensures
        r is Some <==> valid_header_text(key@),
{
    reqwest::header::HeaderValue::from_str(key).ok()
}

/// Relies on reqwest::ClientBuilder to build the configured HTTP client:
/// default headers Content-Type: application/json, Accept:
/// application/json and x-API-key with the given value, encrypted
/// transport only, and the given whole-request timeout; a build failure is
/// carried as its description, behind the fixed build-failure prefix.
#[verifier::external_body]
fn build_client(api_key: reqwest::header::HeaderValue, timeout_ms: u64) -> (r: Result<
    reqwest::Client,
    String,
>)
    ensures
        r matches Err(d) ==> is_build_failure_text(d@),
{
    let mut headers = reqwest::header::HeaderMap::new();
    headers.insert("Content-Type", reqwest::header::HeaderValue::from_static("application/json"));
    headers.insert("Accept", reqwest::header::HeaderValue::from_static("application/json"));
    headers.insert("x-API-key", api_key);
    reqwest::ClientBuilder::new()
        .default_headers(headers)
        .https_only(true)
        .timeout(std::time::Duration::from_millis(timeout_ms))
        .build()
        .map_err(|e| format!("could not create reqwest client ({})", e))
}

/// An authenticated connection profile for the payment provider's API: an
/// HTTP client that carries the fixed JSON headers and the API key on
/// every request, refuses plaintext connections, and bounds each request
/// by a single timeout. Immutable once constructed.
pub struct Gateway {
    client: reqwest::Client,
    api_key: String,
    timeout_ms: u64,
}

impl Gateway {
    /// The key the gateway authenticates with.
    pub closed spec fn spec_api_key(&self) -> Seq<char> {
        self.api_key@
    }

    /// The whole-request timeout, in milliseconds.
    pub closed spec fn spec_timeout_ms(&self) -> u64 {
        self.timeout_ms
    }

    /// Builds the gateway: validates the API key as a header value, applies
    /// the given timeout or the 60-second default, and configures the HTTP
    /// client. A key with a character no header value can hold is refused;
    /// any failure surfaces as a construction error with a diagnostic.
    pub fn new(api_key: String, timeout_ms: Option<u64>) -> (r: Result<Gateway, Error>)
        ensures
            r matches Err(e) ==> e is Unspecified,
            !valid_header_text(api_key@) ==> (r matches Err(e) && e matches Error::Unspecified(s)
                && s@ == "could not create auth header: the API key is not a valid header value"@),
            valid_header_text(api_key@) ==> (r matches Err(e)
                ==> e matches Error::Unspecified(s) && is_build_failure_text(s@)),
            r matches Ok(g) ==> valid_header_text(api_key@) && g.spec_api_key() == api_key@
                && g.spec_timeout_ms() == spec_timeout_or_default(timeout_ms),
    {
        let header = match api_key_header_value(api_key.as_str()) {
            Some(h) => h,
            None => {
                return Err(
                    Error::Unspecified(
                        "could not create auth header: the API key is not a valid header value".to_owned(),
                    ),
                );
            },
        };
        let t = match timeout_ms {
            Some(v) => v,
            None => DEFAULT_TIMEOUT_MS,
        };
        match build_client(header, t) {
            Ok(client) => Ok(Gateway { client, api_key, timeout_ms: t }),
            Err(detail) => Err(Error::Unspecified(detail)),
        }
    }

    /// The whole-request timeout the gateway was built with, in
    /// milliseconds.
    pub fn timeout_millis(&self) -> (r: u64)
        ensures
            r == self.spec_timeout_ms(),
    {
        self.timeout_ms
    }

    /// The configured HTTP client, for the caller that performs the
    /// network exchange.
    pub fn client(&self) -> &reqwest::Client {
        &self.client
    }
}

} // verus!
