use vstd::prelude::*;

use crate::errors::{ApiFailure, Error};

verus! {

#[verifier::external_type_specification]
#[verifier::external_body]
pub struct ExValue(serde_json::Value);

/// Whether serde_json::from_str accepts the text: the parse outcome is a
/// function of the text alone.
pub uninterp spec fn json_parses(s: Seq<char>) -> bool;

/// The four fields of the text's error envelope, in the order code,
/// source, end-user message, merchant message: what `meta.action` and
/// `meta.message` hold under the respective key as a string, and nothing
/// where the text does not parse, a link of the chain is missing, or the
/// field is not a string. A function of the text alone.
pub uninterp spec fn envelope_of(s: Seq<char>) -> (
    Option<Seq<char>>,
    Option<Seq<char>>,
    Option<Seq<char>>,
    Option<Seq<char>>,
);

/// An optional owned text, viewed.
pub open spec fn opt_text(o: Option<String>) -> Option<Seq<char>> {
    match o {
        Some(s) => Some(s@),
        None => None,
    }
}

/// Relies on serde_json::from_str with the self-describing Value target,
/// which accepts exactly the well-formed JSON texts; a parse failure is
/// carried as its description.
#[verifier::external_body]
fn parse_json_value(text: &str) -> (r: Result<serde_json::Value, String>)
    ensures
        r is Ok <==> json_parses(text@),
{
    serde_json::from_str(text).map_err(|e| e.to_string())
}

/// Relies on serde_json::from_str, Value::get and Value::as_str for the
/// error envelope: `get` finds a key exactly in an object, `as_str` hands
/// out exactly a string value's text, and each absent link leaves the
/// fields of its branch out.
#[verifier::external_body]
fn envelope_fields(text: &str) -> (r: (
    Option<String>,
    Option<String>,
    Option<String>,
    Option<String>,
))
    ensures
        opt_text(r.0) == envelope_of(text@).0,
        opt_text(r.1) == envelope_of(text@).1,
        opt_text(r.2) == envelope_of(text@).2,
        opt_text(r.3) == envelope_of(text@).3,
{
    let root: Option<serde_json::Value> = serde_json::from_str(text).ok();
    let meta = root.as_ref().and_then(|v| v.get("meta"));
    let action = meta.and_then(|v| v.get("action"));
    let message = meta.and_then(|v| v.get("message"));
    let pick = |o: Option<&serde_json::Value>, k: &str| {
        o.and_then(|v| v.get(k)).and_then(|v| v.as_str()).map(|s| s.to_owned())
    };
    (pick(action, "code"), pick(action, "source"), pick(message, "enduser"), pick(message, "merchant"))
}

/// The explicit marker carried in place of an envelope field the response
/// did not supply.
pub open spec fn unknown_text() -> Seq<char> {
    "unknown"@
}

/// The placeholder put in place of a response body that could not be read.
pub open spec fn missing_body_text() -> Seq<char> {
    "Could not retrieve body text."@
}

/// The text a failed response carries for one envelope field: the field
/// where the envelope supplied it, else the explicit `unknown` marker.
pub open spec fn spec_or_unknown(o: Option<Seq<char>>) -> Seq<char> {
    match o {
        Some(s) => s,
        None => unknown_text(),
    }
}

/// The HTTP statuses treated as success.
pub open spec fn spec_is_success(status: u16) -> bool {
    200 <= status < 300
}

/// The body text a response contributes: its own text, or the fixed
/// placeholder where the body could not be read.
pub open spec fn spec_body_text(body: Option<String>) -> Seq<char> {
    match body {
        Some(t) => t@,
        None => missing_body_text(),
    }
}

fn or_unknown(field: Option<String>) -> (r: String)
    ensures
        field matches Some(s) ==> r == s,
        field is None ==> r@ == unknown_text(),
{
    match field {
        Some(s) => s,
        None => "unknown".to_owned(),
    }
}

/// Builds the structured failure for a response from its status, its raw
/// body text, and whatever fields the body's error envelope supplied: each
/// field the envelope left out becomes the explicit `unknown` marker.
pub fn api_failure_from_fields(
    status: u16,
    code: Option<String>,
    source: Option<String>,
    enduser_message: Option<String>,
    merchant_message: Option<String>,
    raw: String,
) -> (f: ApiFailure)
    ensures
        f.status == status,
        f.raw == raw,
        code matches Some(s) ==> f.code == s,
        code is None ==> f.code@ == unknown_text(),
        source matches Some(s) ==> f.source == s,
        source is None ==> f.source@ == unknown_text(),
        enduser_message matches Some(s) ==> f.enduser_message == s,
        enduser_message is None ==> f.enduser_message@ == unknown_text(),
        merchant_message matches Some(s) ==> f.merchant_message == s,
        merchant_message is None ==> f.merchant_message@ == unknown_text(),
{
    ApiFailure {
        status,
        code: or_unknown(code),
        source: or_unknown(source),
        enduser_message: or_unknown(enduser_message),
        merchant_message: or_unknown(merchant_message),
        raw,
    }
}

/// Classifies a response by its HTTP status: the text of a success in
/// [200, 300) passes through for decoding, and any other status becomes a
/// structured API error carrying the status, the raw text, and the body's
/// envelope fields, each defaulting to the `unknown` marker where the
/// envelope left it out.
pub fn classify_response(status: u16, text: String) -> (r: Result<String, Error>)
    ensures
        spec_is_success(status) ==> (r matches Ok(s) && s == text),
        !spec_is_success(status) ==> (r matches Err(e) && e matches Error::ApiError(f)
            && f.status == status && f.raw == text
            && f.code@ == spec_or_unknown(envelope_of(text@).0)
            && f.source@ == spec_or_unknown(envelope_of(text@).1)
            && f.enduser_message@ == spec_or_unknown(envelope_of(text@).2)
            && f.merchant_message@ == spec_or_unknown(envelope_of(text@).3)),
{
    if 200 <= status && status < 300 {
        Ok(text)
    } else {
        let (code, source, enduser_message, merchant_message) = envelope_fields(text.as_str());
        Err(
            Error::ApiError(
                api_failure_from_fields(
                    status,
                    code,
                    source,
                    enduser_message,
                    merchant_message,
                    text,
                ),
            ),
        )
    }
}

/// What one request/response exchange with the transport produced: a
/// response with its status and body text (or none, where the body could
/// not be read), or a transport failure with its cause's description.
pub enum TransportEvent {
    Response { status: u16, body: Option<String> },
    Failure { detail: String },
}

/// Turns a transport outcome into the POST operation's result: a transport
/// failure becomes a network error carrying its description; a response
/// whose body could not be read keeps a fixed placeholder text; and every
/// response is then classified by its HTTP status.
pub fn handle_transport_event(event: TransportEvent) -> (r: Result<String, Error>)
    ensures
        event matches TransportEvent::Failure { detail } ==> (r matches Err(e)
            && e matches Error::NetworkError(d) && d == detail),
        event matches TransportEvent::Response { status, body } ==> (spec_is_success(status)
            ==> (r matches Ok(s) && s@ == spec_body_text(body))),
        event matches TransportEvent::Response { status, body } ==> (!spec_is_success(status)
            ==> (r matches Err(e) && e matches Error::ApiError(f) && f.status == status
            && f.raw@ == spec_body_text(body)
            && f.code@ == spec_or_unknown(envelope_of(spec_body_text(body)).0)
            && f.source@ == spec_or_unknown(envelope_of(spec_body_text(body)).1)
            && f.enduser_message@ == spec_or_unknown(envelope_of(spec_body_text(body)).2)
            && f.merchant_message@ == spec_or_unknown(envelope_of(spec_body_text(body)).3))),
{
    match event {
        TransportEvent::Failure { detail } => Err(Error::NetworkError(detail)),
        TransportEvent::Response { status, body } => {
            let text = match body {
                Some(t) => t,
                None => "Could not retrieve body text.".to_owned(),
            };
            classify_response(status, text)
        },
    }
}

/// Decodes a success response's body as JSON: it succeeds exactly when the
/// text parses. A body that does not parse becomes a serialization error
/// carrying the parse failure's description and the raw text.
pub fn decode_success_body(text: String) -> (r: Result<serde_json::Value, Error>)
    ensures
        r is Ok <==> json_parses(text@),
        r matches Err(e) ==> (e matches Error::SerializationError(detail, raw) && raw == text),
{
    match parse_json_value(text.as_str()) {
        Ok(v) => Ok(v),
        Err(detail) => Err(Error::SerializationError(detail, text)),
    }
}

} // verus!
