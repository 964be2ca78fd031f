use vstd::prelude::*;

verus! {

/// Structured description of a response whose HTTP status lay outside the
/// success range. `status` and `raw` always carry the observed status code
/// and body text; the four envelope fields carry what the body's optional
/// error envelope supplied, or the text `unknown` where it supplied nothing.
#[derive(Debug, Clone, PartialEq)]
pub struct ApiFailure {
    pub status: u16,
    pub code: String,
    pub source: String,
    pub enduser_message: String,
    pub merchant_message: String,
    pub raw: String,
}

/// Every failure the core reports to its callers.
#[derive(Debug, Clone, PartialEq)]
pub enum Error {
    /// A decimal amount could not be cast to minor units; carries the
    /// textual form of the offending scaled value.
    ConversionError(String),
    /// The gateway could not be constructed; carries a diagnostic string.
    Unspecified(String),
    /// The request could not be sent or the response not received; carries
    /// the underlying cause's description.
    NetworkError(String),
    /// A success response's body was not the expected JSON; carries the
    /// parse failure's description and the raw body text.
    SerializationError(String, String),
    /// The response's status lay outside the success range.
    ApiError(ApiFailure),
}

} // verus!
