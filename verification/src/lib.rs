mod amount;
mod classify;
mod currency;
mod digits;
mod errors;
mod gateway;

pub use amount::convert_decimal_into_minor_units;
pub use amount::conversion_fits;
pub use amount::convert_post;
pub use amount::lemma_conversion_deterministic;
pub use amount::lemma_negative_never_converts;
pub use amount::lemma_oversized_scaled_value_fails;
pub use amount::spec_minor_units;
pub use amount::spec_scaled_text;
pub use amount::AmountModel;
pub use amount::DecimalAmount;
pub use amount::MANTISSA_LIMIT;
pub use amount::SCALE_LIMIT;
pub use classify::api_failure_from_fields;
pub use classify::envelope_of;
pub use classify::json_parses;
pub use classify::opt_text;
pub use classify::spec_or_unknown;
pub use classify::classify_response;
pub use classify::decode_success_body;
pub use classify::handle_transport_event;
pub use classify::missing_body_text;
pub use classify::spec_body_text;
pub use classify::spec_is_success;
pub use classify::unknown_text;
pub use classify::TransportEvent;
pub use currency::spec_exponent;
pub use currency::Currency;
pub use digits::spec_decimal_text;
pub use gateway::build_failure_prefix;
pub use gateway::is_build_failure_text;
pub use gateway::spec_timeout_or_default;
pub use gateway::valid_header_char;
pub use gateway::valid_header_text;
pub use gateway::Gateway;
pub use gateway::DEFAULT_TIMEOUT_MS;
pub use errors::ApiFailure;
pub use errors::Error;
