//! Error taxonomy for a binding to a native audio codec: the codec's
//! negative status codes as a closed enumeration, the binding's own
//! failures, and the classification of raw call results.

mod code;
mod decimal;
mod error;

pub use code::{
    code_message, code_of, is_documented, lemma_code_of_exact, lemma_documented_code_round_trip,
    lemma_undocumented_is_unknown, native_value, ErrorCode, OPUS_ALLOC_FAIL, OPUS_BAD_ARG,
    OPUS_BUFFER_TOO_SMALL, OPUS_INTERNAL_ERROR, OPUS_INVALID_PACKET, OPUS_INVALID_STATE,
    OPUS_UNIMPLEMENTED, UNKNOWN_MARKER,
};
pub use decimal::{decimal_digits, digit_char, signed_decimal};
pub use error::{
    cause_of, classified, error_message, lemma_classified_cause, try_map_opus_error, Error,
};
