use crate::code::{code_message, code_of, ErrorCode};
use crate::decimal::{decimal_digits, push_decimal, push_signed_decimal, signed_decimal};
use vstd::prelude::*;

verus! {

/// A failure of the binding: a configuration value that failed validation,
/// a status reported by the codec, or a limit of the codec's interface.
#[derive(Clone, Copy, Debug, PartialEq, Eq, Hash, Structural)]
pub enum Error {
    /// A value failed to match a documented application mode.
    InvalidApplication,
    /// A value failed to match a documented bandwidth.
    InvalidBandwidth(i32),
    /// A value failed to match a documented bitrate; negative values are invalid.
    InvalidBitrate(i32),
    /// A value failed to match a documented signal hint.
    InvalidSignal(i32),
    /// Complexity was lower than 1 or higher than 10.
    InvalidComplexity(i32),
    /// A value failed to match a documented sample rate.
    InvalidSampleRate(i32),
    /// A value failed to match a documented channel count.
    InvalidChannels(i32),
    /// A status returned by the codec, with the code describing its cause.
    Opus(ErrorCode),
    /// The codec does not operate on empty packets.
    EmptyPacket,
    /// The signal buffer is longer than `i32::MAX`, the codec's largest length.
    SignalsTooLarge,
    /// The packet is longer than `i32::MAX`, the codec's largest length.
    PacketTooLarge,
    /// A channel mapping did not have the length the channel layout requires.
    MappingExpectedLen(usize),
}

/// The description of each error: a fixed text, the offending value in
/// decimal, or for `Opus` the description of its code.
pub open spec fn error_message(e: Error) -> Seq<char> {
    match e {
        Error::InvalidApplication => "Invalid Application"@,
        Error::InvalidBandwidth(v) => "Invalid Bandwitdh: "@ + signed_decimal(v as int),
        Error::InvalidBitrate(v) => "Invalid Bitrate: "@ + signed_decimal(v as int),
        Error::InvalidSignal(v) => "Invalid Signal: "@ + signed_decimal(v as int),
        Error::InvalidComplexity(v) => "Invalid Complexity: "@ + signed_decimal(v as int),
        Error::InvalidSampleRate(v) => "Invalid Sample Rate: "@ + signed_decimal(v as int),
        Error::InvalidChannels(v) => "Invalid Channels: "@ + signed_decimal(v as int),
        Error::Opus(c) => code_message(c),
        Error::EmptyPacket => "Passed packet contained no elements"@,
        Error::SignalsTooLarge => "Signals' length exceeded `i32::MAX`"@,
        Error::PacketTooLarge => "Packet's length exceeded `i32::MAX`"@,
        Error::MappingExpectedLen(n) => "Wrong channel length, expected: "@ + decimal_digits(
            n as nat,
        ),
    }
}

/// The code an error chains to: the wrapped code of `Opus`, none for the others.
pub open spec fn cause_of(e: Error) -> Option<ErrorCode> {
    match e {
        Error::Opus(c) => Some(c),
        _ => None,
    }
}

/// What the classification of a raw native result gives: the value itself
/// when it is not negative, else the codec error for it.
pub open spec fn classified(v: i32) -> Result<i32, Error> {
    if v < 0 {
        Err(Error::Opus(code_of(v as int)))
    } else {
        Ok(v)
    }
}

impl Error {
    /// The human-readable description of this error.
    pub fn render(&self) -> (r: String)
        ensures
            r@ == error_message(*self),
    {
        match self {
            Error::InvalidApplication => String::from_str("Invalid Application"),
            Error::InvalidBandwidth(v) => {
                let mut s = String::from_str("Invalid Bandwitdh: ");
                push_signed_decimal(&mut s, *v);
                s
            },
            Error::InvalidBitrate(v) => {
                let mut s = String::from_str("Invalid Bitrate: ");
                push_signed_decimal(&mut s, *v);
                s
            },
            Error::InvalidSignal(v) => {
                let mut s = String::from_str("Invalid Signal: ");
                push_signed_decimal(&mut s, *v);
                s
            },
            Error::InvalidComplexity(v) => {
                let mut s = String::from_str("Invalid Complexity: ");
                push_signed_decimal(&mut s, *v);
                s
            },
            Error::InvalidSampleRate(v) => {
                let mut s = String::from_str("Invalid Sample Rate: ");
                push_signed_decimal(&mut s, *v);
                s
            },
            Error::InvalidChannels(v) => {
                let mut s = String::from_str("Invalid Channels: ");
                push_signed_decimal(&mut s, *v);
                s
            },
            Error::Opus(c) => c.render(),
            Error::EmptyPacket => String::from_str("Passed packet contained no elements"),
            Error::SignalsTooLarge => String::from_str("Signals' length exceeded `i32::MAX`"),
            Error::PacketTooLarge => String::from_str("Packet's length exceeded `i32::MAX`"),
            Error::MappingExpectedLen(n) => {
                let mut s = String::from_str("Wrong channel length, expected: ");
                push_decimal(&mut s, *n as u64);
                s
            },
        }
    }

    /// The code this error chains to: `Some(code)` for `Opus(code)`, `None` otherwise.
    pub fn underlying_cause(&self) -> (r: Option<ErrorCode>)
        ensures
            r == cause_of(*self),
    {
        match self {
            Error::Opus(c) => Some(*c),
            _ => None,
        }
    }
}

impl From<ErrorCode> for Error {
    fn from(error_code: ErrorCode) -> (r: Error) {
        Error::Opus(error_code)
    }
}

impl vstd::std_specs::convert::FromSpecImpl<ErrorCode> for Error {
    open spec fn obeys_from_spec() -> bool {
        true
    }

    open spec fn from_spec(c: ErrorCode) -> Error {
        Error::Opus(c)
    }
}

/// Classifies the raw result of a native call: a value that is not negative
/// is handed back unchanged, a negative one becomes the codec error for it.
pub fn try_map_opus_error(ffi_return_value: i32) -> (r: Result<i32, Error>)
    ensures
        r == classified(ffi_return_value),
        ffi_return_value >= 0 ==> r == Ok::<i32, Error>(ffi_return_value),
        ffi_return_value < 0 ==> r == Err::<i32, Error>(
            Error::Opus(code_of(ffi_return_value as int)),
        ),
{
    if ffi_return_value < 0 {
        Err(Error::from(ErrorCode::from_native_code(ffi_return_value)))
    } else {
        Ok(ffi_return_value)
    }
}

/// A negative native result is classified as an error that chains to the
/// code for that very value; one that is not negative is handed back as it is.
pub proof fn lemma_classified_cause(v: i32)
    ensures
        v < 0 ==> (classified(v) matches Err(e) && cause_of(e) == Some(code_of(v as int))),
        v >= 0 ==> classified(v) == Ok::<i32, Error>(v),
{
}

} // verus!
