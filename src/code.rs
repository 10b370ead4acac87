use vstd::prelude::*;

verus! {

/// Native status: one or more invalid or out-of-range arguments.
pub const OPUS_BAD_ARG: i32 = -1;

/// Native status: not enough bytes allocated in the buffer.
pub const OPUS_BUFFER_TOO_SMALL: i32 = -2;

/// Native status: an internal error was detected.
pub const OPUS_INTERNAL_ERROR: i32 = -3;

/// Native status: the compressed data passed is corrupted.
pub const OPUS_INVALID_PACKET: i32 = -4;

/// Native status: invalid or unsupported request number.
pub const OPUS_UNIMPLEMENTED: i32 = -5;

/// Native status: an encoder or decoder structure is invalid or already freed.
pub const OPUS_INVALID_STATE: i32 = -6;

/// Native status: memory allocation has failed.
pub const OPUS_ALLOC_FAIL: i32 = -7;

/// The value `ErrorCode::Unknown` stands for: unrelated to the codec, whose
/// statuses are all negative, and only a marker of this crate.
pub const UNKNOWN_MARKER: i32 = 0;

/// A status code reported by the native codec.
#[derive(Clone, Copy, Debug, PartialEq, Eq, Hash, Structural)]
pub enum ErrorCode {
    BadArgument,
    BufferTooSmall,
    InternalError,
    InvalidPacket,
    Unimplemented,
    InvalidState,
    AllocFail,
    /// The codec returned a value that it does not document.
    Unknown,
}

/// The native value that each code stands for (`Unknown` stands for the marker `0`).
pub open spec fn native_value(c: ErrorCode) -> int {
    match c {
        ErrorCode::BadArgument => OPUS_BAD_ARG as int,
        ErrorCode::BufferTooSmall => OPUS_BUFFER_TOO_SMALL as int,
        ErrorCode::InternalError => OPUS_INTERNAL_ERROR as int,
        ErrorCode::InvalidPacket => OPUS_INVALID_PACKET as int,
        ErrorCode::Unimplemented => OPUS_UNIMPLEMENTED as int,
        ErrorCode::InvalidState => OPUS_INVALID_STATE as int,
        ErrorCode::AllocFail => OPUS_ALLOC_FAIL as int,
        ErrorCode::Unknown => UNKNOWN_MARKER as int,
    }
}

/// Whether `v` is one of the statuses that the codec documents.
pub open spec fn is_documented(v: int) -> bool {
    exists|c: ErrorCode| c != ErrorCode::Unknown && #[trigger] native_value(c) == v
}

/// The code for a native value: the documented code whose value it is, else `Unknown`.
pub open spec fn code_of(v: int) -> ErrorCode {
    if v == OPUS_BAD_ARG {
        ErrorCode::BadArgument
    } else if v == OPUS_BUFFER_TOO_SMALL {
        ErrorCode::BufferTooSmall
    } else if v == OPUS_INTERNAL_ERROR {
        ErrorCode::InternalError
    } else if v == OPUS_INVALID_PACKET {
        ErrorCode::InvalidPacket
    } else if v == OPUS_UNIMPLEMENTED {
        ErrorCode::Unimplemented
    } else if v == OPUS_INVALID_STATE {
        ErrorCode::InvalidState
    } else if v == OPUS_ALLOC_FAIL {
        ErrorCode::AllocFail
    } else {
        ErrorCode::Unknown
    }
}

/// The fixed description of each code.
pub open spec fn code_message(c: ErrorCode) -> Seq<char> {
    match c {
        ErrorCode::BadArgument => "Passed argument violated Opus' specified requirements"@,
        ErrorCode::BufferTooSmall => "Passed buffer was too small"@,
        ErrorCode::InternalError => "Internal error inside Opus occured"@,
        ErrorCode::InvalidPacket => "Opus received a packet violating requirements"@,
        ErrorCode::Unimplemented => "Unimplemented code branch was attempted to be executed"@,
        ErrorCode::InvalidState => "Opus-type instance is in an invalid state"@,
        ErrorCode::AllocFail => "Opus was unable to allocate memory"@,
        ErrorCode::Unknown => "Opus returned a non-negative error, this might be a Audiopus or Opus bug"@,
    }
}

impl ErrorCode {
    /// The code for the native value `code`; `Unknown` for any value the codec
    /// does not document.
    pub fn from_native_code(code: i32) -> (r: ErrorCode)
        ensures
            r == code_of(code as int),
            is_documented(code as int) ==> native_value(r) == code,
            !is_documented(code as int) ==> r == ErrorCode::Unknown,
    {
        proof {
            if is_documented(code as int) {
                let c = choose|c: ErrorCode| c != ErrorCode::Unknown && #[trigger] native_value(c) == code;
                lemma_documented_code_round_trip(c);
            } else {
                lemma_undocumented_is_unknown(code as int);
            }
        }
        match code {
            OPUS_BAD_ARG => ErrorCode::BadArgument,
            OPUS_BUFFER_TOO_SMALL => ErrorCode::BufferTooSmall,
            OPUS_INTERNAL_ERROR => ErrorCode::InternalError,
            OPUS_INVALID_PACKET => ErrorCode::InvalidPacket,
            OPUS_UNIMPLEMENTED => ErrorCode::Unimplemented,
            OPUS_INVALID_STATE => ErrorCode::InvalidState,
            OPUS_ALLOC_FAIL => ErrorCode::AllocFail,
            _ => ErrorCode::Unknown,
        }
    }

    /// The native value this code stands for; `0` for `Unknown`.
    pub fn native_code(&self) -> (r: i32)
        ensures
            r == native_value(*self),
    {
        match self {
            ErrorCode::BadArgument => OPUS_BAD_ARG,
            ErrorCode::BufferTooSmall => OPUS_BUFFER_TOO_SMALL,
            ErrorCode::InternalError => OPUS_INTERNAL_ERROR,
            ErrorCode::InvalidPacket => OPUS_INVALID_PACKET,
            ErrorCode::Unimplemented => OPUS_UNIMPLEMENTED,
            ErrorCode::InvalidState => OPUS_INVALID_STATE,
            ErrorCode::AllocFail => OPUS_ALLOC_FAIL,
            ErrorCode::Unknown => UNKNOWN_MARKER,
        }
    }

    /// The human-readable description of this code.
    pub fn render(&self) -> (r: String)
        ensures
            r@ == code_message(*self),
    {
        let s: &str = match self {
            ErrorCode::BadArgument => "Passed argument violated Opus' specified requirements",
            ErrorCode::BufferTooSmall => "Passed buffer was too small",
            ErrorCode::InternalError => "Internal error inside Opus occured",
            ErrorCode::InvalidPacket => "Opus received a packet violating requirements",
            ErrorCode::Unimplemented => "Unimplemented code branch was attempted to be executed",
            ErrorCode::InvalidState => "Opus-type instance is in an invalid state",
            ErrorCode::AllocFail => "Opus was unable to allocate memory",
            ErrorCode::Unknown => "Opus returned a non-negative error, this might be a Audiopus or Opus bug",
        };
        String::from_str(s)
    }
}

impl From<i32> for ErrorCode {
    fn from(number: i32) -> (r: ErrorCode) {
        ErrorCode::from_native_code(number)
    }
}

impl vstd::std_specs::convert::FromSpecImpl<i32> for ErrorCode {
    open spec fn obeys_from_spec() -> bool {
        true
    }

    open spec fn from_spec(v: i32) -> ErrorCode {
        code_of(v as int)
    }
}

/// Every documented code is recovered exactly from its native value.
pub proof fn lemma_documented_code_round_trip(c: ErrorCode)
    requires
        c != ErrorCode::Unknown,
    ensures
        code_of(native_value(c)) == c,
        native_value(c) < 0,
{
}

/// Every value that the codec does not document maps to `Unknown`.
pub proof fn lemma_undocumented_is_unknown(v: int)
    requires
        !is_documented(v),
    ensures
        code_of(v) == ErrorCode::Unknown,
{
    if code_of(v) != ErrorCode::Unknown {
        assert(native_value(code_of(v)) == v);
    }
}

/// Classification never mistakes a value for another: a value maps to a
/// documented code exactly when that code's native value is that value.
pub proof fn lemma_code_of_exact(v: int, c: ErrorCode)
    requires
        c != ErrorCode::Unknown,
    ensures
        code_of(v) == c <==> native_value(c) == v,
{
}

} // verus!
