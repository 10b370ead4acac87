use audiopus::{
    try_map_opus_error, Error, ErrorCode, OPUS_ALLOC_FAIL, OPUS_BAD_ARG, OPUS_BUFFER_TOO_SMALL,
    OPUS_INTERNAL_ERROR, OPUS_INVALID_PACKET, OPUS_INVALID_STATE, OPUS_UNIMPLEMENTED,
};

const DOCUMENTED: [(i32, ErrorCode); 7] = [
    (OPUS_BAD_ARG, ErrorCode::BadArgument),
    (OPUS_BUFFER_TOO_SMALL, ErrorCode::BufferTooSmall),
    (OPUS_INTERNAL_ERROR, ErrorCode::InternalError),
    (OPUS_INVALID_PACKET, ErrorCode::InvalidPacket),
    (OPUS_UNIMPLEMENTED, ErrorCode::Unimplemented),
    (OPUS_INVALID_STATE, ErrorCode::InvalidState),
    (OPUS_ALLOC_FAIL, ErrorCode::AllocFail),
];

#[test]
fn documented_codes_map_to_their_variant() {
    for (value, code) in DOCUMENTED {
        assert_eq!(ErrorCode::from_native_code(value), code);
        assert_eq!(ErrorCode::from(value), code);
        assert_eq!(code.native_code(), value);
    }
}

#[test]
fn documented_codes_are_the_native_values() {
    assert_eq!(OPUS_BAD_ARG, -1);
    assert_eq!(OPUS_BUFFER_TOO_SMALL, -2);
    assert_eq!(OPUS_INTERNAL_ERROR, -3);
    assert_eq!(OPUS_INVALID_PACKET, -4);
    assert_eq!(OPUS_UNIMPLEMENTED, -5);
    assert_eq!(OPUS_INVALID_STATE, -6);
    assert_eq!(OPUS_ALLOC_FAIL, -7);
    assert_eq!(ErrorCode::Unknown.native_code(), 0);
}

#[test]
fn undocumented_values_are_unknown() {
    for value in [0, 1, 960, -8, -100, i32::MIN, i32::MAX] {
        assert_eq!(ErrorCode::from_native_code(value), ErrorCode::Unknown);
    }
}

#[test]
fn undocumented_negative_value_is_unknown() {
    assert_eq!(ErrorCode::from_native_code(-9999), ErrorCode::Unknown);
}

#[test]
fn non_negative_results_pass_unchanged() {
    for value in [0, 1, 42, 960, i32::MAX] {
        assert_eq!(try_map_opus_error(value), Ok(value));
    }
}

#[test]
fn classification_of_length_960() {
    assert_eq!(try_map_opus_error(960), Ok(960));
}

#[test]
fn negative_results_become_codec_errors() {
    for value in [-1, -2, -3, -4, -5, -6, -7, -8, -9999, i32::MIN] {
        assert_eq!(
            try_map_opus_error(value),
            Err(Error::Opus(ErrorCode::from_native_code(value)))
        );
    }
}

#[test]
fn classification_of_bad_argument() {
    assert_eq!(
        try_map_opus_error(-1),
        Err(Error::Opus(ErrorCode::BadArgument))
    );
}

#[test]
fn classification_of_undocumented_negative() {
    assert_eq!(
        try_map_opus_error(-42),
        Err(Error::Opus(ErrorCode::Unknown))
    );
}

#[test]
fn only_codec_errors_have_a_cause() {
    for (_, code) in DOCUMENTED {
        assert_eq!(Error::Opus(code).underlying_cause(), Some(code));
    }
    assert_eq!(
        Error::Opus(ErrorCode::Unknown).underlying_cause(),
        Some(ErrorCode::Unknown)
    );
    let others = [
        Error::InvalidApplication,
        Error::InvalidBandwidth(1),
        Error::InvalidBitrate(-100),
        Error::InvalidSignal(3),
        Error::InvalidComplexity(11),
        Error::InvalidSampleRate(44100),
        Error::InvalidChannels(3),
        Error::EmptyPacket,
        Error::SignalsTooLarge,
        Error::PacketTooLarge,
        Error::MappingExpectedLen(2),
    ];
    for e in others {
        assert_eq!(e.underlying_cause(), None);
    }
}

#[test]
fn error_from_code_wraps_it() {
    assert_eq!(
        Error::from(ErrorCode::InvalidPacket),
        Error::Opus(ErrorCode::InvalidPacket)
    );
}

#[test]
fn complexity_message_holds_value() {
    let text = Error::InvalidComplexity(15).render();
    assert!(text.contains("15"));
    assert_eq!(text, "Invalid Complexity: 15");
}

#[test]
fn code_messages() {
    assert_eq!(
        ErrorCode::BadArgument.render(),
        "Passed argument violated Opus' specified requirements"
    );
    assert_eq!(ErrorCode::BufferTooSmall.render(), "Passed buffer was too small");
    assert_eq!(
        ErrorCode::InternalError.render(),
        "Internal error inside Opus occured"
    );
    assert_eq!(
        ErrorCode::InvalidPacket.render(),
        "Opus received a packet violating requirements"
    );
    assert_eq!(
        ErrorCode::Unimplemented.render(),
        "Unimplemented code branch was attempted to be executed"
    );
    assert_eq!(
        ErrorCode::InvalidState.render(),
        "Opus-type instance is in an invalid state"
    );
    assert_eq!(
        ErrorCode::AllocFail.render(),
        "Opus was unable to allocate memory"
    );
    assert_eq!(
        ErrorCode::Unknown.render(),
        "Opus returned a non-negative error, this might be a Audiopus or Opus bug"
    );
}

#[test]
fn error_messages() {
    assert_eq!(Error::InvalidApplication.render(), "Invalid Application");
    assert_eq!(Error::InvalidBandwidth(1105).render(), "Invalid Bandwitdh: 1105");
    assert_eq!(Error::InvalidBitrate(-100).render(), "Invalid Bitrate: -100");
    assert_eq!(Error::InvalidSignal(3003).render(), "Invalid Signal: 3003");
    assert_eq!(Error::InvalidComplexity(0).render(), "Invalid Complexity: 0");
    assert_eq!(Error::InvalidComplexity(11).render(), "Invalid Complexity: 11");
    assert_eq!(Error::InvalidSampleRate(44100).render(), "Invalid Sample Rate: 44100");
    assert_eq!(Error::InvalidChannels(-3).render(), "Invalid Channels: -3");
    assert_eq!(
        Error::Opus(ErrorCode::BufferTooSmall).render(),
        "Passed buffer was too small"
    );
    assert_eq!(
        Error::EmptyPacket.render(),
        "Passed packet contained no elements"
    );
    assert_eq!(
        Error::SignalsTooLarge.render(),
        "Signals' length exceeded `i32::MAX`"
    );
    assert_eq!(
        Error::PacketTooLarge.render(),
        "Packet's length exceeded `i32::MAX`"
    );
    assert_eq!(
        Error::MappingExpectedLen(2).render(),
        "Wrong channel length, expected: 2"
    );
}

#[test]
fn messages_at_integer_limits() {
    assert_eq!(Error::InvalidBitrate(i32::MIN).render(), "Invalid Bitrate: -2147483648");
    assert_eq!(Error::InvalidBitrate(i32::MAX).render(), "Invalid Bitrate: 2147483647");
    assert_eq!(
        Error::MappingExpectedLen(usize::MAX).render(),
        format!("Wrong channel length, expected: {}", usize::MAX)
    );
    assert_eq!(
        Error::MappingExpectedLen(0).render(),
        "Wrong channel length, expected: 0"
    );
}

#[test]
fn every_variant_renders() {
    let all = [
        Error::InvalidApplication,
        Error::InvalidBandwidth(0),
        Error::InvalidBitrate(-1),
        Error::InvalidSignal(i32::MIN),
        Error::InvalidComplexity(10),
        Error::InvalidSampleRate(0),
        Error::InvalidChannels(i32::MAX),
        Error::Opus(ErrorCode::Unknown),
        Error::EmptyPacket,
        Error::SignalsTooLarge,
        Error::PacketTooLarge,
        Error::MappingExpectedLen(usize::MAX),
    ];
    for e in all {
        assert!(!e.render().is_empty());
    }
}
