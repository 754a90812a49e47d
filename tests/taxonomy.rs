use fdk_aac::dec::{self, DecoderError, DecoderErrorCategory, DecoderErrorKind};
use fdk_aac::enc::{self, EncoderError};
use fdk_aac::sys::{Error, Param};

const ENCODER_CODES: [u32; 13] = [
    0x0000, 0x0020, 0x0021, 0x0022, 0x0023, 0x0040, 0x0041, 0x0042, 0x0043, 0x0044, 0x0045, 0x0060,
    0x0080,
];

const DECODER_CODES: [u32; 37] = [
    0x0000, 0x0002, 0x0005, 0x1000, 0x1001, 0x1002, 0x2000, 0x2001, 0x2002, 0x2003, 0x2004, 0x2005,
    0x2006, 0x2007, 0x2008, 0x2009, 0x200A, 0x200B, 0x200C, 0x4000, 0x4001, 0x4002, 0x4003, 0x4004,
    0x4005, 0x4006, 0x4007, 0x4008, 0x4009, 0x400A, 0x400B, 0x400C, 0x400D, 0x8000, 0x8001, 0x8002,
    0x8003,
];

#[test]
fn encoder_known_code_message() {
    let e = EncoderError(0x0020);
    assert_eq!(e.message(), "Handle passed to function call was invalid.");
    assert_eq!(e.kind(), Some(Error::INVALID_HANDLE));
    assert_eq!(e.code(), 0x0020);
    assert_eq!(EncoderError(0x0080).message(), "End of file reached.");
    assert_eq!(EncoderError(0x0000).message(), "Ok");
}

#[test]
fn encoder_unknown_code_falls_back() {
    for code in [0x0001u32, 0x0024, 0x1234, u32::MAX] {
        let e = EncoderError(code);
        assert_eq!(e.message(), "Unknown error");
        assert_eq!(e.kind(), None);
    }
}

#[test]
fn every_encoder_code_has_its_own_message() {
    let mut seen: Vec<&str> = Vec::new();
    for code in ENCODER_CODES {
        let m = EncoderError(code).message();
        assert!(!m.is_empty());
        assert_ne!(m, "Unknown error");
        assert!(!seen.contains(&m));
        seen.push(m);
        let kind = Error::from_code(code).unwrap();
        assert_eq!(kind.code(), code);
    }
}

#[test]
fn decoder_known_code_message() {
    let e = DecoderError(0x1002);
    assert_eq!(e.message(), "The input buffer ran out of bits.");
    assert_eq!(e.kind(), Some(DecoderErrorKind::NotEnoughBits));
    assert_eq!(
        DecoderError::from_kind(DecoderErrorKind::OutputBufferTooSmall).message(),
        "The provided output buffer is too small."
    );
}

#[test]
fn decoder_unknown_code_falls_back() {
    for code in [0x0001u32, 0x1003, 0x200D, 0x9000, u32::MAX] {
        let e = DecoderError(code);
        assert_eq!(e.message(), "Unknown error");
        assert_eq!(e.kind(), None);
    }
}

#[test]
fn every_decoder_code_has_its_own_message() {
    let mut seen: Vec<&str> = Vec::new();
    for code in DECODER_CODES {
        let m = DecoderError(code).message();
        assert!(!m.is_empty());
        assert_ne!(m, "Unknown error");
        assert!(!seen.contains(&m));
        seen.push(m);
        assert_eq!(DecoderErrorKind::from_code(code).unwrap().code(), code);
    }
}

#[test]
fn decoder_categories_and_retry() {
    assert_eq!(DecoderError(0x1002).category(), DecoderErrorCategory::Sync);
    assert!(DecoderError(0x1001).is_retryable());
    assert!(DecoderError(0x1002).is_retryable());
    assert_eq!(DecoderError(0x2001).category(), DecoderErrorCategory::Init);
    assert!(!DecoderError(0x2001).is_retryable());
    assert_eq!(DecoderError(0x4005).category(), DecoderErrorCategory::Decode);
    assert_eq!(DecoderError(0x8002).category(), DecoderErrorCategory::AncillaryData);
    assert_eq!(DecoderError(0x0002).category(), DecoderErrorCategory::General);
    assert_eq!(DecoderError(0x3000).category(), DecoderErrorCategory::Other);
}

#[test]
fn check_maps_status() {
    assert_eq!(enc::check(0), Ok(()));
    assert_eq!(enc::check(0x0060), Err(EncoderError(0x0060)));
    assert_eq!(dec::check(0), Ok(()));
    assert_eq!(dec::check(0x1002), Err(DecoderError(0x1002)));
}

#[test]
fn parameter_identifiers_keep_engine_values() {
    assert_eq!(Param::AOT.code(), 0x0100);
    assert_eq!(Param::BITRATE.code(), 0x0101);
    assert_eq!(Param::BITRATEMODE.code(), 0x0102);
    assert_eq!(Param::SAMPLERATE.code(), 0x0103);
    assert_eq!(Param::SBR_MODE.code(), 0x0104);
    assert_eq!(Param::CHANNELMODE.code(), 0x0106);
    assert_eq!(Param::TRANSMUX.code(), 0x0300);
    assert_eq!(Param::NONE.code(), 0xFFFF);
    assert_eq!(Error::ENCODE_ERROR.code(), 0x0060);
    assert_eq!(Error::from_code(0x0061), None);
}
