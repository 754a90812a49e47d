//! Decoder side: status taxonomy, session lifecycle, and the fill/decode
//! cycle of compressed input and decoded frames.
use vstd::prelude::*;
use crate::sys::{AAC_PCM_MAX_OUTPUT_CHANNELS, AAC_PCM_MIN_OUTPUT_CHANNELS, TT_MP4_ADTS, TT_MP4_RAW};

verus! {

/// The documented decoder statuses. The `...Start` entries open the ranges
/// of the sync, init, decode and ancillary-data categories.
#[derive(PartialEq, Eq, Structural, Copy, Clone, Debug)]
pub enum DecoderErrorKind {
    NoError,
    OutOfMemory,
    Unknown,
    SyncErrorStart,
    TransportSyncError,
    NotEnoughBits,
    InitErrorStart,
    InvalidHandle,
    UnsupportedAot,
    UnsupportedFormat,
    UnsupportedErFormat,
    UnsupportedEpconfig,
    UnsupportedMultilayer,
    UnsupportedChannelconfig,
    UnsupportedSamplingrate,
    InvalidSbrConfig,
    SetParamFail,
    NeedToRestart,
    OutputBufferTooSmall,
    DecodeErrorStart,
    TransportError,
    ParseError,
    UnsupportedExtensionPayload,
    DecodeFrameError,
    CrcError,
    InvalidCodeBook,
    UnsupportedPrediction,
    UnsupportedCce,
    UnsupportedLfe,
    UnsupportedGainControlData,
    UnsupportedSba,
    TnsReadError,
    RvlcError,
    AncDataErrorStart,
    AncDataError,
    TooSmallAncBuffer,
    TooManyAncElements,
}

impl DecoderErrorKind {
    /// The engine's numeric value of this status.
    pub open spec fn spec_code(self) -> u32 {
        match self {
            DecoderErrorKind::NoError => 0x0000,
            DecoderErrorKind::OutOfMemory => 0x0002,
            DecoderErrorKind::Unknown => 0x0005,
            DecoderErrorKind::SyncErrorStart => 0x1000,
            DecoderErrorKind::TransportSyncError => 0x1001,
            DecoderErrorKind::NotEnoughBits => 0x1002,
            DecoderErrorKind::InitErrorStart => 0x2000,
            DecoderErrorKind::InvalidHandle => 0x2001,
            DecoderErrorKind::UnsupportedAot => 0x2002,
            DecoderErrorKind::UnsupportedFormat => 0x2003,
            DecoderErrorKind::UnsupportedErFormat => 0x2004,
            DecoderErrorKind::UnsupportedEpconfig => 0x2005,
            DecoderErrorKind::UnsupportedMultilayer => 0x2006,
            DecoderErrorKind::UnsupportedChannelconfig => 0x2007,
            DecoderErrorKind::UnsupportedSamplingrate => 0x2008,
            DecoderErrorKind::InvalidSbrConfig => 0x2009,
            DecoderErrorKind::SetParamFail => 0x200A,
            DecoderErrorKind::NeedToRestart => 0x200B,
            DecoderErrorKind::OutputBufferTooSmall => 0x200C,
            DecoderErrorKind::DecodeErrorStart => 0x4000,
            DecoderErrorKind::TransportError => 0x4001,
            DecoderErrorKind::ParseError => 0x4002,
            DecoderErrorKind::UnsupportedExtensionPayload => 0x4003,
            DecoderErrorKind::DecodeFrameError => 0x4004,
            DecoderErrorKind::CrcError => 0x4005,
            DecoderErrorKind::InvalidCodeBook => 0x4006,
            DecoderErrorKind::UnsupportedPrediction => 0x4007,
            DecoderErrorKind::UnsupportedCce => 0x4008,
            DecoderErrorKind::UnsupportedLfe => 0x4009,
            DecoderErrorKind::UnsupportedGainControlData => 0x400A,
            DecoderErrorKind::UnsupportedSba => 0x400B,
            DecoderErrorKind::TnsReadError => 0x400C,
            DecoderErrorKind::RvlcError => 0x400D,
            DecoderErrorKind::AncDataErrorStart => 0x8000,
            DecoderErrorKind::AncDataError => 0x8001,
            DecoderErrorKind::TooSmallAncBuffer => 0x8002,
            DecoderErrorKind::TooManyAncElements => 0x8003,
        }
    }

    pub fn code(&self) -> (r: u32)
        ensures
            r == self.spec_code(),
    {
        match self {
            DecoderErrorKind::NoError => 0x0000,
            DecoderErrorKind::OutOfMemory => 0x0002,
            DecoderErrorKind::Unknown => 0x0005,
            DecoderErrorKind::SyncErrorStart => 0x1000,
            DecoderErrorKind::TransportSyncError => 0x1001,
            DecoderErrorKind::NotEnoughBits => 0x1002,
            DecoderErrorKind::InitErrorStart => 0x2000,
            DecoderErrorKind::InvalidHandle => 0x2001,
            DecoderErrorKind::UnsupportedAot => 0x2002,
            DecoderErrorKind::UnsupportedFormat => 0x2003,
            DecoderErrorKind::UnsupportedErFormat => 0x2004,
            DecoderErrorKind::UnsupportedEpconfig => 0x2005,
            DecoderErrorKind::UnsupportedMultilayer => 0x2006,
            DecoderErrorKind::UnsupportedChannelconfig => 0x2007,
            DecoderErrorKind::UnsupportedSamplingrate => 0x2008,
            DecoderErrorKind::InvalidSbrConfig => 0x2009,
            DecoderErrorKind::SetParamFail => 0x200A,
            DecoderErrorKind::NeedToRestart => 0x200B,
            DecoderErrorKind::OutputBufferTooSmall => 0x200C,
            DecoderErrorKind::DecodeErrorStart => 0x4000,
            DecoderErrorKind::TransportError => 0x4001,
            DecoderErrorKind::ParseError => 0x4002,
            DecoderErrorKind::UnsupportedExtensionPayload => 0x4003,
            DecoderErrorKind::DecodeFrameError => 0x4004,
            DecoderErrorKind::CrcError => 0x4005,
            DecoderErrorKind::InvalidCodeBook => 0x4006,
            DecoderErrorKind::UnsupportedPrediction => 0x4007,
            DecoderErrorKind::UnsupportedCce => 0x4008,
            DecoderErrorKind::UnsupportedLfe => 0x4009,
            DecoderErrorKind::UnsupportedGainControlData => 0x400A,
            DecoderErrorKind::UnsupportedSba => 0x400B,
            DecoderErrorKind::TnsReadError => 0x400C,
            DecoderErrorKind::RvlcError => 0x400D,
            DecoderErrorKind::AncDataErrorStart => 0x8000,
            DecoderErrorKind::AncDataError => 0x8001,
            DecoderErrorKind::TooSmallAncBuffer => 0x8002,
            DecoderErrorKind::TooManyAncElements => 0x8003,
        }
    }

    /// The documented status whose numeric value is `c`, if any.
    pub open spec fn spec_from_code(c: u32) -> Option<DecoderErrorKind> {
        if c == 0x0000 {
            Some(DecoderErrorKind::NoError)
        }         else if c == 0x0002 {
            Some(DecoderErrorKind::OutOfMemory)
        }         else if c == 0x0005 {
            Some(DecoderErrorKind::Unknown)
        }         else if c == 0x1000 {
            Some(DecoderErrorKind::SyncErrorStart)
        }         else if c == 0x1001 {
            Some(DecoderErrorKind::TransportSyncError)
        }         else if c == 0x1002 {
            Some(DecoderErrorKind::NotEnoughBits)
        }         else if c == 0x2000 {
            Some(DecoderErrorKind::InitErrorStart)
        }         else if c == 0x2001 {
            Some(DecoderErrorKind::InvalidHandle)
        }         else if c == 0x2002 {
            Some(DecoderErrorKind::UnsupportedAot)
        }         else if c == 0x2003 {
            Some(DecoderErrorKind::UnsupportedFormat)
        }         else if c == 0x2004 {
            Some(DecoderErrorKind::UnsupportedErFormat)
        }         else if c == 0x2005 {
            Some(DecoderErrorKind::UnsupportedEpconfig)
        }         else if c == 0x2006 {
            Some(DecoderErrorKind::UnsupportedMultilayer)
        }         else if c == 0x2007 {
            Some(DecoderErrorKind::UnsupportedChannelconfig)
        }         else if c == 0x2008 {
            Some(DecoderErrorKind::UnsupportedSamplingrate)
        }         else if c == 0x2009 {
            Some(DecoderErrorKind::InvalidSbrConfig)
        }         else if c == 0x200A {
            Some(DecoderErrorKind::SetParamFail)
        }         else if c == 0x200B {
            Some(DecoderErrorKind::NeedToRestart)
        }         else if c == 0x200C {
            Some(DecoderErrorKind::OutputBufferTooSmall)
        }         else if c == 0x4000 {
            Some(DecoderErrorKind::DecodeErrorStart)
        }         else if c == 0x4001 {
            Some(DecoderErrorKind::TransportError)
        }         else if c == 0x4002 {
            Some(DecoderErrorKind::ParseError)
        }         else if c == 0x4003 {
            Some(DecoderErrorKind::UnsupportedExtensionPayload)
        }         else if c == 0x4004 {
            Some(DecoderErrorKind::DecodeFrameError)
        }         else if c == 0x4005 {
            Some(DecoderErrorKind::CrcError)
        }         else if c == 0x4006 {
            Some(DecoderErrorKind::InvalidCodeBook)
        }         else if c == 0x4007 {
            Some(DecoderErrorKind::UnsupportedPrediction)
        }         else if c == 0x4008 {
            Some(DecoderErrorKind::UnsupportedCce)
        }         else if c == 0x4009 {
            Some(DecoderErrorKind::UnsupportedLfe)
        }         else if c == 0x400A {
            Some(DecoderErrorKind::UnsupportedGainControlData)
        }         else if c == 0x400B {
            Some(DecoderErrorKind::UnsupportedSba)
        }         else if c == 0x400C {
            Some(DecoderErrorKind::TnsReadError)
        }         else if c == 0x400D {
            Some(DecoderErrorKind::RvlcError)
        }         else if c == 0x8000 {
            Some(DecoderErrorKind::AncDataErrorStart)
        }         else if c == 0x8001 {
            Some(DecoderErrorKind::AncDataError)
        }         else if c == 0x8002 {
            Some(DecoderErrorKind::TooSmallAncBuffer)
        }         else if c == 0x8003 {
            Some(DecoderErrorKind::TooManyAncElements)
        } else {
            None
        }
    }

    pub fn from_code(c: u32) -> (r: Option<DecoderErrorKind>)
        ensures
            r == DecoderErrorKind::spec_from_code(c),
    {
        if c == 0x0000 {
            Some(DecoderErrorKind::NoError)
        }         else if c == 0x0002 {
            Some(DecoderErrorKind::OutOfMemory)
        }         else if c == 0x0005 {
            Some(DecoderErrorKind::Unknown)
        }         else if c == 0x1000 {
            Some(DecoderErrorKind::SyncErrorStart)
        }         else if c == 0x1001 {
            Some(DecoderErrorKind::TransportSyncError)
        }         else if c == 0x1002 {
            Some(DecoderErrorKind::NotEnoughBits)
        }         else if c == 0x2000 {
            Some(DecoderErrorKind::InitErrorStart)
        }         else if c == 0x2001 {
            Some(DecoderErrorKind::InvalidHandle)
        }         else if c == 0x2002 {
            Some(DecoderErrorKind::UnsupportedAot)
        }         else if c == 0x2003 {
            Some(DecoderErrorKind::UnsupportedFormat)
        }         else if c == 0x2004 {
            Some(DecoderErrorKind::UnsupportedErFormat)
        }         else if c == 0x2005 {
            Some(DecoderErrorKind::UnsupportedEpconfig)
        }         else if c == 0x2006 {
            Some(DecoderErrorKind::UnsupportedMultilayer)
        }         else if c == 0x2007 {
            Some(DecoderErrorKind::UnsupportedChannelconfig)
        }         else if c == 0x2008 {
            Some(DecoderErrorKind::UnsupportedSamplingrate)
        }         else if c == 0x2009 {
            Some(DecoderErrorKind::InvalidSbrConfig)
        }         else if c == 0x200A {
            Some(DecoderErrorKind::SetParamFail)
        }         else if c == 0x200B {
            Some(DecoderErrorKind::NeedToRestart)
        }         else if c == 0x200C {
            Some(DecoderErrorKind::OutputBufferTooSmall)
        }         else if c == 0x4000 {
            Some(DecoderErrorKind::DecodeErrorStart)
        }         else if c == 0x4001 {
            Some(DecoderErrorKind::TransportError)
        }         else if c == 0x4002 {
            Some(DecoderErrorKind::ParseError)
        }         else if c == 0x4003 {
            Some(DecoderErrorKind::UnsupportedExtensionPayload)
        }         else if c == 0x4004 {
            Some(DecoderErrorKind::DecodeFrameError)
        }         else if c == 0x4005 {
            Some(DecoderErrorKind::CrcError)
        }         else if c == 0x4006 {
            Some(DecoderErrorKind::InvalidCodeBook)
        }         else if c == 0x4007 {
            Some(DecoderErrorKind::UnsupportedPrediction)
        }         else if c == 0x4008 {
            Some(DecoderErrorKind::UnsupportedCce)
        }         else if c == 0x4009 {
            Some(DecoderErrorKind::UnsupportedLfe)
        }         else if c == 0x400A {
            Some(DecoderErrorKind::UnsupportedGainControlData)
        }         else if c == 0x400B {
            Some(DecoderErrorKind::UnsupportedSba)
        }         else if c == 0x400C {
            Some(DecoderErrorKind::TnsReadError)
        }         else if c == 0x400D {
            Some(DecoderErrorKind::RvlcError)
        }         else if c == 0x8000 {
            Some(DecoderErrorKind::AncDataErrorStart)
        }         else if c == 0x8001 {
            Some(DecoderErrorKind::AncDataError)
        }         else if c == 0x8002 {
            Some(DecoderErrorKind::TooSmallAncBuffer)
        }         else if c == 0x8003 {
            Some(DecoderErrorKind::TooManyAncElements)
        } else {
            None
        }
    }
}

/// The fixed diagnostic text of a documented decoder status.
pub open spec fn decoder_kind_message(k: DecoderErrorKind) -> Seq<char> {
    match k {
        DecoderErrorKind::NoError => "No error occurred. Output buffer is valid and error free."@,
        DecoderErrorKind::OutOfMemory => "Heap returned NULL pointer. Output buffer is invalid."@,
        DecoderErrorKind::Unknown => "Error condition is of unknown reason, or from a another module. Output buffer is invalid."@,
        DecoderErrorKind::SyncErrorStart => "Synchronization errors. Output buffer is invalid."@,
        DecoderErrorKind::TransportSyncError => "The transport decoder had synchronization problems. Do not exit decoding. Just feed new bitstream data."@,
        DecoderErrorKind::NotEnoughBits => "The input buffer ran out of bits."@,
        DecoderErrorKind::InitErrorStart => "Initialization errors. Output buffer is invalid."@,
        DecoderErrorKind::InvalidHandle => "The handle passed to the function call was invalid (NULL)."@,
        DecoderErrorKind::UnsupportedAot => "The AOT found in the configuration is not supported."@,
        DecoderErrorKind::UnsupportedFormat => "The bitstream format is not supported. "@,
        DecoderErrorKind::UnsupportedErFormat => "The error resilience tool format is not supported."@,
        DecoderErrorKind::UnsupportedEpconfig => "The error protection format is not supported."@,
        DecoderErrorKind::UnsupportedMultilayer => "More than one layer for AAC scalable is not supported."@,
        DecoderErrorKind::UnsupportedChannelconfig => "The channel configuration (either number or arrangement) is not supported."@,
        DecoderErrorKind::UnsupportedSamplingrate => "The sample rate specified in the configuration is not supported."@,
        DecoderErrorKind::InvalidSbrConfig => "The SBR configuration is not supported."@,
        DecoderErrorKind::SetParamFail => "The parameter could not be set. Either the value was out of range or the parameter does  not exist."@,
        DecoderErrorKind::NeedToRestart => "The decoder needs to be restarted, since the required configuration change cannot be performed."@,
        DecoderErrorKind::OutputBufferTooSmall => "The provided output buffer is too small."@,
        DecoderErrorKind::DecodeErrorStart => "Decode errors. Output buffer is valid but concealed."@,
        DecoderErrorKind::TransportError => "The transport decoder encountered an unexpected error."@,
        DecoderErrorKind::ParseError => "Error while parsing the bitstream. Most probably it is corrupted, or the system crashed."@,
        DecoderErrorKind::UnsupportedExtensionPayload => "Error while parsing the extension payload of the bitstream. The extension payload type found is not supported."@,
        DecoderErrorKind::DecodeFrameError => "The parsed bitstream value is out of range. Most probably the bitstream is corrupt, or the system crashed."@,
        DecoderErrorKind::CrcError => "The embedded CRC did not match."@,
        DecoderErrorKind::InvalidCodeBook => "An invalid codebook was signaled. Most probably the bitstream is corrupt, or the system  crashed."@,
        DecoderErrorKind::UnsupportedPrediction => "Predictor found, but not supported in the AAC Low Complexity profile. Most probably the bitstream is corrupt, or has a wrong format."@,
        DecoderErrorKind::UnsupportedCce => "A CCE element was found which is not supported. Most probably the bitstream is corrupt, or has a wrong format."@,
        DecoderErrorKind::UnsupportedLfe => "A LFE element was found which is not supported. Most probably the bitstream is corrupt, or has a wrong format."@,
        DecoderErrorKind::UnsupportedGainControlData => "Gain control data found but not supported. Most probably the bitstream is corrupt, or has a wrong format."@,
        DecoderErrorKind::UnsupportedSba => "SBA found, but currently not supported in the BSAC profile."@,
        DecoderErrorKind::TnsReadError => "Error while reading TNS data. Most probably the bitstream is corrupt or the system crashed."@,
        DecoderErrorKind::RvlcError => "Error while decoding error resilient data."@,
        DecoderErrorKind::AncDataErrorStart => "Ancillary data errors. Output buffer is valid."@,
        DecoderErrorKind::AncDataError => "Non severe error concerning the ancillary data handling."@,
        DecoderErrorKind::TooSmallAncBuffer => "The registered ancillary data buffer is too small to receive the parsed data."@,
        DecoderErrorKind::TooManyAncElements => "More than the allowed number of ancillary data elements should be written to buffer."@,
    }
}

/// The diagnostic text of any numeric decoder status.
pub open spec fn decoder_message(code: u32) -> Seq<char> {
    match DecoderErrorKind::spec_from_code(code) {
        Some(k) => decoder_kind_message(k),
        None => "Unknown error"@,
    }
}

fn decoder_kind_message_str(k: DecoderErrorKind) -> (r: &'static str)
    ensures
        r@ == decoder_kind_message(k),
{
    match k {
        DecoderErrorKind::NoError => "No error occurred. Output buffer is valid and error free.",
        DecoderErrorKind::OutOfMemory => "Heap returned NULL pointer. Output buffer is invalid.",
        DecoderErrorKind::Unknown => "Error condition is of unknown reason, or from a another module. Output buffer is invalid.",
        DecoderErrorKind::SyncErrorStart => "Synchronization errors. Output buffer is invalid.",
        DecoderErrorKind::TransportSyncError => "The transport decoder had synchronization problems. Do not exit decoding. Just feed new bitstream data.",
        DecoderErrorKind::NotEnoughBits => "The input buffer ran out of bits.",
        DecoderErrorKind::InitErrorStart => "Initialization errors. Output buffer is invalid.",
        DecoderErrorKind::InvalidHandle => "The handle passed to the function call was invalid (NULL).",
        DecoderErrorKind::UnsupportedAot => "The AOT found in the configuration is not supported.",
        DecoderErrorKind::UnsupportedFormat => "The bitstream format is not supported. ",
        DecoderErrorKind::UnsupportedErFormat => "The error resilience tool format is not supported.",
        DecoderErrorKind::UnsupportedEpconfig => "The error protection format is not supported.",
        DecoderErrorKind::UnsupportedMultilayer => "More than one layer for AAC scalable is not supported.",
        DecoderErrorKind::UnsupportedChannelconfig => "The channel configuration (either number or arrangement) is not supported.",
        DecoderErrorKind::UnsupportedSamplingrate => "The sample rate specified in the configuration is not supported.",
        DecoderErrorKind::InvalidSbrConfig => "The SBR configuration is not supported.",
        DecoderErrorKind::SetParamFail => "The parameter could not be set. Either the value was out of range or the parameter does  not exist.",
        DecoderErrorKind::NeedToRestart => "The decoder needs to be restarted, since the required configuration change cannot be performed.",
        DecoderErrorKind::OutputBufferTooSmall => "The provided output buffer is too small.",
        DecoderErrorKind::DecodeErrorStart => "Decode errors. Output buffer is valid but concealed.",
        DecoderErrorKind::TransportError => "The transport decoder encountered an unexpected error.",
        DecoderErrorKind::ParseError => "Error while parsing the bitstream. Most probably it is corrupted, or the system crashed.",
        DecoderErrorKind::UnsupportedExtensionPayload => "Error while parsing the extension payload of the bitstream. The extension payload type found is not supported.",
        DecoderErrorKind::DecodeFrameError => "The parsed bitstream value is out of range. Most probably the bitstream is corrupt, or the system crashed.",
        DecoderErrorKind::CrcError => "The embedded CRC did not match.",
        DecoderErrorKind::InvalidCodeBook => "An invalid codebook was signaled. Most probably the bitstream is corrupt, or the system  crashed.",
        DecoderErrorKind::UnsupportedPrediction => "Predictor found, but not supported in the AAC Low Complexity profile. Most probably the bitstream is corrupt, or has a wrong format.",
        DecoderErrorKind::UnsupportedCce => "A CCE element was found which is not supported. Most probably the bitstream is corrupt, or has a wrong format.",
        DecoderErrorKind::UnsupportedLfe => "A LFE element was found which is not supported. Most probably the bitstream is corrupt, or has a wrong format.",
        DecoderErrorKind::UnsupportedGainControlData => "Gain control data found but not supported. Most probably the bitstream is corrupt, or has a wrong format.",
        DecoderErrorKind::UnsupportedSba => "SBA found, but currently not supported in the BSAC profile.",
        DecoderErrorKind::TnsReadError => "Error while reading TNS data. Most probably the bitstream is corrupt or the system crashed.",
        DecoderErrorKind::RvlcError => "Error while decoding error resilient data.",
        DecoderErrorKind::AncDataErrorStart => "Ancillary data errors. Output buffer is valid.",
        DecoderErrorKind::AncDataError => "Non severe error concerning the ancillary data handling.",
        DecoderErrorKind::TooSmallAncBuffer => "The registered ancillary data buffer is too small to receive the parsed data.",
        DecoderErrorKind::TooManyAncElements => "More than the allowed number of ancillary data elements should be written to buffer.",
    }
}

/// The broad class of a decoder status, by the range its code lies in.
#[derive(PartialEq, Eq, Structural, Copy, Clone, Debug)]
pub enum DecoderErrorCategory {
    /// Success, and the general statuses below the sync range.
    General,
    /// Synchronisation: supply more data and retry.
    Sync,
    /// Initialisation: the session cannot go on as configured.
    Init,
    /// Decoding: the frame was concealed.
    Decode,
    /// Ancillary data handling.
    AncillaryData,
    /// A code outside every documented range.
    Other,
}

pub open spec fn category_of(code: u32) -> DecoderErrorCategory {
    if code < 0x1000 {
        DecoderErrorCategory::General
    } else if code <= 0x1FFF {
        DecoderErrorCategory::Sync
    } else if 0x2000 <= code <= 0x2FFF {
        DecoderErrorCategory::Init
    } else if 0x4000 <= code <= 0x4FFF {
        DecoderErrorCategory::Decode
    } else if 0x8000 <= code <= 0x8FFF {
        DecoderErrorCategory::AncillaryData
    } else {
        DecoderErrorCategory::Other
    }
}

/// A decoder status other than success, with its numeric code.
#[derive(PartialEq, Eq, Structural, Copy, Clone, Debug)]
pub struct DecoderError(pub u32);

impl DecoderError {
    /// The error of a documented status.
    pub fn from_kind(k: DecoderErrorKind) -> (r: DecoderError)
        ensures
            r.0 == k.spec_code(),
    {
        DecoderError(k.code())
    }

    /// The engine's numeric status.
    pub fn code(&self) -> (r: u32)
        ensures
            r == self.0,
    {
        self.0
    }

    /// The documented status this code stands for, if any.
    pub fn kind(&self) -> (r: Option<DecoderErrorKind>)
        ensures
            r == DecoderErrorKind::spec_from_code(self.0),
    {
        DecoderErrorKind::from_code(self.0)
    }

    /// Fixed diagnostic text; total over all codes.
    pub fn message(&self) -> (r: &'static str)
        ensures
            r@ == decoder_message(self.0),
    {
        match DecoderErrorKind::from_code(self.0) {
            Some(k) => decoder_kind_message_str(k),
            None => "Unknown error",
        }
    }

    pub fn category(&self) -> (r: DecoderErrorCategory)
        ensures
            r == category_of(self.0),
    {
        let c = self.0;
        if c < 0x1000 {
            DecoderErrorCategory::General
        } else if c <= 0x1FFF {
            DecoderErrorCategory::Sync
        } else if 0x2000 <= c && c <= 0x2FFF {
            DecoderErrorCategory::Init
        } else if 0x4000 <= c && c <= 0x4FFF {
            DecoderErrorCategory::Decode
        } else if 0x8000 <= c && c <= 0x8FFF {
            DecoderErrorCategory::AncillaryData
        } else {
            DecoderErrorCategory::Other
        }
    }

    /// Whether the caller should supply more data and try again, rather
    /// than end the session: the sync statuses, such as running out of bits.
    pub fn is_retryable(&self) -> (r: bool)
        ensures
            r == (category_of(self.0) == DecoderErrorCategory::Sync),
    {
        0x1000 <= self.0 && self.0 <= 0x1FFF
    }
}

/// Success or the typed error of a raw decoder status.
pub fn check(e: u32) -> (r: Result<(), DecoderError>)
    ensures
        e == 0 ==> r == Ok::<(), DecoderError>(()),
        e != 0 ==> r == Err::<(), DecoderError>(DecoderError(e)),
{
    if e == 0 {
        Ok(())
    } else {
        Err(DecoderError(e))
    }
}

/// Every status has a non-empty message; a documented one has its own
/// table entry, distinct from the fallback, and any other has the fallback.
pub proof fn lemma_decoder_message_total(code: u32)
    ensures
        decoder_message(code).len() > 0,
        DecoderErrorKind::spec_from_code(code) matches Some(k) ==> decoder_message(code)
            == decoder_kind_message(k) && decoder_message(code) != "Unknown error"@,
        DecoderErrorKind::spec_from_code(code) is None ==> decoder_message(code) == "Unknown error"@,
{
    reveal_strlit("Unknown error");
    reveal_strlit("No error occurred. Output buffer is valid and error free.");
    reveal_strlit("Heap returned NULL pointer. Output buffer is invalid.");
    reveal_strlit("Error condition is of unknown reason, or from a another module. Output buffer is invalid.");
    reveal_strlit("Synchronization errors. Output buffer is invalid.");
    reveal_strlit("The transport decoder had synchronization problems. Do not exit decoding. Just feed new bitstream data.");
    reveal_strlit("The input buffer ran out of bits.");
    reveal_strlit("Initialization errors. Output buffer is invalid.");
    reveal_strlit("The handle passed to the function call was invalid (NULL).");
    reveal_strlit("The AOT found in the configuration is not supported.");
    reveal_strlit("The bitstream format is not supported. ");
    reveal_strlit("The error resilience tool format is not supported.");
    reveal_strlit("The error protection format is not supported.");
    reveal_strlit("More than one layer for AAC scalable is not supported.");
    reveal_strlit("The channel configuration (either number or arrangement) is not supported.");
    reveal_strlit("The sample rate specified in the configuration is not supported.");
    reveal_strlit("The SBR configuration is not supported.");
    reveal_strlit("The parameter could not be set. Either the value was out of range or the parameter does  not exist.");
    reveal_strlit("The decoder needs to be restarted, since the required configuration change cannot be performed.");
    reveal_strlit("The provided output buffer is too small.");
    reveal_strlit("Decode errors. Output buffer is valid but concealed.");
    reveal_strlit("The transport decoder encountered an unexpected error.");
    reveal_strlit("Error while parsing the bitstream. Most probably it is corrupted, or the system crashed.");
    reveal_strlit("Error while parsing the extension payload of the bitstream. The extension payload type found is not supported.");
    reveal_strlit("The parsed bitstream value is out of range. Most probably the bitstream is corrupt, or the system crashed.");
    reveal_strlit("The embedded CRC did not match.");
    reveal_strlit("An invalid codebook was signaled. Most probably the bitstream is corrupt, or the system  crashed.");
    reveal_strlit("Predictor found, but not supported in the AAC Low Complexity profile. Most probably the bitstream is corrupt, or has a wrong format.");
    reveal_strlit("A CCE element was found which is not supported. Most probably the bitstream is corrupt, or has a wrong format.");
    reveal_strlit("A LFE element was found which is not supported. Most probably the bitstream is corrupt, or has a wrong format.");
    reveal_strlit("Gain control data found but not supported. Most probably the bitstream is corrupt, or has a wrong format.");
    reveal_strlit("SBA found, but currently not supported in the BSAC profile.");
    reveal_strlit("Error while reading TNS data. Most probably the bitstream is corrupt or the system crashed.");
    reveal_strlit("Error while decoding error resilient data.");
    reveal_strlit("Ancillary data errors. Output buffer is valid.");
    reveal_strlit("Non severe error concerning the ancillary data handling.");
    reveal_strlit("The registered ancillary data buffer is too small to receive the parsed data.");
    reveal_strlit("More than the allowed number of ancillary data elements should be written to buffer.");
    if let Some(k) = DecoderErrorKind::spec_from_code(code) {
        assert(decoder_kind_message(k).len() != "Unknown error"@.len()) by {
            match k {
                DecoderErrorKind::NoError => {},
                DecoderErrorKind::OutOfMemory => {},
                DecoderErrorKind::Unknown => {},
                DecoderErrorKind::SyncErrorStart => {},
                DecoderErrorKind::TransportSyncError => {},
                DecoderErrorKind::NotEnoughBits => {},
                DecoderErrorKind::InitErrorStart => {},
                DecoderErrorKind::InvalidHandle => {},
                DecoderErrorKind::UnsupportedAot => {},
                DecoderErrorKind::UnsupportedFormat => {},
                DecoderErrorKind::UnsupportedErFormat => {},
                DecoderErrorKind::UnsupportedEpconfig => {},
                DecoderErrorKind::UnsupportedMultilayer => {},
                DecoderErrorKind::UnsupportedChannelconfig => {},
                DecoderErrorKind::UnsupportedSamplingrate => {},
                DecoderErrorKind::InvalidSbrConfig => {},
                DecoderErrorKind::SetParamFail => {},
                DecoderErrorKind::NeedToRestart => {},
                DecoderErrorKind::OutputBufferTooSmall => {},
                DecoderErrorKind::DecodeErrorStart => {},
                DecoderErrorKind::TransportError => {},
                DecoderErrorKind::ParseError => {},
                DecoderErrorKind::UnsupportedExtensionPayload => {},
                DecoderErrorKind::DecodeFrameError => {},
                DecoderErrorKind::CrcError => {},
                DecoderErrorKind::InvalidCodeBook => {},
                DecoderErrorKind::UnsupportedPrediction => {},
                DecoderErrorKind::UnsupportedCce => {},
                DecoderErrorKind::UnsupportedLfe => {},
                DecoderErrorKind::UnsupportedGainControlData => {},
                DecoderErrorKind::UnsupportedSba => {},
                DecoderErrorKind::TnsReadError => {},
                DecoderErrorKind::RvlcError => {},
                DecoderErrorKind::AncDataErrorStart => {},
                DecoderErrorKind::AncDataError => {},
                DecoderErrorKind::TooSmallAncBuffer => {},
                DecoderErrorKind::TooManyAncElements => {},
            }
        }
    }
}

/// Length and the third and fifth characters of a message: enough to tell
/// the documented decoder statuses' messages apart.
pub open spec fn decoder_message_key(m: Seq<char>) -> (int, char, char) {
    (m.len() as int, m[2], m[4])
}

/// The documented decoder status whose message has key `k`.
pub open spec fn decoder_kind_of_key(k: (int, char, char)) -> DecoderErrorKind {
    if k == (57int, ' ', 'r') {
        DecoderErrorKind::NoError
    } else if k == (53int, 'a', ' ') {
        DecoderErrorKind::OutOfMemory
    } else if k == (89int, 'r', 'r') {
        DecoderErrorKind::Unknown
    } else if k == (49int, 'n', 'h') {
        DecoderErrorKind::SyncErrorStart
    } else if k == (103int, 'e', 't') {
        DecoderErrorKind::TransportSyncError
    } else if k == (33int, 'e', 'i') {
        DecoderErrorKind::NotEnoughBits
    } else if k == (48int, 'i', 'i') {
        DecoderErrorKind::InitErrorStart
    } else if k == (58int, 'e', 'h') {
        DecoderErrorKind::InvalidHandle
    } else if k == (52int, 'e', 'A') {
        DecoderErrorKind::UnsupportedAot
    } else if k == (39int, 'e', 'b') {
        DecoderErrorKind::UnsupportedFormat
    } else if k == (50int, 'e', 'e') {
        DecoderErrorKind::UnsupportedErFormat
    } else if k == (45int, 'e', 'e') {
        DecoderErrorKind::UnsupportedEpconfig
    } else if k == (54int, 'r', ' ') {
        DecoderErrorKind::UnsupportedMultilayer
    } else if k == (74int, 'e', 'c') {
        DecoderErrorKind::UnsupportedChannelconfig
    } else if k == (64int, 'e', 's') {
        DecoderErrorKind::UnsupportedSamplingrate
    } else if k == (39int, 'e', 'S') {
        DecoderErrorKind::InvalidSbrConfig
    } else if k == (99int, 'e', 'p') {
        DecoderErrorKind::SetParamFail
    } else if k == (95int, 'e', 'd') {
        DecoderErrorKind::NeedToRestart
    } else if k == (40int, 'e', 'p') {
        DecoderErrorKind::OutputBufferTooSmall
    } else if k == (52int, 'c', 'd') {
        DecoderErrorKind::DecodeErrorStart
    } else if k == (54int, 'e', 't') {
        DecoderErrorKind::TransportError
    } else if k == (88int, 'r', 'r') {
        DecoderErrorKind::ParseError
    } else if k == (110int, 'r', 'r') {
        DecoderErrorKind::UnsupportedExtensionPayload
    } else if k == (106int, 'e', 'p') {
        DecoderErrorKind::DecodeFrameError
    } else if k == (31int, 'e', 'e') {
        DecoderErrorKind::CrcError
    } else if k == (97int, ' ', 'n') {
        DecoderErrorKind::InvalidCodeBook
    } else if k == (132int, 'e', 'i') {
        DecoderErrorKind::UnsupportedPrediction
    } else if k == (110int, 'C', 'E') {
        DecoderErrorKind::UnsupportedCce
    } else if k == (110int, 'L', 'E') {
        DecoderErrorKind::UnsupportedLfe
    } else if k == (105int, 'i', ' ') {
        DecoderErrorKind::UnsupportedGainControlData
    } else if k == (59int, 'A', 'f') {
        DecoderErrorKind::UnsupportedSba
    } else if k == (91int, 'r', 'r') {
        DecoderErrorKind::TnsReadError
    } else if k == (42int, 'r', 'r') {
        DecoderErrorKind::RvlcError
    } else if k == (46int, 'c', 'l') {
        DecoderErrorKind::AncDataErrorStart
    } else if k == (56int, 'n', 's') {
        DecoderErrorKind::AncDataError
    } else if k == (77int, 'e', 'r') {
        DecoderErrorKind::TooSmallAncBuffer
    } else {
        DecoderErrorKind::TooManyAncElements
    }
}

proof fn lemma_decoder_key_identifies_kind(k: DecoderErrorKind)
    ensures
        decoder_kind_of_key(decoder_message_key(decoder_kind_message(k))) == k,
{
    reveal_strlit("No error occurred. Output buffer is valid and error free.");
    reveal_strlit("Heap returned NULL pointer. Output buffer is invalid.");
    reveal_strlit("Error condition is of unknown reason, or from a another module. Output buffer is invalid.");
    reveal_strlit("Synchronization errors. Output buffer is invalid.");
    reveal_strlit("The transport decoder had synchronization problems. Do not exit decoding. Just feed new bitstream data.");
    reveal_strlit("The input buffer ran out of bits.");
    reveal_strlit("Initialization errors. Output buffer is invalid.");
    reveal_strlit("The handle passed to the function call was invalid (NULL).");
    reveal_strlit("The AOT found in the configuration is not supported.");
    reveal_strlit("The bitstream format is not supported. ");
    reveal_strlit("The error resilience tool format is not supported.");
    reveal_strlit("The error protection format is not supported.");
    reveal_strlit("More than one layer for AAC scalable is not supported.");
    reveal_strlit("The channel configuration (either number or arrangement) is not supported.");
    reveal_strlit("The sample rate specified in the configuration is not supported.");
    reveal_strlit("The SBR configuration is not supported.");
    reveal_strlit("The parameter could not be set. Either the value was out of range or the parameter does  not exist.");
    reveal_strlit("The decoder needs to be restarted, since the required configuration change cannot be performed.");
    reveal_strlit("The provided output buffer is too small.");
    reveal_strlit("Decode errors. Output buffer is valid but concealed.");
    reveal_strlit("The transport decoder encountered an unexpected error.");
    reveal_strlit("Error while parsing the bitstream. Most probably it is corrupted, or the system crashed.");
    reveal_strlit("Error while parsing the extension payload of the bitstream. The extension payload type found is not supported.");
    reveal_strlit("The parsed bitstream value is out of range. Most probably the bitstream is corrupt, or the system crashed.");
    reveal_strlit("The embedded CRC did not match.");
    reveal_strlit("An invalid codebook was signaled. Most probably the bitstream is corrupt, or the system  crashed.");
    reveal_strlit("Predictor found, but not supported in the AAC Low Complexity profile. Most probably the bitstream is corrupt, or has a wrong format.");
    reveal_strlit("A CCE element was found which is not supported. Most probably the bitstream is corrupt, or has a wrong format.");
    reveal_strlit("A LFE element was found which is not supported. Most probably the bitstream is corrupt, or has a wrong format.");
    reveal_strlit("Gain control data found but not supported. Most probably the bitstream is corrupt, or has a wrong format.");
    reveal_strlit("SBA found, but currently not supported in the BSAC profile.");
    reveal_strlit("Error while reading TNS data. Most probably the bitstream is corrupt or the system crashed.");
    reveal_strlit("Error while decoding error resilient data.");
    reveal_strlit("Ancillary data errors. Output buffer is valid.");
    reveal_strlit("Non severe error concerning the ancillary data handling.");
    reveal_strlit("The registered ancillary data buffer is too small to receive the parsed data.");
    reveal_strlit("More than the allowed number of ancillary data elements should be written to buffer.");
    match k {
        DecoderErrorKind::NoError => {},
        DecoderErrorKind::OutOfMemory => {},
        DecoderErrorKind::Unknown => {},
        DecoderErrorKind::SyncErrorStart => {},
        DecoderErrorKind::TransportSyncError => {},
        DecoderErrorKind::NotEnoughBits => {},
        DecoderErrorKind::InitErrorStart => {},
        DecoderErrorKind::InvalidHandle => {},
        DecoderErrorKind::UnsupportedAot => {},
        DecoderErrorKind::UnsupportedFormat => {},
        DecoderErrorKind::UnsupportedErFormat => {},
        DecoderErrorKind::UnsupportedEpconfig => {},
        DecoderErrorKind::UnsupportedMultilayer => {},
        DecoderErrorKind::UnsupportedChannelconfig => {},
        DecoderErrorKind::UnsupportedSamplingrate => {},
        DecoderErrorKind::InvalidSbrConfig => {},
        DecoderErrorKind::SetParamFail => {},
        DecoderErrorKind::NeedToRestart => {},
        DecoderErrorKind::OutputBufferTooSmall => {},
        DecoderErrorKind::DecodeErrorStart => {},
        DecoderErrorKind::TransportError => {},
        DecoderErrorKind::ParseError => {},
        DecoderErrorKind::UnsupportedExtensionPayload => {},
        DecoderErrorKind::DecodeFrameError => {},
        DecoderErrorKind::CrcError => {},
        DecoderErrorKind::InvalidCodeBook => {},
        DecoderErrorKind::UnsupportedPrediction => {},
        DecoderErrorKind::UnsupportedCce => {},
        DecoderErrorKind::UnsupportedLfe => {},
        DecoderErrorKind::UnsupportedGainControlData => {},
        DecoderErrorKind::UnsupportedSba => {},
        DecoderErrorKind::TnsReadError => {},
        DecoderErrorKind::RvlcError => {},
        DecoderErrorKind::AncDataErrorStart => {},
        DecoderErrorKind::AncDataError => {},
        DecoderErrorKind::TooSmallAncBuffer => {},
        DecoderErrorKind::TooManyAncElements => {},
    }
}

/// Two different documented decoder codes have different messages.
pub proof fn lemma_decoder_messages_distinct(c1: u32, c2: u32)
    requires
        c1 != c2,
        DecoderErrorKind::spec_from_code(c1) is Some,
        DecoderErrorKind::spec_from_code(c2) is Some,
    ensures
        decoder_message(c1) != decoder_message(c2),
{
    let a = DecoderErrorKind::spec_from_code(c1)->0;
    let b = DecoderErrorKind::spec_from_code(c2)->0;
    assert(a.spec_code() == c1 && b.spec_code() == c2);
    lemma_decoder_key_identifies_kind(a);
    lemma_decoder_key_identifies_kind(b);
}

/// Framing of the compressed input.
#[derive(PartialEq, Eq, Structural, Copy, Clone, Debug)]
pub enum Transport {
    Raw,
    Adts,
}

impl Transport {
    /// The engine's transport type number.
    pub open spec fn spec_value(self) -> u32 {
        match self {
            Transport::Raw => TT_MP4_RAW,
            Transport::Adts => TT_MP4_ADTS,
        }
    }

    pub fn value(&self) -> (r: u32)
        ensures
            r == self.spec_value(),
    {
        match self {
            Transport::Raw => TT_MP4_RAW,
            Transport::Adts => TT_MP4_ADTS,
        }
    }
}

/// Snapshot of the decoded stream's configuration, as the engine reports it
/// after a decoded frame.
#[derive(PartialEq, Eq, Structural, Copy, Clone, Debug)]
pub struct StreamInfo {
    pub sample_rate: u32,
    /// Samples per channel in one decoded frame.
    pub frame_size: u32,
    pub num_channels: u32,
    /// Decoder delay in samples per channel.
    pub output_delay: u32,
}

/// Samples in one decoded frame of all channels, or the largest `usize`
/// where that does not fit.
pub open spec fn frame_samples(info: StreamInfo) -> int {
    let n = info.num_channels as int * info.frame_size as int;
    if n <= usize::MAX {
        n
    } else {
        usize::MAX as int
    }
}

/// Where a decoder session stands in its lifecycle.
#[derive(PartialEq, Eq, Structural, Copy, Clone, Debug)]
pub enum DecoderStage {
    /// The handle is not allocated yet.
    Opening,
    /// The handle is open.
    Open,
    /// The handle could not be allocated.
    Failed(DecoderError),
    /// The handle has been released.
    Closed,
}

/// One decoder parameter call: identifier and value.
#[derive(PartialEq, Eq, Structural, Copy, Clone, Debug)]
pub struct ParamCall {
    pub param: u32,
    pub value: i32,
}

/// A fill call: how many of the supplied bytes the engine is told of.
#[derive(PartialEq, Eq, Structural, Copy, Clone, Debug)]
pub struct FillCall {
    pub length: u32,
}

/// What a fill call returns: the bytes consumed are those given less those
/// the engine reports still unread. A report of more unread bytes than were
/// given is an unknown error.
pub open spec fn fill_outcome(c: FillCall, status: u32, bytes_valid: u32) -> Result<usize, DecoderError> {
    if status != 0 {
        Err(DecoderError(status))
    } else if bytes_valid <= c.length {
        Ok((c.length - bytes_valid) as usize)
    } else {
        Err(DecoderError(DecoderErrorKind::Unknown.spec_code()))
    }
}

impl FillCall {
    /// Turns the engine's status and count of unread bytes into the result.
    pub fn finish(&self, status: u32, bytes_valid: u32) -> (r: Result<usize, DecoderError>)
        ensures
            r == fill_outcome(*self, status, bytes_valid),
            r matches Ok(n) ==> n <= self.length,
    {
        match check(status) {
            Err(e) => Err(e),
            Ok(()) => if bytes_valid <= self.length {
                Ok((self.length - bytes_valid) as usize)
            } else {
                Err(DecoderError::from_kind(DecoderErrorKind::Unknown))
            },
        }
    }
}

/// What a decoder session holds: its transport, lifecycle stage, and the
/// stream information of the last decoded frame.
pub struct DecoderView {
    pub transport: Transport,
    pub stage: DecoderStage,
    pub info: StreamInfo,
}

/// The decisions of a decoder session; the caller performs the engine calls.
#[derive(Debug)]
pub struct Decoder {
    transport: Transport,
    stage: DecoderStage,
    info: StreamInfo,
}

/// What a decode call needs: the capacity to hand the engine, or the error
/// of an output buffer that cannot hold one frame of the stream seen so far.
pub open spec fn decode_frame_plan(v: DecoderView, pcm_len: usize) -> Result<i32, DecoderError> {
    if pcm_len < frame_samples(v.info) {
        Err(DecoderError(DecoderErrorKind::OutputBufferTooSmall.spec_code()))
    } else if pcm_len <= i32::MAX {
        Ok(pcm_len as i32)
    } else {
        Ok(i32::MAX)
    }
}

impl View for Decoder {
    type V = DecoderView;

    closed spec fn view(&self) -> DecoderView {
        DecoderView { transport: self.transport, stage: self.stage, info: self.info }
    }
}

impl Decoder {
    /// A session for `transport`, before its handle is opened. Nothing is
    /// known of the stream yet.
    pub fn new(transport: Transport) -> (r: Decoder)
        ensures
            r@.transport == transport,
            r@.stage == DecoderStage::Opening,
            r@.info == (StreamInfo { sample_rate: 0, frame_size: 0, num_channels: 0, output_delay: 0 }),
    {
        Decoder {
            transport,
            stage: DecoderStage::Opening,
            info: StreamInfo { sample_rate: 0, frame_size: 0, num_channels: 0, output_delay: 0 },
        }
    }

    /// Transport type and number of layers for the engine's open call.
    pub fn open_args(&self) -> (r: (u32, u32))
        ensures
            r == (self@.transport.spec_value(), 1u32),
    {
        (self.transport.value(), 1)
    }

    /// Records whether the engine allocated a handle. No partial session
    /// goes on: without a handle the session fails with the init error of
    /// an invalid (null) handle.
    pub fn on_open(&mut self, allocated: bool) -> (r: Result<(), DecoderError>)
        requires
            old(self)@.stage == DecoderStage::Opening,
        ensures
            final(self)@.transport == old(self)@.transport,
            final(self)@.info == old(self)@.info,
            allocated ==> r is Ok && final(self)@.stage == DecoderStage::Open,
            !allocated ==> r == Err::<(), DecoderError>(DecoderError(DecoderErrorKind::InvalidHandle.spec_code()))
                && final(self)@.stage == DecoderStage::Failed(DecoderError(DecoderErrorKind::InvalidHandle.spec_code())),
    {
        if allocated {
            self.stage = DecoderStage::Open;
            Ok(())
        } else {
            let e = DecoderError::from_kind(DecoderErrorKind::InvalidHandle);
            self.stage = DecoderStage::Failed(e);
            Err(e)
        }
    }

    /// Ends the session. Returns whether the engine's close call must be
    /// made: exactly when the handle is open, so it is made once at most.
    pub fn close(&mut self) -> (r: bool)
        ensures
            r == (old(self)@.stage == DecoderStage::Open),
            final(self)@ == (DecoderView { stage: DecoderStage::Closed, ..old(self)@ }),
    {
        let r = match self.stage {
            DecoderStage::Open => true,
            _ => false,
        };
        self.stage = DecoderStage::Closed;
        r
    }

    pub fn stage(&self) -> (r: DecoderStage)
        ensures
            r == self@.stage,
    {
        self.stage
    }

    fn channel_param(param: u32, channels: usize) -> (r: Result<ParamCall, DecoderError>)
        ensures
            channels <= i32::MAX ==> r == Ok::<ParamCall, DecoderError>(ParamCall { param, value: channels as i32 }),
            channels > i32::MAX ==> r == Err::<ParamCall, DecoderError>(DecoderError(DecoderErrorKind::SetParamFail.spec_code())),
    {
        if channels <= i32::MAX as usize {
            Ok(ParamCall { param, value: channels as i32 })
        } else {
            Err(DecoderError::from_kind(DecoderErrorKind::SetParamFail))
        }
    }

    /// The call that makes the engine up-mix to at least `channels`. A count
    /// beyond the engine's range cannot be set.
    pub fn set_min_output_channels(&self, channels: usize) -> (r: Result<ParamCall, DecoderError>)
        ensures
            channels <= i32::MAX ==> r == Ok::<ParamCall, DecoderError>(
                ParamCall { param: AAC_PCM_MIN_OUTPUT_CHANNELS, value: channels as i32 },
            ),
            channels > i32::MAX ==> r == Err::<ParamCall, DecoderError>(DecoderError(DecoderErrorKind::SetParamFail.spec_code())),
    {
        Decoder::channel_param(AAC_PCM_MIN_OUTPUT_CHANNELS, channels)
    }

    /// The call that makes the engine down-mix to at most `channels`. A
    /// count beyond the engine's range cannot be set.
    pub fn set_max_output_channels(&self, channels: usize) -> (r: Result<ParamCall, DecoderError>)
        ensures
            channels <= i32::MAX ==> r == Ok::<ParamCall, DecoderError>(
                ParamCall { param: AAC_PCM_MAX_OUTPUT_CHANNELS, value: channels as i32 },
            ),
            channels > i32::MAX ==> r == Err::<ParamCall, DecoderError>(DecoderError(DecoderErrorKind::SetParamFail.spec_code())),
    {
        Decoder::channel_param(AAC_PCM_MAX_OUTPUT_CHANNELS, channels)
    }

    /// The length to hand the engine with an out-of-band configuration of
    /// `asc_len` bytes, for a raw stream: at most what its unsigned 32-bit
    /// count holds, so the engine reads no byte beyond the configuration.
    pub fn config_raw(&self, asc_len: usize) -> (r: u32)
        ensures
            r == if asc_len <= u32::MAX { asc_len as u32 } else { u32::MAX },
    {
        if asc_len <= u32::MAX as usize {
            asc_len as u32
        } else {
            u32::MAX
        }
    }

    /// The fill call for `data_len` supplied bytes: the engine is told of at
    /// most as many as its unsigned 32-bit count holds; the rest stays with
    /// the caller, as any unconsumed bytes do.
    pub fn fill(&self, data_len: usize) -> (r: FillCall)
        ensures
            r.length == if data_len <= u32::MAX { data_len as u32 } else { u32::MAX },
    {
        if data_len <= u32::MAX as usize {
            FillCall { length: data_len as u32 }
        } else {
            FillCall { length: u32::MAX }
        }
    }

    /// Checks an output buffer of `pcm_len` samples for one decoded frame,
    /// and gives the capacity to hand the engine.
    pub fn decode_frame(&self, pcm_len: usize) -> (r: Result<i32, DecoderError>)
        ensures
            r == decode_frame_plan(self@, pcm_len),
    {
        if pcm_len < self.decoded_frame_size() {
            Err(DecoderError::from_kind(DecoderErrorKind::OutputBufferTooSmall))
        } else if pcm_len <= i32::MAX as usize {
            Ok(pcm_len as i32)
        } else {
            Ok(i32::MAX)
        }
    }

    /// Records the engine's status for a decode call, and on success the
    /// stream information it refreshed.
    pub fn on_decoded(&mut self, status: u32, info: StreamInfo) -> (r: Result<(), DecoderError>)
        ensures
            final(self)@.transport == old(self)@.transport,
            final(self)@.stage == old(self)@.stage,
            status == 0 ==> r is Ok && final(self)@.info == info,
            status != 0 ==> r == Err::<(), DecoderError>(DecoderError(status)) && final(self)@.info == old(self)@.info,
    {
        let r = check(status);
        if r.is_ok() {
            self.info = info;
        }
        r
    }

    /// Samples one decoded frame of all channels takes.
    pub fn decoded_frame_size(&self) -> (r: usize)
        ensures
            r as int == frame_samples(self@.info),
    {
        match (self.info.num_channels as usize).checked_mul(self.info.frame_size as usize) {
            Some(n) => n,
            None => usize::MAX,
        }
    }

    /// The stream information of the last decoded frame.
    pub fn stream_info(&self) -> (r: StreamInfo)
        ensures
            r == self@.info,
    {
        self.info
    }
}

/// An output buffer shorter than one frame of the stream is refused with
/// the buffer-too-small error before the engine is asked to write to it.
pub proof fn lemma_short_buffer_refused(v: DecoderView, pcm_len: usize)
    requires
        pcm_len < v.info.num_channels as int * v.info.frame_size as int,
        v.info.num_channels as int * v.info.frame_size as int <= usize::MAX,
    ensures
        decode_frame_plan(v, pcm_len) == Err::<i32, DecoderError>(
            DecoderError(DecoderErrorKind::OutputBufferTooSmall.spec_code()),
        ),
{
}

/// A fill never reports more bytes consumed than it was given.
pub proof fn lemma_fill_consumes_at_most_given(data_len: usize, length: u32, status: u32, bytes_valid: u32)
    requires
        length == if data_len <= u32::MAX { data_len as u32 } else { u32::MAX },
    ensures
        fill_outcome(FillCall { length }, status, bytes_valid) matches Ok(n) ==> n <= data_len,
{
}

} // verus!
