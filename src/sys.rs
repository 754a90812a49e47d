//! Numeric interface of the AAC engine: status codes, parameter identifiers,
//! buffer roles, and plain models of the structures exchanged with it.
use vstd::prelude::*;

verus! {

/// Status codes returned by the encoder's entry points.
#[allow(non_camel_case_types)]
#[derive(PartialEq, Eq, Structural, Copy, Clone, Debug)]
pub enum Error {
    OK,
    INVALID_HANDLE,
    MEMORY_ERROR,
    UNSUPPORTED_PARAMETER,
    INVALID_CONFIG,
    INIT_ERROR,
    INIT_AAC_ERROR,
    INIT_SBR_ERROR,
    INIT_TP_ERROR,
    INIT_META_ERROR,
    INIT_MPS_ERROR,
    ENCODE_ERROR,
    ENCODE_EOF,
}

impl Error {
    /// The engine's numeric value of this status.
    pub open spec fn spec_code(self) -> u32 {
        match self {
            Error::OK => 0x0000,
            Error::INVALID_HANDLE => 0x0020,
            Error::MEMORY_ERROR => 0x0021,
            Error::UNSUPPORTED_PARAMETER => 0x0022,
            Error::INVALID_CONFIG => 0x0023,
            Error::INIT_ERROR => 0x0040,
            Error::INIT_AAC_ERROR => 0x0041,
            Error::INIT_SBR_ERROR => 0x0042,
            Error::INIT_TP_ERROR => 0x0043,
            Error::INIT_META_ERROR => 0x0044,
            Error::INIT_MPS_ERROR => 0x0045,
            Error::ENCODE_ERROR => 0x0060,
            Error::ENCODE_EOF => 0x0080,
        }
    }

    pub fn code(&self) -> (r: u32)
        ensures
            r == self.spec_code(),
    {
        match self {
            Error::OK => 0x0000,
            Error::INVALID_HANDLE => 0x0020,
            Error::MEMORY_ERROR => 0x0021,
            Error::UNSUPPORTED_PARAMETER => 0x0022,
            Error::INVALID_CONFIG => 0x0023,
            Error::INIT_ERROR => 0x0040,
            Error::INIT_AAC_ERROR => 0x0041,
            Error::INIT_SBR_ERROR => 0x0042,
            Error::INIT_TP_ERROR => 0x0043,
            Error::INIT_META_ERROR => 0x0044,
            Error::INIT_MPS_ERROR => 0x0045,
            Error::ENCODE_ERROR => 0x0060,
            Error::ENCODE_EOF => 0x0080,
        }
    }

    /// The status whose numeric value is `c`, if the engine documents one.
    pub open spec fn spec_from_code(c: u32) -> Option<Error> {
        if c == 0x0000 {
            Some(Error::OK)
        } else if c == 0x0020 {
            Some(Error::INVALID_HANDLE)
        } else if c == 0x0021 {
            Some(Error::MEMORY_ERROR)
        } else if c == 0x0022 {
            Some(Error::UNSUPPORTED_PARAMETER)
        } else if c == 0x0023 {
            Some(Error::INVALID_CONFIG)
        } else if c == 0x0040 {
            Some(Error::INIT_ERROR)
        } else if c == 0x0041 {
            Some(Error::INIT_AAC_ERROR)
        } else if c == 0x0042 {
            Some(Error::INIT_SBR_ERROR)
        } else if c == 0x0043 {
            Some(Error::INIT_TP_ERROR)
        } else if c == 0x0044 {
            Some(Error::INIT_META_ERROR)
        } else if c == 0x0045 {
            Some(Error::INIT_MPS_ERROR)
        } else if c == 0x0060 {
            Some(Error::ENCODE_ERROR)
        } else if c == 0x0080 {
            Some(Error::ENCODE_EOF)
        } else {
            None
        }
    }

    pub fn from_code(c: u32) -> (r: Option<Error>)
        ensures
            r == Error::spec_from_code(c),
            r matches Some(e) ==> e.spec_code() == c,
            r is None <==> forall|e: Error| e.spec_code() != c,
    {
        let r = if c == 0x0000 {
            Some(Error::OK)
        } else if c == 0x0020 {
            Some(Error::INVALID_HANDLE)
        } else if c == 0x0021 {
            Some(Error::MEMORY_ERROR)
        } else if c == 0x0022 {
            Some(Error::UNSUPPORTED_PARAMETER)
        } else if c == 0x0023 {
            Some(Error::INVALID_CONFIG)
        } else if c == 0x0040 {
            Some(Error::INIT_ERROR)
        } else if c == 0x0041 {
            Some(Error::INIT_AAC_ERROR)
        } else if c == 0x0042 {
            Some(Error::INIT_SBR_ERROR)
        } else if c == 0x0043 {
            Some(Error::INIT_TP_ERROR)
        } else if c == 0x0044 {
            Some(Error::INIT_META_ERROR)
        } else if c == 0x0045 {
            Some(Error::INIT_MPS_ERROR)
        } else if c == 0x0060 {
            Some(Error::ENCODE_ERROR)
        } else if c == 0x0080 {
            Some(Error::ENCODE_EOF)
        } else {
            None
        };
        proof {
            if r is None {
                assert forall|e: Error| e.spec_code() != c by {
                    match e {
                        Error::OK => {},
                        Error::INVALID_HANDLE => {},
                        Error::MEMORY_ERROR => {},
                        Error::UNSUPPORTED_PARAMETER => {},
                        Error::INVALID_CONFIG => {},
                        Error::INIT_ERROR => {},
                        Error::INIT_AAC_ERROR => {},
                        Error::INIT_SBR_ERROR => {},
                        Error::INIT_TP_ERROR => {},
                        Error::INIT_META_ERROR => {},
                        Error::INIT_MPS_ERROR => {},
                        Error::ENCODE_ERROR => {},
                        Error::ENCODE_EOF => {},
                    }
                }
            } else {
                assert(r->0.spec_code() == c);
            }
        }
        r
    }
}

/// Encoder parameter identifiers accepted by the parameter-set entry point.
#[allow(non_camel_case_types)]
#[derive(PartialEq, Eq, Structural, Copy, Clone, Debug)]
pub enum Param {
    AOT,
    BITRATE,
    BITRATEMODE,
    SAMPLERATE,
    SBR_MODE,
    GRANULE_LENGTH,
    CHANNELMODE,
    CHANNELORDER,
    SBR_RATIO,
    AFTERBURNER,
    BANDWIDTH,
    PEAK_BITRATE,
    TRANSMUX,
    HEADER_PERIOD,
    SIGNALING_MODE,
    TPSUBFRAMES,
    AUDIOMUXVER,
    PROTECTION,
    ANCILLARY_BITRATE,
    METADATA_MODE,
    CONTROL_STATE,
    NONE,
}

impl Param {
    /// The engine's numeric identifier of this parameter.
    pub open spec fn spec_code(self) -> u32 {
        match self {
            Param::AOT => 0x0100,
            Param::BITRATE => 0x0101,
            Param::BITRATEMODE => 0x0102,
            Param::SAMPLERATE => 0x0103,
            Param::SBR_MODE => 0x0104,
            Param::GRANULE_LENGTH => 0x0105,
            Param::CHANNELMODE => 0x0106,
            Param::CHANNELORDER => 0x0107,
            Param::SBR_RATIO => 0x0108,
            Param::AFTERBURNER => 0x0200,
            Param::BANDWIDTH => 0x0203,
            Param::PEAK_BITRATE => 0x0207,
            Param::TRANSMUX => 0x0300,
            Param::HEADER_PERIOD => 0x0301,
            Param::SIGNALING_MODE => 0x0302,
            Param::TPSUBFRAMES => 0x0303,
            Param::AUDIOMUXVER => 0x0304,
            Param::PROTECTION => 0x0306,
            Param::ANCILLARY_BITRATE => 0x0500,
            Param::METADATA_MODE => 0x0600,
            Param::CONTROL_STATE => 0xFF00,
            Param::NONE => 0xFFFF,
        }
    }

    pub fn code(&self) -> (r: u32)
        ensures
            r == self.spec_code(),
    {
        match self {
            Param::AOT => 0x0100,
            Param::BITRATE => 0x0101,
            Param::BITRATEMODE => 0x0102,
            Param::SAMPLERATE => 0x0103,
            Param::SBR_MODE => 0x0104,
            Param::GRANULE_LENGTH => 0x0105,
            Param::CHANNELMODE => 0x0106,
            Param::CHANNELORDER => 0x0107,
            Param::SBR_RATIO => 0x0108,
            Param::AFTERBURNER => 0x0200,
            Param::BANDWIDTH => 0x0203,
            Param::PEAK_BITRATE => 0x0207,
            Param::TRANSMUX => 0x0300,
            Param::HEADER_PERIOD => 0x0301,
            Param::SIGNALING_MODE => 0x0302,
            Param::TPSUBFRAMES => 0x0303,
            Param::AUDIOMUXVER => 0x0304,
            Param::PROTECTION => 0x0306,
            Param::ANCILLARY_BITRATE => 0x0500,
            Param::METADATA_MODE => 0x0600,
            Param::CONTROL_STATE => 0xFF00,
            Param::NONE => 0xFFFF,
        }
    }
}

/// Buffer role: interleaved input PCM samples.
pub const IN_AUDIO_DATA: i32 = 0;
/// Buffer role: input ancillary data bytes.
pub const IN_ANCILLRY_DATA: i32 = 1;
/// Buffer role: input metadata setup.
pub const IN_METADATA_SETUP: i32 = 2;
/// Buffer role: output bitstream bytes.
pub const OUT_BITSTREAM_DATA: i32 = 3;
/// Buffer role: output access-unit sizes.
pub const OUT_AU_SIZES: i32 = 4;

/// Decoder transport type of a raw bitstream.
pub const TT_MP4_RAW: u32 = 0;
/// Decoder transport type of an ADTS-framed bitstream.
pub const TT_MP4_ADTS: u32 = 2;

/// Decoder parameter: least number of output channels.
pub const AAC_PCM_MIN_OUTPUT_CHANNELS: u32 = 0x0011;
/// Decoder parameter: greatest number of output channels.
pub const AAC_PCM_MAX_OUTPUT_CHANNELS: u32 = 0x0012;

/// Provides some info about the encoder configuration.
pub struct InfoStruct {
    /// Maximum number of encoder bitstream bytes within one frame.
    pub max_out_buf_bytes: u32,
    /// Maximum number of ancillary data bytes which can be inserted into
    /// the bitstream within one frame.
    pub max_anc_bytes: u32,
    /// Internal input buffer fill level in samples per channel.
    pub in_buf_fill_level: u32,
    /// Number of input channels expected in the encoding process.
    pub input_channels: u32,
    /// Input audio samples consumed each frame per channel.
    pub frame_length: u32,
    /// Codec delay in PCM samples per channel.
    pub n_delay: u32,
    /// Codec delay in PCM samples per channel, without the delay of the
    /// decoder's SBR module.
    pub n_delay_core: u32,
    /// Configuration buffer: an AudioSpecificConfig or StreamMuxConfig.
    pub conf_buf: [u8; 64],
    /// Number of valid bytes in `conf_buf`.
    pub conf_size: u32,
}

/// Defines the input arguments for an encode call.
#[derive(PartialEq, Eq, Structural, Copy, Clone, Debug)]
pub struct InArgs {
    /// Number of valid input audio samples (multiple of input channels).
    pub num_in_samples: i32,
    /// Number of ancillary data bytes to be encoded.
    pub num_anc_bytes: i32,
}

/// Defines the output arguments of an encode call.
#[derive(PartialEq, Eq, Structural, Copy, Clone, Debug)]
pub struct OutArgs {
    /// Number of valid bitstream bytes generated.
    pub num_out_bytes: i32,
    /// Number of input audio samples consumed by the encoder.
    pub num_in_samples: i32,
    /// Number of ancillary data bytes consumed by the encoder.
    pub num_anc_bytes: i32,
    /// State of the bit reservoir in bits.
    pub bit_res_state: i32,
}

/// One logical buffer handed to an encode call: its role, its size as the
/// engine counts it, and the width of one element in bytes.
#[derive(PartialEq, Eq, Structural, Copy, Clone, Debug)]
pub struct BufEntry {
    pub identifier: i32,
    pub size: i32,
    pub el_size: i32,
}

/// Describes the buffers of one encode call in the engine's layout: parallel
/// arrays of roles, sizes and element sizes, one slot per buffer. The caller
/// supplies the buffer addresses in the same order, for that call only.
pub struct BufDesc {
    buffer_identifiers: Vec<i32>,
    buf_sizes: Vec<i32>,
    buf_el_sizes: Vec<i32>,
}

impl View for BufDesc {
    type V = Seq<BufEntry>;

    closed spec fn view(&self) -> Seq<BufEntry> {
        Seq::new(
            self.buffer_identifiers@.len(),
            |i: int|
                BufEntry {
                    identifier: self.buffer_identifiers@[i],
                    size: self.buf_sizes@[i],
                    el_size: self.buf_el_sizes@[i],
                },
        )
    }
}

impl BufDesc {
    /// The three arrays have one slot per buffer, and the count fits the
    /// engine's signed buffer count.
    pub closed spec fn wf(&self) -> bool {
        &&& self.buf_sizes@.len() == self.buffer_identifiers@.len()
        &&& self.buf_el_sizes@.len() == self.buffer_identifiers@.len()
        &&& self.buffer_identifiers@.len() <= i32::MAX
    }

    /// A description of no buffers at all.
    pub fn empty() -> (r: BufDesc)
        ensures
            r.wf(),
            r@ == Seq::<BufEntry>::empty(),
    {
        let r = BufDesc { buffer_identifiers: Vec::new(), buf_sizes: Vec::new(), buf_el_sizes: Vec::new() };
        assert(r@ =~= Seq::<BufEntry>::empty());
        r
    }

    /// Flattens the records into the parallel arrays, keeping their order.
    pub fn from_entries(entries: &[BufEntry]) -> (r: BufDesc)
        requires
            entries@.len() <= i32::MAX,
        ensures
            r.wf(),
            r@ == entries@,
    {
        let mut ids: Vec<i32> = Vec::new();
        let mut sizes: Vec<i32> = Vec::new();
        let mut el_sizes: Vec<i32> = Vec::new();
        let mut i: usize = 0;
        while i < entries.len()
            invariant
                i <= entries@.len(),
                ids@.len() == i,
                sizes@.len() == i,
                el_sizes@.len() == i,
                forall|j: int|
                    0 <= j < i ==> ids@[j] == entries@[j].identifier && sizes@[j] == entries@[j].size
                        && el_sizes@[j] == entries@[j].el_size,
            decreases entries@.len() - i,
        {
            let e = entries[i];
            ids.push(e.identifier);
            sizes.push(e.size);
            el_sizes.push(e.el_size);
            i = i + 1;
        }
        let r = BufDesc { buffer_identifiers: ids, buf_sizes: sizes, buf_el_sizes: el_sizes };
        assert(r@ =~= entries@);
        r
    }

    /// Number of buffers described.
    pub fn num_bufs(&self) -> (r: i32)
        requires
            self.wf(),
        ensures
            r as int == self@.len(),
    {
        self.buffer_identifiers.len() as i32
    }

    /// The role of each buffer.
    pub fn buffer_identifiers(&self) -> (r: &[i32])
        requires
            self.wf(),
        ensures
            r@.len() == self@.len(),
            forall|i: int| 0 <= i < r@.len() ==> r@[i] == self@[i].identifier,
    {
        self.buffer_identifiers.as_slice()
    }

    /// The size of each buffer.
    pub fn buf_sizes(&self) -> (r: &[i32])
        requires
            self.wf(),
        ensures
            r@.len() == self@.len(),
            forall|i: int| 0 <= i < r@.len() ==> r@[i] == self@[i].size,
    {
        self.buf_sizes.as_slice()
    }

    /// The element width of each buffer.
    pub fn buf_el_sizes(&self) -> (r: &[i32])
        requires
            self.wf(),
        ensures
            r@.len() == self@.len(),
            forall|i: int| 0 <= i < r@.len() ==> r@[i] == self@[i].el_size,
    {
        self.buf_el_sizes.as_slice()
    }
}

} // verus!
