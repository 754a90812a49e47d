//! Encoder side: status taxonomy, configuration protocol, session
//! lifecycle, and the description of each encode call.
use vstd::prelude::*;
use crate::sys::{BufDesc, BufEntry, Error, InArgs, OutArgs, Param, IN_AUDIO_DATA, OUT_BITSTREAM_DATA};

verus! {

/// Message of the fallback for a status the engine does not document.
pub open spec fn unknown_message() -> Seq<char> {
    "Unknown error"@
}

/// The fixed diagnostic text of a documented encoder status.
pub open spec fn kind_message(e: Error) -> Seq<char> {
    match e {
        Error::OK => "Ok"@,
        Error::INVALID_HANDLE => "Handle passed to function call was invalid."@,
        Error::MEMORY_ERROR => "Memory allocation failed."@,
        Error::UNSUPPORTED_PARAMETER => "Parameter not available."@,
        Error::INVALID_CONFIG => "Configuration not provided."@,
        Error::INIT_ERROR => "General initialization error."@,
        Error::INIT_AAC_ERROR => "AAC library initialization error."@,
        Error::INIT_SBR_ERROR => "SBR library initialization error."@,
        Error::INIT_TP_ERROR => "Transport library initialization error."@,
        Error::INIT_META_ERROR => "Meta data library initialization error."@,
        Error::INIT_MPS_ERROR => "MPS library initialization error."@,
        Error::ENCODE_ERROR => "The encoding process was interrupted by an unexpected error."@,
        Error::ENCODE_EOF => "End of file reached."@,
    }
}

/// The diagnostic text of any numeric encoder status.
pub open spec fn encoder_message(code: u32) -> Seq<char> {
    match Error::spec_from_code(code) {
        Some(e) => kind_message(e),
        None => unknown_message(),
    }
}

fn kind_message_str(e: Error) -> (r: &'static str)
    ensures
        r@ == kind_message(e),
{
    match e {
        Error::OK => "Ok",
        Error::INVALID_HANDLE => "Handle passed to function call was invalid.",
        Error::MEMORY_ERROR => "Memory allocation failed.",
        Error::UNSUPPORTED_PARAMETER => "Parameter not available.",
        Error::INVALID_CONFIG => "Configuration not provided.",
        Error::INIT_ERROR => "General initialization error.",
        Error::INIT_AAC_ERROR => "AAC library initialization error.",
        Error::INIT_SBR_ERROR => "SBR library initialization error.",
        Error::INIT_TP_ERROR => "Transport library initialization error.",
        Error::INIT_META_ERROR => "Meta data library initialization error.",
        Error::INIT_MPS_ERROR => "MPS library initialization error.",
        Error::ENCODE_ERROR => "The encoding process was interrupted by an unexpected error.",
        Error::ENCODE_EOF => "End of file reached.",
    }
}

/// An encoder status other than success, with its numeric code.
#[derive(PartialEq, Eq, Structural, Copy, Clone, Debug)]
pub struct EncoderError(pub u32);

impl EncoderError {
    /// The engine's numeric status.
    pub fn code(&self) -> (r: u32)
        ensures
            r == self.0,
    {
        self.0
    }

    /// The documented status this code stands for, if any.
    pub fn kind(&self) -> (r: Option<Error>)
        ensures
            r == Error::spec_from_code(self.0),
    {
        Error::from_code(self.0)
    }

    /// Fixed diagnostic text; total over all codes.
    pub fn message(&self) -> (r: &'static str)
        ensures
            r@ == encoder_message(self.0),
    {
        match Error::from_code(self.0) {
            Some(e) => kind_message_str(e),
            None => "Unknown error",
        }
    }
}

/// Success or the typed error of a raw encoder status.
pub fn check(e: u32) -> (r: Result<(), EncoderError>)
    ensures
        e == 0 ==> r == Ok::<(), EncoderError>(()),
        e != 0 ==> r == Err::<(), EncoderError>(EncoderError(e)),
{
    if e == 0 {
        Ok(())
    } else {
        Err(EncoderError(e))
    }
}

/// Every status has a non-empty message; a documented one has its own
/// table entry, distinct from the fallback, and any other has the fallback.
pub proof fn lemma_message_total(code: u32)
    ensures
        encoder_message(code).len() > 0,
        Error::spec_from_code(code) matches Some(e) ==> encoder_message(code) == kind_message(e)
            && encoder_message(code) != unknown_message(),
        Error::spec_from_code(code) is None ==> encoder_message(code) == unknown_message(),
{
    reveal_strlit("Unknown error");
    reveal_strlit("Ok");
    reveal_strlit("Handle passed to function call was invalid.");
    reveal_strlit("Memory allocation failed.");
    reveal_strlit("Parameter not available.");
    reveal_strlit("Configuration not provided.");
    reveal_strlit("General initialization error.");
    reveal_strlit("AAC library initialization error.");
    reveal_strlit("SBR library initialization error.");
    reveal_strlit("Transport library initialization error.");
    reveal_strlit("Meta data library initialization error.");
    reveal_strlit("MPS library initialization error.");
    reveal_strlit("The encoding process was interrupted by an unexpected error.");
    reveal_strlit("End of file reached.");
}


/// Length and first character of a message: enough to tell the documented
/// encoder statuses' messages apart.
pub open spec fn message_key(m: Seq<char>) -> (int, char) {
    (m.len() as int, m[0])
}

/// The documented encoder status whose message has key `k`.
pub open spec fn kind_of_key(k: (int, char)) -> Error {
    if k == (2int, 'O') {
        Error::OK
    } else if k == (43int, 'H') {
        Error::INVALID_HANDLE
    } else if k == (25int, 'M') {
        Error::MEMORY_ERROR
    } else if k == (24int, 'P') {
        Error::UNSUPPORTED_PARAMETER
    } else if k == (27int, 'C') {
        Error::INVALID_CONFIG
    } else if k == (29int, 'G') {
        Error::INIT_ERROR
    } else if k == (33int, 'A') {
        Error::INIT_AAC_ERROR
    } else if k == (33int, 'S') {
        Error::INIT_SBR_ERROR
    } else if k == (39int, 'T') {
        Error::INIT_TP_ERROR
    } else if k == (39int, 'M') {
        Error::INIT_META_ERROR
    } else if k == (33int, 'M') {
        Error::INIT_MPS_ERROR
    } else if k == (60int, 'T') {
        Error::ENCODE_ERROR
    } else {
        Error::ENCODE_EOF
    }
}

proof fn lemma_key_identifies_kind(e: Error)
    ensures
        kind_of_key(message_key(kind_message(e))) == e,
{
    reveal_strlit("Ok");
    reveal_strlit("Handle passed to function call was invalid.");
    reveal_strlit("Memory allocation failed.");
    reveal_strlit("Parameter not available.");
    reveal_strlit("Configuration not provided.");
    reveal_strlit("General initialization error.");
    reveal_strlit("AAC library initialization error.");
    reveal_strlit("SBR library initialization error.");
    reveal_strlit("Transport library initialization error.");
    reveal_strlit("Meta data library initialization error.");
    reveal_strlit("MPS library initialization error.");
    reveal_strlit("The encoding process was interrupted by an unexpected error.");
    reveal_strlit("End of file reached.");
    match e {
        Error::OK => {},
        Error::INVALID_HANDLE => {},
        Error::MEMORY_ERROR => {},
        Error::UNSUPPORTED_PARAMETER => {},
        Error::INVALID_CONFIG => {},
        Error::INIT_ERROR => {},
        Error::INIT_AAC_ERROR => {},
        Error::INIT_SBR_ERROR => {},
        Error::INIT_TP_ERROR => {},
        Error::INIT_META_ERROR => {},
        Error::INIT_MPS_ERROR => {},
        Error::ENCODE_ERROR => {},
        Error::ENCODE_EOF => {},
    }
}

/// Two different documented encoder codes have different messages.
pub proof fn lemma_messages_distinct(c1: u32, c2: u32)
    requires
        c1 != c2,
        Error::spec_from_code(c1) is Some,
        Error::spec_from_code(c2) is Some,
    ensures
        encoder_message(c1) != encoder_message(c2),
{
    let a = Error::spec_from_code(c1)->0;
    let b = Error::spec_from_code(c2)->0;
    assert(a.spec_code() == c1 && b.spec_code() == c2);
    lemma_key_identifies_kind(a);
    lemma_key_identifies_kind(b);
}

/// Bit-rate policy: a constant target in bits per second, or one of five
/// ascending variable-rate quality tiers.
#[derive(PartialEq, Eq, Structural, Copy, Clone, Debug)]
pub enum BitRate {
    Cbr(u32),
    VbrVeryLow,
    VbrLow,
    VbrMedium,
    VbrHigh,
    VbrVeryHigh,
}

impl BitRate {
    /// The engine's bit-rate mode: 0 for constant rate, 1 to 5 for the tiers.
    pub open spec fn spec_mode(self) -> u32 {
        match self {
            BitRate::Cbr(_) => 0,
            BitRate::VbrVeryLow => 1,
            BitRate::VbrLow => 2,
            BitRate::VbrMedium => 3,
            BitRate::VbrHigh => 4,
            BitRate::VbrVeryHigh => 5,
        }
    }

    pub fn mode(&self) -> (r: u32)
        ensures
            r == self.spec_mode(),
    {
        match self {
            BitRate::Cbr(_) => 0,
            BitRate::VbrVeryLow => 1,
            BitRate::VbrLow => 2,
            BitRate::VbrMedium => 3,
            BitRate::VbrHigh => 4,
            BitRate::VbrVeryHigh => 5,
        }
    }
}

#[derive(PartialEq, Eq, Structural, Copy, Clone, Debug)]
pub enum ChannelMode {
    Mono,
    Stereo,
}

impl ChannelMode {
    /// The engine's channel mode: 1 for mono, 2 for stereo.
    pub open spec fn spec_value(self) -> u32 {
        match self {
            ChannelMode::Mono => 1,
            ChannelMode::Stereo => 2,
        }
    }

    pub fn value(&self) -> (r: u32)
        ensures
            r == self.spec_value(),
    {
        match self {
            ChannelMode::Mono => 1,
            ChannelMode::Stereo => 2,
        }
    }
}

#[derive(PartialEq, Eq, Structural, Copy, Clone, Debug)]
pub enum AudioObjectType {
    /// MPEG-4 AAC Low Complexity.
    Mpeg4LowComplexity,
    /// MPEG-4 AAC Low Complexity with Spectral Band Replication (HE-AAC).
    Mpeg4HeAac,
    /// MPEG-4 AAC Low Complexity with Spectral Band Replication and Parametric
    /// Stereo (HE-AAC v2). This configuration can be used only with stereo
    /// input audio data.
    Mpeg4HeAacV2,
    /// MPEG-4 AAC Low-Delay.
    Mpeg4LowDelay,
    /// MPEG-4 AAC Enhanced Low-Delay.
    Mpeg4EnhancedLowDelay,
    /// MPEG-2 AAC Low Complexity.
    Mpeg2Aac,
    /// MPEG-2 AAC Low Complexity with Spectral Band Replication (HE-AAC).
    Mpeg2HeAac,
}

impl AudioObjectType {
    /// The engine's audio object type number.
    pub open spec fn spec_value(self) -> u32 {
        match self {
            AudioObjectType::Mpeg4LowComplexity => 2,
            AudioObjectType::Mpeg4HeAac => 5,
            AudioObjectType::Mpeg4HeAacV2 => 29,
            AudioObjectType::Mpeg4LowDelay => 23,
            AudioObjectType::Mpeg4EnhancedLowDelay => 39,
            AudioObjectType::Mpeg2Aac => 129,
            AudioObjectType::Mpeg2HeAac => 132,
        }
    }

    pub fn value(&self) -> (r: u32)
        ensures
            r == self.spec_value(),
    {
        match self {
            AudioObjectType::Mpeg4LowComplexity => 2,
            AudioObjectType::Mpeg4HeAac => 5,
            AudioObjectType::Mpeg4HeAacV2 => 29,
            AudioObjectType::Mpeg4LowDelay => 23,
            AudioObjectType::Mpeg4EnhancedLowDelay => 39,
            AudioObjectType::Mpeg2Aac => 129,
            AudioObjectType::Mpeg2HeAac => 132,
        }
    }
}

/// Framing of the encoded bitstream.
#[derive(PartialEq, Eq, Structural, Copy, Clone, Debug)]
pub enum Transport {
    Adts,
    Raw,
}

impl Transport {
    /// The engine's transport selector: 2 for ADTS, 0 for raw.
    pub open spec fn spec_value(self) -> u32 {
        match self {
            Transport::Adts => 2,
            Transport::Raw => 0,
        }
    }

    pub fn value(&self) -> (r: u32)
        ensures
            r == self.spec_value(),
    {
        match self {
            Transport::Adts => 2,
            Transport::Raw => 0,
        }
    }
}

#[derive(PartialEq, Eq, Structural, Copy, Clone, Debug)]
pub struct EncoderParams {
    pub bit_rate: BitRate,
    pub sample_rate: u32,
    pub transport: Transport,
    pub channels: ChannelMode,
    pub audio_object_type: AudioObjectType,
}

/// One primitive call of the configuration protocol.
#[derive(PartialEq, Eq, Structural, Copy, Clone, Debug)]
pub enum ConfigCall {
    /// Set one encoder parameter to a value.
    SetParam(Param, u32),
    /// The encode call with empty descriptors that must follow the
    /// parameters before the first real encode call.
    Prime,
}

/// The bit-rate target call, issued only in constant-rate mode.
pub open spec fn bit_rate_calls(b: BitRate) -> Seq<ConfigCall> {
    match b {
        BitRate::Cbr(rate) => seq![ConfigCall::SetParam(Param::BITRATE, rate)],
        _ => Seq::empty(),
    }
}

/// The ordered calls that configure a freshly opened encoder: object type,
/// bit-rate target (constant rate only) and mode, sample rate, transport,
/// spectral band replication off, channel mode, then the priming call.
pub open spec fn config_calls(p: EncoderParams) -> Seq<ConfigCall> {
    seq![ConfigCall::SetParam(Param::AOT, p.audio_object_type.spec_value())]
        + bit_rate_calls(p.bit_rate)
        + seq![
        ConfigCall::SetParam(Param::BITRATEMODE, p.bit_rate.spec_mode()),
        ConfigCall::SetParam(Param::SAMPLERATE, p.sample_rate),
        ConfigCall::SetParam(Param::TRANSMUX, p.transport.spec_value()),
        ConfigCall::SetParam(Param::SBR_MODE, 0),
        ConfigCall::SetParam(Param::CHANNELMODE, p.channels.spec_value()),
        ConfigCall::Prime,
    ]
}

/// Builds the configuration calls for `p`, in the order the engine needs.
pub fn configuration_calls(p: &EncoderParams) -> (r: Vec<ConfigCall>)
    ensures
        r@ == config_calls(*p),
{
    let mut r: Vec<ConfigCall> = Vec::new();
    r.push(ConfigCall::SetParam(Param::AOT, p.audio_object_type.value()));
    match p.bit_rate {
        BitRate::Cbr(rate) => r.push(ConfigCall::SetParam(Param::BITRATE, rate)),
        _ => {},
    }
    r.push(ConfigCall::SetParam(Param::BITRATEMODE, p.bit_rate.mode()));
    r.push(ConfigCall::SetParam(Param::SAMPLERATE, p.sample_rate));
    r.push(ConfigCall::SetParam(Param::TRANSMUX, p.transport.value()));
    r.push(ConfigCall::SetParam(Param::SBR_MODE, 0));
    r.push(ConfigCall::SetParam(Param::CHANNELMODE, p.channels.value()));
    r.push(ConfigCall::Prime);
    assert(r@ =~= config_calls(*p));
    r
}

/// A constant rate sets its target and then mode 0; a variable rate sets no
/// target, only its tier's mode.
pub proof fn lemma_bit_rate_calls(p: EncoderParams)
    ensures
        p.bit_rate matches BitRate::Cbr(rate) ==> config_calls(p)[1] == ConfigCall::SetParam(
            Param::BITRATE,
            rate,
        ) && config_calls(p)[2] == ConfigCall::SetParam(Param::BITRATEMODE, 0),
        !(p.bit_rate is Cbr) ==> config_calls(p)[1] == ConfigCall::SetParam(
            Param::BITRATEMODE,
            p.bit_rate.spec_mode(),
        ) && forall|i: int, v: u32|
            0 <= i < config_calls(p).len() ==> config_calls(p)[i] != ConfigCall::SetParam(
                Param::BITRATE,
                v,
            ),
{
}

/// Where an encoder session stands in its lifecycle.
#[derive(PartialEq, Eq, Structural, Copy, Clone, Debug)]
pub enum EncoderStage {
    /// The handle is not allocated yet.
    Opening,
    /// The handle is open; the configuration call at this index is next.
    Configuring(usize),
    /// Configured: encode calls may be made.
    Ready,
    /// A call failed; `handle_open` tells whether a handle must be closed.
    Failed { error: EncoderError, handle_open: bool },
    /// The handle has been released.
    Closed,
}

/// The next engine call an encoder session asks for.
#[derive(PartialEq, Eq, Structural, Copy, Clone, Debug)]
pub enum EncoderAction {
    /// Allocate a handle for this many modules (0: all) and channels.
    Open { max_modules: u32, max_channels: u32 },
    /// Set one parameter.
    SetParam { param: Param, value: u32 },
    /// The priming encode call with empty descriptors.
    Prime,
    /// Nothing: the session is configured.
    Ready,
    /// Nothing: construction failed with this error.
    Failed(EncoderError),
    /// Nothing: the handle has been released.
    Closed,
}

/// What an encoder session holds: its configuration plan and lifecycle stage.
pub struct EncoderView {
    pub plan: Seq<ConfigCall>,
    pub stage: EncoderStage,
}

/// The decisions of an encoder session: which engine call comes next, and
/// what each reported status leads to. The caller performs the calls.
#[derive(Debug)]
pub struct Encoder {
    plan: Vec<ConfigCall>,
    stage: EncoderStage,
}

/// Whether a handle is allocated in this stage and so must be closed once.
pub open spec fn handle_open(s: EncoderStage) -> bool {
    match s {
        EncoderStage::Configuring(_) | EncoderStage::Ready => true,
        EncoderStage::Failed { handle_open, .. } => handle_open,
        _ => false,
    }
}

/// The stage after the plan's step `next` succeeded (or the open, at 0).
pub open spec fn stage_at(plan: Seq<ConfigCall>, next: int) -> EncoderStage {
    if next >= plan.len() {
        EncoderStage::Ready
    } else {
        EncoderStage::Configuring(next as usize)
    }
}

/// The engine call a session asks for next.
pub open spec fn next_action_of(v: EncoderView) -> EncoderAction {
    match v.stage {
        EncoderStage::Opening => EncoderAction::Open { max_modules: 0, max_channels: 2 },
        EncoderStage::Configuring(i) => match v.plan[i as int] {
            ConfigCall::SetParam(param, value) => EncoderAction::SetParam { param, value },
            ConfigCall::Prime => EncoderAction::Prime,
        },
        EncoderStage::Ready => EncoderAction::Ready,
        EncoderStage::Failed { error, .. } => EncoderAction::Failed(error),
        EncoderStage::Closed => EncoderAction::Closed,
    }
}

/// The session after the engine reported `status` for the call it asked for.
/// A stage that asks for no call is left as it is.
pub open spec fn after_status(v: EncoderView, status: u32) -> EncoderView {
    EncoderView {
        plan: v.plan,
        stage: match v.stage {
            EncoderStage::Opening => if status == 0 {
                stage_at(v.plan, 0)
            } else {
                EncoderStage::Failed { error: EncoderError(status), handle_open: false }
            },
            EncoderStage::Configuring(i) => if status == 0 {
                stage_at(v.plan, i + 1)
            } else {
                EncoderStage::Failed { error: EncoderError(status), handle_open: true }
            },
            s => s,
        },
    }
}

impl View for Encoder {
    type V = EncoderView;

    closed spec fn view(&self) -> EncoderView {
        EncoderView { plan: self.plan@, stage: self.stage }
    }
}

impl Encoder {
    /// A configuring stage points into the plan.
    pub open spec fn wf(&self) -> bool {
        self@.stage matches EncoderStage::Configuring(i) ==> i < self@.plan.len()
    }

    /// A session for `params`, before its handle is opened.
    pub fn new(params: EncoderParams) -> (r: Encoder)
        ensures
            r.wf(),
            r@.plan == config_calls(params),
            r@.stage == EncoderStage::Opening,
    {
        Encoder { plan: configuration_calls(&params), stage: EncoderStage::Opening }
    }

    pub fn stage(&self) -> (r: EncoderStage)
        ensures
            r == self@.stage,
    {
        self.stage
    }

    pub fn is_ready(&self) -> (r: bool)
        ensures
            r == (self@.stage == EncoderStage::Ready),
    {
        match self.stage {
            EncoderStage::Ready => true,
            _ => false,
        }
    }

    /// The engine call to perform next.
    pub fn next_action(&self) -> (r: EncoderAction)
        requires
            self.wf(),
        ensures
            r == next_action_of(self@),
    {
        match self.stage {
            EncoderStage::Opening => EncoderAction::Open { max_modules: 0, max_channels: 2 },
            EncoderStage::Configuring(i) => match self.plan[i] {
                ConfigCall::SetParam(param, value) => EncoderAction::SetParam { param, value },
                ConfigCall::Prime => EncoderAction::Prime,
            },
            EncoderStage::Ready => EncoderAction::Ready,
            EncoderStage::Failed { error, .. } => EncoderAction::Failed(error),
            EncoderStage::Closed => EncoderAction::Closed,
        }
    }

    /// Records the status the engine reported for the call asked for. The
    /// first failure ends construction with that status.
    pub fn on_status(&mut self, status: u32)
        requires
            old(self).wf(),
        ensures
            final(self).wf(),
            final(self)@ == after_status(old(self)@, status),
    {
        let next = match self.stage {
            EncoderStage::Opening => if status == 0 {
                if self.plan.len() == 0 {
                    EncoderStage::Ready
                } else {
                    EncoderStage::Configuring(0)
                }
            } else {
                EncoderStage::Failed { error: EncoderError(status), handle_open: false }
            },
            EncoderStage::Configuring(i) => if status == 0 {
                if i >= self.plan.len() - 1 {
                    EncoderStage::Ready
                } else {
                    EncoderStage::Configuring(i + 1)
                }
            } else {
                EncoderStage::Failed { error: EncoderError(status), handle_open: true }
            },
            s => s,
        };
        self.stage = next;
    }

    /// Ends the session. Returns whether the engine's close call must be
    /// made: exactly when a handle is open, so it is made once at most.
    pub fn close(&mut self) -> (r: bool)
        ensures
            r == handle_open(old(self)@.stage),
            final(self)@ == (EncoderView { plan: old(self)@.plan, stage: EncoderStage::Closed }),
            final(self).wf(),
    {
        let r = match self.stage {
            EncoderStage::Configuring(_) | EncoderStage::Ready => true,
            EncoderStage::Failed { handle_open, .. } => handle_open,
            _ => false,
        };
        self.stage = EncoderStage::Closed;
        r
    }
}

/// Opening a session and closing it asks for exactly one open call and then
/// exactly one close call; a second close asks for none, and a closed session
/// never asks to open again.
pub proof fn lemma_open_close_once(params: EncoderParams, status: u32)
    ensures
        ({
            let v0 = EncoderView { plan: config_calls(params), stage: EncoderStage::Opening };
            let v1 = after_status(v0, status);
            let v2 = EncoderView { plan: v1.plan, stage: EncoderStage::Closed };
            &&& next_action_of(v0) is Open
            &&& !(next_action_of(v1) is Open)
            &&& handle_open(v1.stage) == (status == 0)
            &&& !handle_open(v2.stage)
            &&& next_action_of(v2) == EncoderAction::Closed
            &&& forall|s: u32| after_status(v2, s) == v2
        }),
{
}

/// A session that has left the opening stage never asks to open again,
/// whatever statuses the engine reports.
pub proof fn lemma_opens_at_most_once(v: EncoderView, status: u32)
    requires
        v.stage != EncoderStage::Opening,
    ensures
        after_status(v, status).stage != EncoderStage::Opening,
        !(next_action_of(after_status(v, status)) is Open),
{
}

/// The session after `k` further calls all reported success.
pub open spec fn after_successes(v: EncoderView, k: nat) -> EncoderView
    decreases k,
{
    if k == 0 {
        v
    } else {
        after_status(after_successes(v, (k - 1) as nat), 0)
    }
}

/// Once the handle is open and every call succeeds, the session asks for the
/// configuration calls one after another in the plan's order, and is ready
/// after the last one.
pub proof fn lemma_configuration_follows_plan(params: EncoderParams, k: nat)
    requires
        k <= config_calls(params).len(),
    ensures
        ({
            let opened = after_status(
                EncoderView { plan: config_calls(params), stage: EncoderStage::Opening },
                0,
            );
            let v = after_successes(opened, k);
            &&& v.plan == config_calls(params)
            &&& k < config_calls(params).len() ==> v.stage == EncoderStage::Configuring(k as usize)
                && next_action_of(v) == match config_calls(params)[k as int] {
                ConfigCall::SetParam(param, value) => EncoderAction::SetParam { param, value },
                ConfigCall::Prime => EncoderAction::Prime,
            }
            &&& k == config_calls(params).len() ==> v.stage == EncoderStage::Ready
        }),
    decreases k,
{
    let plan = config_calls(params);
    assert(plan.len() == 7 || plan.len() == 8);
    let opened = after_status(EncoderView { plan, stage: EncoderStage::Opening }, 0);
    if k > 0 {
        lemma_configuration_follows_plan(params, (k - 1) as nat);
        assert(after_successes(opened, k) == after_status(after_successes(opened, (k - 1) as nat), 0));
    }
}

/// The outcome of one successful encode call.
#[derive(PartialEq, Eq, Structural, Copy, Clone, Debug)]
pub struct EncodeInfo {
    pub input_consumed: usize,
    pub output_size: usize,
}

/// A count as the engine's signed 32-bit fields hold it: counts beyond the
/// largest such value are cut to it.
pub open spec fn clamp_count(n: int) -> int {
    if n <= i32::MAX {
        n
    } else {
        i32::MAX as int
    }
}

fn clamp_to_i32(n: usize) -> (r: i32)
    ensures
        r as int == clamp_count(n as int),
{
    if n <= i32::MAX as usize {
        n as i32
    } else {
        i32::MAX
    }
}

/// Everything one encode call hands the engine, apart from the addresses:
/// the input buffer (interleaved 16-bit samples) and the output buffer
/// (bytes), each described by one entry, and the input arguments.
pub struct EncodeCall {
    pub input_desc: BufDesc,
    pub output_desc: BufDesc,
    pub in_args: InArgs,
}

/// The description of an input of `input_len` samples and an output of
/// `output_len` bytes.
pub open spec fn encode_call_for(c: EncodeCall, input_len: int, output_len: int) -> bool {
    &&& c.input_desc.wf()
    &&& c.output_desc.wf()
    &&& c.input_desc@ == seq![
        BufEntry { identifier: IN_AUDIO_DATA, size: clamp_count(input_len) as i32, el_size: 2 },
    ]
    &&& c.output_desc@ == seq![
        BufEntry { identifier: OUT_BITSTREAM_DATA, size: clamp_count(output_len) as i32, el_size: 1 },
    ]
    &&& c.in_args == InArgs { num_in_samples: clamp_count(input_len) as i32, num_anc_bytes: 0 }
}

/// Whether the engine's report stays within the buffers the call described.
pub open spec fn within_buffers(c: EncodeCall, out: OutArgs) -> bool {
    &&& 0 <= out.num_in_samples <= c.in_args.num_in_samples
    &&& 0 <= out.num_out_bytes <= c.output_desc@[0].size
}

/// The result of an encode call: a failure status is returned as its error;
/// a report beyond the described buffers is an encode error; otherwise the
/// engine's counts are returned.
pub open spec fn encode_outcome(c: EncodeCall, status: u32, out: OutArgs) -> Result<EncodeInfo, EncoderError> {
    if status != 0 {
        Err(EncoderError(status))
    } else if within_buffers(c, out) {
        Ok(EncodeInfo { input_consumed: out.num_in_samples as usize, output_size: out.num_out_bytes as usize })
    } else {
        Err(EncoderError(Error::ENCODE_ERROR.spec_code()))
    }
}

impl EncodeCall {
    pub open spec fn wf(&self) -> bool {
        &&& self.input_desc.wf()
        &&& self.output_desc.wf()
        &&& self.output_desc@.len() == 1
    }

    /// Turns the engine's status and output arguments into the result.
    pub fn finish(&self, status: u32, out: OutArgs) -> (r: Result<EncodeInfo, EncoderError>)
        requires
            self.wf(),
        ensures
            r == encode_outcome(*self, status, out),
    {
        match check(status) {
            Err(e) => Err(e),
            Ok(()) => {
                let out_capacity = self.output_desc.buf_sizes()[0];
                if 0 <= out.num_in_samples && out.num_in_samples <= self.in_args.num_in_samples
                    && 0 <= out.num_out_bytes && out.num_out_bytes <= out_capacity {
                    Ok(
                        EncodeInfo {
                            input_consumed: out.num_in_samples as usize,
                            output_size: out.num_out_bytes as usize,
                        },
                    )
                } else {
                    Err(EncoderError(Error::ENCODE_ERROR.code()))
                }
            },
        }
    }
}

impl Encoder {
    /// Describes an encode call over `input_len` interleaved samples and an
    /// output buffer of `output_len` bytes. Counts beyond the engine's signed
    /// 32-bit range are cut to it, so the engine is told of no more than the
    /// buffers hold.
    pub fn encode(&self, input_len: usize, output_len: usize) -> (r: EncodeCall)
        requires
            self@.stage == EncoderStage::Ready,
        ensures
            r.wf(),
            encode_call_for(r, input_len as int, output_len as int),
    {
        let n = clamp_to_i32(input_len);
        let m = clamp_to_i32(output_len);
        let input = [BufEntry { identifier: IN_AUDIO_DATA, size: n, el_size: 2 }];
        let output = [BufEntry { identifier: OUT_BITSTREAM_DATA, size: m, el_size: 1 }];
        let input_desc = BufDesc::from_entries(&input);
        let output_desc = BufDesc::from_entries(&output);
        assert(input@ =~= seq![BufEntry { identifier: IN_AUDIO_DATA, size: n, el_size: 2 }]);
        assert(output@ =~= seq![BufEntry { identifier: OUT_BITSTREAM_DATA, size: m, el_size: 1 }]);
        EncodeCall { input_desc, output_desc, in_args: InArgs { num_in_samples: n, num_anc_bytes: 0 } }
    }
}

/// What an encode call returns stays within what it was given: no more
/// samples consumed than supplied, no more bytes than the output holds.
pub proof fn lemma_encode_within_buffers(
    c: EncodeCall,
    input_len: usize,
    output_len: usize,
    status: u32,
    out: OutArgs,
)
    requires
        encode_call_for(c, input_len as int, output_len as int),
    ensures
        encode_outcome(c, status, out) matches Ok(info) ==> info.input_consumed <= input_len
            && info.output_size <= output_len,
{
}

} // verus!
