use fdk_aac::enc::{
    configuration_calls, AudioObjectType, BitRate, ChannelMode, ConfigCall, EncodeInfo, Encoder,
    EncoderAction, EncoderError, EncoderParams, EncoderStage, Transport,
};
use fdk_aac::sys::{BufDesc, BufEntry, OutArgs, Param, IN_AUDIO_DATA, OUT_BITSTREAM_DATA};

fn params(bit_rate: BitRate) -> EncoderParams {
    EncoderParams {
        bit_rate,
        sample_rate: 44100,
        transport: Transport::Adts,
        channels: ChannelMode::Stereo,
        audio_object_type: AudioObjectType::Mpeg4LowComplexity,
    }
}

fn ready_encoder() -> Encoder {
    let mut e = Encoder::new(params(BitRate::Cbr(64000)));
    while !e.is_ready() {
        e.on_status(0);
    }
    e
}

fn out_args(num_out_bytes: i32, num_in_samples: i32) -> OutArgs {
    OutArgs { num_out_bytes, num_in_samples, num_anc_bytes: 0, bit_res_state: 0 }
}

#[test]
fn constant_rate_sets_target_then_mode_zero() {
    let calls = configuration_calls(&params(BitRate::Cbr(64000)));
    assert_eq!(
        calls,
        vec![
            ConfigCall::SetParam(Param::AOT, 2),
            ConfigCall::SetParam(Param::BITRATE, 64000),
            ConfigCall::SetParam(Param::BITRATEMODE, 0),
            ConfigCall::SetParam(Param::SAMPLERATE, 44100),
            ConfigCall::SetParam(Param::TRANSMUX, 2),
            ConfigCall::SetParam(Param::SBR_MODE, 0),
            ConfigCall::SetParam(Param::CHANNELMODE, 2),
            ConfigCall::Prime,
        ]
    );
}

#[test]
fn variable_rate_sets_only_mode() {
    let calls = configuration_calls(&params(BitRate::VbrMedium));
    assert!(calls.contains(&ConfigCall::SetParam(Param::BITRATEMODE, 3)));
    assert!(!calls.iter().any(|c| matches!(c, ConfigCall::SetParam(Param::BITRATE, _))));
    assert_eq!(calls.len(), 7);
}

#[test]
fn object_type_channel_and_transport_values() {
    let p = EncoderParams {
        bit_rate: BitRate::VbrVeryHigh,
        sample_rate: 48000,
        transport: Transport::Raw,
        channels: ChannelMode::Mono,
        audio_object_type: AudioObjectType::Mpeg4HeAacV2,
    };
    let calls = configuration_calls(&p);
    assert_eq!(calls[0], ConfigCall::SetParam(Param::AOT, 29));
    assert_eq!(calls[1], ConfigCall::SetParam(Param::BITRATEMODE, 5));
    assert_eq!(calls[3], ConfigCall::SetParam(Param::TRANSMUX, 0));
    assert_eq!(calls[5], ConfigCall::SetParam(Param::CHANNELMODE, 1));
    assert_eq!(AudioObjectType::Mpeg2HeAac.value(), 132);
    assert_eq!(AudioObjectType::Mpeg4EnhancedLowDelay.value(), 39);
}

#[test]
fn session_opens_once_and_closes_once() {
    let mut e = Encoder::new(params(BitRate::Cbr(64000)));
    assert_eq!(e.next_action(), EncoderAction::Open { max_modules: 0, max_channels: 2 });
    e.on_status(0);
    assert_eq!(e.stage(), EncoderStage::Configuring(0));
    assert!(e.close());
    assert!(!e.close());
    assert_eq!(e.next_action(), EncoderAction::Closed);
}

#[test]
fn configuration_issues_plan_in_order() {
    let p = params(BitRate::Cbr(64000));
    let plan = configuration_calls(&p);
    let mut e = Encoder::new(p);
    e.on_status(0);
    let mut issued = Vec::new();
    loop {
        match e.next_action() {
            EncoderAction::SetParam { param, value } => issued.push(ConfigCall::SetParam(param, value)),
            EncoderAction::Prime => issued.push(ConfigCall::Prime),
            EncoderAction::Ready => break,
            other => panic!("unexpected action {:?}", other),
        }
        e.on_status(0);
    }
    assert_eq!(issued, plan);
    assert!(e.is_ready());
}

#[test]
fn failed_step_stops_configuration() {
    let mut e = Encoder::new(params(BitRate::VbrLow));
    e.on_status(0);
    e.on_status(0);
    e.on_status(0x0022);
    let failed = EncoderError(0x0022);
    assert_eq!(e.stage(), EncoderStage::Failed { error: failed, handle_open: true });
    assert_eq!(e.next_action(), EncoderAction::Failed(failed));
    e.on_status(0);
    assert_eq!(e.next_action(), EncoderAction::Failed(failed));
    assert!(e.close());
    assert!(!e.close());
}

#[test]
fn failed_open_closes_nothing() {
    let mut e = Encoder::new(params(BitRate::VbrLow));
    e.on_status(0x0021);
    assert_eq!(e.stage(), EncoderStage::Failed { error: EncoderError(0x0021), handle_open: false });
    assert!(!e.close());
}

#[test]
fn encode_describes_both_buffers() {
    let e = ready_encoder();
    let call = e.encode(2048, 768);
    assert_eq!(call.input_desc.num_bufs(), 1);
    assert_eq!(call.input_desc.buffer_identifiers(), &[IN_AUDIO_DATA]);
    assert_eq!(call.input_desc.buf_sizes(), &[2048]);
    assert_eq!(call.input_desc.buf_el_sizes(), &[2]);
    assert_eq!(call.output_desc.num_bufs(), 1);
    assert_eq!(call.output_desc.buffer_identifiers(), &[OUT_BITSTREAM_DATA]);
    assert_eq!(call.output_desc.buf_sizes(), &[768]);
    assert_eq!(call.output_desc.buf_el_sizes(), &[1]);
    assert_eq!(call.in_args.num_in_samples, 2048);
    assert_eq!(call.in_args.num_anc_bytes, 0);
}

#[test]
fn encode_clamps_counts_to_engine_range() {
    let e = ready_encoder();
    let big = i32::MAX as usize + 10;
    let call = e.encode(big, big);
    assert_eq!(call.in_args.num_in_samples, i32::MAX);
    assert_eq!(call.input_desc.buf_sizes(), &[i32::MAX]);
    assert_eq!(call.output_desc.buf_sizes(), &[i32::MAX]);
}

#[test]
fn encode_result_stays_within_buffers() {
    let e = ready_encoder();
    let call = e.encode(2048, 768);
    assert_eq!(
        call.finish(0, out_args(371, 2048)),
        Ok(EncodeInfo { input_consumed: 2048, output_size: 371 })
    );
    assert_eq!(call.finish(0, out_args(0, 1024)), Ok(EncodeInfo { input_consumed: 1024, output_size: 0 }));
    assert_eq!(call.finish(0, out_args(769, 2048)), Err(EncoderError(0x0060)));
    assert_eq!(call.finish(0, out_args(10, 2049)), Err(EncoderError(0x0060)));
    assert_eq!(call.finish(0, out_args(-1, 0)), Err(EncoderError(0x0060)));
    assert_eq!(call.finish(0x0060, out_args(10, 10)), Err(EncoderError(0x0060)));
    assert_eq!(call.finish(0x0080, out_args(0, 0)), Err(EncoderError(0x0080)));
}

#[test]
fn descriptor_arrays_run_parallel() {
    let entries = [
        BufEntry { identifier: 0, size: 100, el_size: 2 },
        BufEntry { identifier: 1, size: 7, el_size: 1 },
        BufEntry { identifier: 4, size: 3, el_size: 4 },
    ];
    let d = BufDesc::from_entries(&entries);
    assert_eq!(d.num_bufs(), 3);
    assert_eq!(d.buffer_identifiers(), &[0, 1, 4]);
    assert_eq!(d.buf_sizes(), &[100, 7, 3]);
    assert_eq!(d.buf_el_sizes(), &[2, 1, 4]);
    let empty = BufDesc::empty();
    assert_eq!(empty.num_bufs(), 0);
    assert!(empty.buf_sizes().is_empty());
}
