use fdk_aac::dec::{Decoder, DecoderError, DecoderErrorCategory, DecoderErrorKind, DecoderStage, ParamCall, StreamInfo, Transport};

fn stereo_info() -> StreamInfo {
    StreamInfo { sample_rate: 44100, frame_size: 1024, num_channels: 2, output_delay: 2048 }
}

fn open_decoder(t: Transport) -> Decoder {
    let mut d = Decoder::new(t);
    assert_eq!(d.on_open(true), Ok(()));
    d
}

#[test]
fn open_arguments_follow_transport() {
    assert_eq!(Decoder::new(Transport::Raw).open_args(), (0, 1));
    assert_eq!(Decoder::new(Transport::Adts).open_args(), (2, 1));
}

#[test]
fn failed_open_is_an_init_error() {
    let mut d = Decoder::new(Transport::Adts);
    let e = DecoderError::from_kind(DecoderErrorKind::InvalidHandle);
    assert_eq!(e.category(), DecoderErrorCategory::Init);
    assert_eq!(d.on_open(false), Err(e));
    assert_eq!(d.stage(), DecoderStage::Failed(e));
    assert!(!d.close());
}

#[test]
fn decoder_closes_once() {
    let mut d = open_decoder(Transport::Adts);
    assert_eq!(d.stage(), DecoderStage::Open);
    assert!(d.close());
    assert!(!d.close());
    assert_eq!(d.stage(), DecoderStage::Closed);
}

#[test]
fn output_channel_clamps() {
    let d = open_decoder(Transport::Adts);
    assert_eq!(d.set_min_output_channels(2), Ok(ParamCall { param: 0x0011, value: 2 }));
    assert_eq!(d.set_max_output_channels(1), Ok(ParamCall { param: 0x0012, value: 1 }));
    let fail = DecoderError::from_kind(DecoderErrorKind::SetParamFail);
    assert_eq!(d.set_max_output_channels(i32::MAX as usize + 1), Err(fail));
}

#[test]
fn fill_reports_consumed_bytes() {
    let d = open_decoder(Transport::Adts);
    let call = d.fill(100);
    assert_eq!(call.length, 100);
    assert_eq!(call.finish(0, 40), Ok(60));
    assert_eq!(call.finish(0, 0), Ok(100));
    assert_eq!(call.finish(0, 100), Ok(0));
    assert_eq!(call.finish(0x1002, 0), Err(DecoderError(0x1002)));
    assert_eq!(call.finish(0, 101), Err(DecoderError::from_kind(DecoderErrorKind::Unknown)));
    assert_eq!(d.fill(0).finish(0, 0), Ok(0));
    assert_eq!(d.fill(u32::MAX as usize + 5).length, u32::MAX);
}

#[test]
fn short_output_buffer_is_refused() {
    let mut d = open_decoder(Transport::Adts);
    assert_eq!(d.decoded_frame_size(), 0);
    assert_eq!(d.decode_frame(4096), Ok(4096));
    assert_eq!(d.on_decoded(0, stereo_info()), Ok(()));
    assert_eq!(d.decoded_frame_size(), 2048);
    let too_small = DecoderError::from_kind(DecoderErrorKind::OutputBufferTooSmall);
    assert_eq!(d.decode_frame(2047), Err(too_small));
    assert_eq!(d.decode_frame(0), Err(too_small));
    assert_eq!(d.decode_frame(2048), Ok(2048));
    assert_eq!(d.decode_frame(i32::MAX as usize + 1), Ok(i32::MAX));
}

#[test]
fn failed_decode_keeps_stream_info() {
    let mut d = open_decoder(Transport::Raw);
    assert_eq!(d.on_decoded(0, stereo_info()), Ok(()));
    let other = StreamInfo { sample_rate: 8000, frame_size: 480, num_channels: 1, output_delay: 0 };
    assert_eq!(d.on_decoded(0x1002, other), Err(DecoderError(0x1002)));
    assert_eq!(d.stream_info(), stereo_info());
    assert_eq!(d.stream_info().sample_rate, 44100);
    assert_eq!(d.stream_info().num_channels, 2);
}

#[test]
fn frame_size_saturates() {
    let mut d = open_decoder(Transport::Adts);
    let huge = StreamInfo { sample_rate: 1, frame_size: u32::MAX, num_channels: u32::MAX, output_delay: 0 };
    assert_eq!(d.on_decoded(0, huge), Ok(()));
    assert_eq!(d.decoded_frame_size(), (u32::MAX as usize) * (u32::MAX as usize));
}

#[test]
fn raw_configuration_length() {
    let d = open_decoder(Transport::Raw);
    assert_eq!(d.config_raw(2), 2);
    assert_eq!(d.config_raw(0), 0);
    assert_eq!(d.config_raw(u32::MAX as usize + 1), u32::MAX);
}
