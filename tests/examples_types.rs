use frame_pipeline::basics::{Buffer, FrameDataAppends, Phase, PHASE_KEY, PRINT_BUFFER};
use frame_pipeline::component::{Component, Step};
use frame_pipeline::frame::FrameData;
use frame_pipeline::mirror;
use frame_pipeline::player::{self, ColorCaster, Pipelines};
use frame_pipeline::snapper::{
    append_rgb, expected_buffer_size_for_monitor, store_capture, CaptureError, PNGBufferSaver,
    SaveError, WayshotCapturer, XCapCapturer,
};
use frame_pipeline::stream::{self, Error, Stat};

#[test]
fn phase_defaults_to_unknown() {
    assert_eq!(Phase::default(), Phase::Unknown);
}

#[test]
fn phase_codes_round_trip() {
    for p in [
        Phase::Unknown,
        Phase::PreBorrow,
        Phase::PostBorrow,
        Phase::PreRedeem,
        Phase::PostRedeem,
    ] {
        assert_eq!(Phase::from_code(p.code()), Some(p));
    }
    assert_eq!(Phase::PreRedeem.code(), 3);
    assert_eq!(Phase::from_code(5), None);
}

#[test]
fn appends_add_steps() {
    let c = Component::new()
        .append(Step::Tick(1000))
        .set_phase(Phase::PreBorrow)
        .print_buffer();
    assert_eq!(c.len(), 3);
    assert_eq!(c.step(1), Step::Mark(PHASE_KEY, 1));
    assert_eq!(c.step(2), Step::Processor(PRINT_BUFFER));
    assert_eq!(Buffer::Dummy.key(), 0);
}

#[test]
fn buffer_and_stat_keys_are_distinct() {
    let keys = [
        stream::BufferType::CapturedRGBAFrameBuffer.key(),
        stream::BufferType::EncodedFrameBuffer.key(),
        stream::BufferType::DecodedRGBAFrameBuffer.key(),
    ];
    assert_eq!(keys, [0, 1, 2]);
    let stats = [
        Stat::CaptureTime.key(),
        Stat::EncodePushTime.key(),
        Stat::TransmissionStartTime.key(),
        Stat::EncodeTime.key(),
        Stat::TransmissionTime.key(),
    ];
    assert_eq!(stats, [0, 1, 2, 3, 4]);
    assert_ne!(player::BufferType::YUVBuffer.key(), player::BufferType::DecodedRGBABuffer.key());
    assert_eq!(mirror::BufferType::RawFrameBuffer.key(), 0);
    assert_eq!(Pipelines::Main, Pipelines::Main);
}

#[test]
fn error_codes_round_trip() {
    assert_eq!(Error::from_code(Error::NoFrame.code()), Some(Error::NoFrame));
    assert_eq!(Error::from_code(Error::CodecError.code()), Some(Error::CodecError));
    assert_eq!(Error::from_code(2), None);
    let mut f = FrameData::new();
    f.report_error(Error::CodecError.code());
    assert_eq!(f.get_error().and_then(Error::from_code), Some(Error::CodecError));
}

#[test]
fn color_caster_samples_columns() {
    // 2 by 2 picture: 4 luma bytes, then two chroma planes of 2 bytes each.
    let caster = ColorCaster::new(2, 2);
    let yuv = vec![10, 11, 12, 13, 20, 21, 30, 31];
    let s = caster.samples(&yuv).unwrap();
    assert_eq!(
        s,
        vec![(10, 20, 30), (12, 20, 30), (11, 20, 30), (13, 20, 30)]
    );
}

#[test]
fn color_caster_wide_picture() {
    // 4 by 2 picture: 8 luma bytes, chroma planes of 4 bytes.
    let caster = ColorCaster::new(4, 2);
    let mut yuv: Vec<u8> = (0..8).collect();
    yuv.extend([100, 101, 102, 103, 200, 201, 202, 203]);
    let s = caster.samples(&yuv).unwrap();
    assert_eq!(s.len(), 8);
    assert_eq!(s[0], (0, 100, 200));
    assert_eq!(s[1], (4, 100, 200));
    assert_eq!(s[2], (1, 100, 200));
    assert_eq!(s[5], (6, 101, 201));
    assert_eq!(s[7], (7, 101, 201));
}

#[test]
fn color_caster_rejects_short_buffer() {
    let caster = ColorCaster::new(4, 4);
    assert_eq!(caster.samples(&vec![0u8; 8]), None);
    assert_eq!(ColorCaster::new(0, 5).samples(&vec![]), Some(vec![]));
}

#[test]
fn monitor_buffer_size() {
    assert_eq!(expected_buffer_size_for_monitor((1080, 1920)), 6_220_800);
    assert_eq!(expected_buffer_size_for_monitor((0, 1920)), 0);
}

#[test]
fn alpha_is_stripped() {
    let mut out = vec![9];
    append_rgb(&mut out, &vec![1, 2, 3, 255, 4, 5, 6, 128, 7]);
    assert_eq!(out, vec![9, 1, 2, 3, 4, 5, 6]);
}

#[test]
fn capture_overwrites_held_buffer() {
    let mut f = FrameData::new();
    f.push(4, vec![0; 10]);
    f.set(1, 2);
    assert_eq!(store_capture(&mut f, 4, &vec![1, 2, 3, 4, 5, 6, 7, 8]), Ok(()));
    assert_eq!(f.get_ref(4), Some(&vec![1, 2, 3, 5, 6, 7]));
    assert_eq!(f.get(1), Some(2));
}

#[test]
fn capture_without_buffer_fails() {
    let mut f = FrameData::new();
    assert_eq!(store_capture(&mut f, 4, &vec![1, 2, 3, 4]), Err(CaptureError::NoBuffer));
    let w = WayshotCapturer::new(4);
    assert_eq!(w.store(&mut f, &vec![1, 2, 3, 4]), Err(CaptureError::NoBuffer));
    let x = XCapCapturer::new(4, 1);
    assert_eq!(x.monitor_id(), 1);
    f.push(4, vec![]);
    assert_eq!(x.store(&mut f, &vec![1, 2, 3, 4]), Ok(()));
    assert_eq!(f.get_ref(4), Some(&vec![1, 2, 3]));
}

#[test]
fn png_saver_numbers_pictures() {
    let mut saver = PNGBufferSaver::new(1, 2, 3, String::from("shots"));
    let mut f = FrameData::new();
    f.push(3, vec![1, 2, 3, 4, 5, 6]);
    assert_eq!(saver.next_picture(&f), Ok((1, vec![1, 2, 3, 4, 5, 6])));
    assert_eq!(saver.next_picture(&f), Ok((2, vec![1, 2, 3, 4, 5, 6])));
    assert_eq!(saver.saved_count(), 2);
    assert_eq!(saver.path(), "shots");
    assert_eq!(f.get_ref(3), Some(&vec![1, 2, 3, 4, 5, 6]));
}

#[test]
fn png_saver_errors() {
    let mut saver = PNGBufferSaver::new(2, 2, 3, String::from("shots"));
    let mut f = FrameData::new();
    assert_eq!(saver.next_picture(&f), Err(SaveError::NoBuffer));
    f.push(3, vec![0; 11]);
    assert_eq!(saver.next_picture(&f), Err(SaveError::TooShort));
    assert_eq!(saver.saved_count(), 0);
}
