use decklink::capture::{frame_delivered, shim_timeout, NO_FRAME_TIMEOUT_NS, READ_TIMEOUT_MS};
use decklink::frame::decode_pcm;
use decklink::opening::{bad_format, refused_open};
use decklink::{
    CaptureOpening, CapturedFrame, DecklinkCapture, DecklinkCaptureConfig, DecklinkPixelFormat,
    Error, OpenStep, RawFrame, ReadStep, ShimConstants,
};

const SECOND: u128 = 1_000_000_000;
const MS: u128 = 1_000_000;

fn shim() -> ShimConstants {
    ShimConstants {
        ok: 0,
        timeout: 1,
        err_no_device: -1,
        err_unsupported: -2,
        err_param: -3,
        err_stopped: -4,
        err_time: -5,
        pixfmt_uyvy422: 10,
        pixfmt_v210: 11,
        frame_video: 20,
    }
}

fn config() -> DecklinkCaptureConfig {
    DecklinkCaptureConfig {
        device: "DeckLink Quad (1)".to_string(),
        format: "auto".to_string(),
        pixel_format: DecklinkPixelFormat::Uyvy422,
        audio_channels: 2,
        audio_sample_rate: 48_000,
    }
}

fn nothing() -> RawFrame {
    RawFrame {
        kind: 0,
        pts_90khz: 0,
        width: 0,
        height: 0,
        stride: 0,
        fr_num: 0,
        fr_den: 0,
        no_signal: 0,
        channels: 0,
        sample_rate: 0,
        data: Vec::new(),
    }
}

fn video(width: i64, height: i64, rate: (i64, i64), pts: i64) -> RawFrame {
    RawFrame {
        kind: 20,
        pts_90khz: pts,
        width,
        height,
        stride: width * 2,
        fr_num: rate.0,
        fr_den: rate.1,
        data: vec![1, 2, 3],
        ..nothing()
    }
}

fn audio(data: Vec<u8>) -> RawFrame {
    RawFrame { kind: 21, pts_90khz: 900, channels: 2, sample_rate: 48_000, data, ..nothing() }
}

fn opening(now: u128) -> CaptureOpening {
    match DecklinkCapture::open(&config(), 0, false, &shim(), now) {
        Ok(o) => o,
        Err(e) => panic!("{e:?}"),
    }
}

fn waiting(step: OpenStep) -> CaptureOpening {
    match step {
        OpenStep::Waiting(o) => o,
        OpenStep::Done(Ok(_)) => panic!("opened early"),
        OpenStep::Done(Err(e)) => panic!("{e:?}"),
    }
}

fn done(step: OpenStep) -> Result<DecklinkCapture, Error> {
    match step {
        OpenStep::Waiting(_) => panic!("still waiting"),
        OpenStep::Done(r) => r,
    }
}

fn opened(frame: RawFrame) -> DecklinkCapture {
    let o = waiting(opening(0).handle_read(0, frame, &shim(), 0));
    done(o.poll(SECOND)).unwrap()
}

#[test]
fn request_carries_the_configuration() {
    let r = DecklinkCapture::open_request(&config(), &shim()).unwrap();
    assert_eq!(r.device, "DeckLink Quad (1)");
    assert_eq!(r.mode, "auto");
    assert_eq!(r.pixel_format, 10);
    assert_eq!(r.audio_channels, 2);
    let v210 = DecklinkCaptureConfig {
        pixel_format: DecklinkPixelFormat::V210,
        audio_channels: 255,
        ..config()
    };
    let r = DecklinkCapture::open_request(&v210, &shim()).unwrap();
    assert_eq!(r.pixel_format, 11);
    assert_eq!(r.audio_channels, 255);
}

#[test]
fn pixel_formats_have_names_and_constants() {
    assert_eq!(DecklinkPixelFormat::Uyvy422.name(), "uyvy422");
    assert_eq!(DecklinkPixelFormat::V210.name(), "v210");
    assert_eq!(DecklinkPixelFormat::Uyvy422.as_raw(&shim()), 10);
    assert_eq!(DecklinkPixelFormat::V210.as_raw(&shim()), 11);
}

#[test]
fn a_nul_is_refused_before_the_shim_is_asked() {
    let cfg = DecklinkCaptureConfig { device: "a\0b".to_string(), ..config() };
    match DecklinkCapture::open_request(&cfg, &shim()) {
        Err(Error::DeviceNotFound(s)) => assert_eq!(s, "a\0b"),
        other => panic!("{other:?}"),
    }
    let cfg = DecklinkCaptureConfig { format: "Hi\0".to_string(), ..config() };
    match DecklinkCapture::open_request(&cfg, &shim()) {
        Err(Error::Unsupported(s)) => assert_eq!(s, "bad format \"Hi\\0\""),
        other => panic!("{other:?}"),
    }
    // The same, whatever the shim would have said.
    match DecklinkCapture::open(&cfg, 0, false, &shim(), 0) {
        Err(Error::Unsupported(s)) => assert_eq!(s, "bad format \"Hi\\0\""),
        _ => panic!("not refused"),
    }
}

#[test]
fn refused_opens() {
    let cfg = DecklinkCaptureConfig {
        device: "Quad \"A\"".to_string(),
        format: "Hx".to_string(),
        ..config()
    };
    let refuse = |rc: i32, null: bool| match DecklinkCapture::open(&cfg, rc, null, &shim(), 0) {
        Ok(_) => panic!("opened"),
        Err(e) => e,
    };
    match refuse(-1, true) {
        Error::DeviceNotFound(s) => assert_eq!(s, "Quad \"A\""),
        e => panic!("{e:?}"),
    }
    match refuse(-2, true) {
        Error::Unsupported(s) => assert_eq!(
            s,
            "device \"Quad \\\"A\\\"\" does not support the requested mode/detection"
        ),
        e => panic!("{e:?}"),
    }
    match refuse(-3, true) {
        Error::Unsupported(s) => assert_eq!(s, "bad mode \"Hx\""),
        e => panic!("{e:?}"),
    }
    match refuse(-9, false) {
        Error::OpenFailed(s) => assert_eq!(s, "dl_open failed (code -9)"),
        e => panic!("{e:?}"),
    }
    // A null handle is a failure even where the code says otherwise.
    match refuse(0, true) {
        Error::OpenFailed(s) => assert_eq!(s, "dl_open failed (code 0)"),
        e => panic!("{e:?}"),
    }
}

#[test]
fn refusals_quote_what_they_are_given() {
    match refused_open(-2, "d", "<d>", "<f>", &shim()) {
        Error::Unsupported(s) => {
            assert_eq!(s, "device <d> does not support the requested mode/detection")
        }
        e => panic!("{e:?}"),
    }
    match refused_open(-3, "d", "<d>", "<f>", &shim()) {
        Error::Unsupported(s) => assert_eq!(s, "bad mode <f>"),
        e => panic!("{e:?}"),
    }
    match bad_format("<f>") {
        Error::Unsupported(s) => assert_eq!(s, "bad format <f>"),
        e => panic!("{e:?}"),
    }
}

#[test]
fn open_gives_up_when_no_video_comes() {
    let o = waiting(opening(7).poll(7));
    let o = waiting(o.handle_read(1, nothing(), &shim(), SECOND));
    let o = waiting(o.handle_read(0, audio(vec![0; 8]), &shim(), 2 * SECOND));
    let o = waiting(o.poll(5 * SECOND + 6));
    match done(o.poll(5 * SECOND + 7)) {
        Err(Error::NoSignal(s)) => assert_eq!(s, "DeckLink Quad (1)"),
        _ => panic!("no timeout"),
    }
}

#[test]
fn open_fails_on_an_error_before_the_first_video() {
    match done(opening(0).handle_read(-4, nothing(), &shim(), 1)) {
        Err(Error::Eof) => {}
        _ => panic!("not closed"),
    }
    match done(opening(0).handle_read(-8, nothing(), &shim(), 1)) {
        Err(Error::Io(s)) => assert_eq!(s, "dl_read_frame failed (code -8)"),
        _ => panic!("no error"),
    }
}

#[test]
fn open_settles_on_the_last_video_frame() {
    let o = waiting(opening(0).handle_read(0, video(720, 576, (25, 1), 1), &shim(), SECOND));
    let o = waiting(o.poll(SECOND + 399 * MS));
    let o = waiting(o.handle_read(
        0,
        video(1920, 1080, (30_000, 1_001), 2),
        &shim(),
        SECOND + 399 * MS,
    ));
    // Frames do not prolong the wait.
    let mut c = done(o.poll(SECOND + 400 * MS)).unwrap();
    assert_eq!(c.video_dimensions(), (1920, 1080));
    assert_eq!(c.video_frame_rate(), (30_000, 1_001));
    assert_eq!(c.audio_channels(), 2);
    assert_eq!(c.audio_sample_rate(), 48_000);
    // The frame that told the raster is read first, and once.
    match c.read_frame_timeout(50) {
        ReadStep::Frame(CapturedFrame::Video(v)) => assert_eq!(v.pts, 2),
        other => panic!("{other:?}"),
    }
    match c.read_frame_timeout(50) {
        ReadStep::Wait { timeout_ms } => assert_eq!(timeout_ms, 50),
        other => panic!("{other:?}"),
    }
    assert_eq!(c.video_dimensions(), (1920, 1080));
}

#[test]
fn a_transient_while_settling_does_not_fail_the_open() {
    for rc in [-4, -7, -1] {
        let o = waiting(opening(0).handle_read(0, video(720, 576, (25, 1), 1), &shim(), 0));
        let c = done(o.handle_read(rc, nothing(), &shim(), 1)).unwrap();
        assert_eq!(c.video_dimensions(), (720, 576));
    }
    let o = waiting(opening(0).handle_read(0, video(720, 576, (25, 1), 1), &shim(), 0));
    let o = waiting(o.handle_read(1, nothing(), &shim(), 1));
    let o = waiting(o.handle_read(0, audio(Vec::new()), &shim(), 2));
    assert_eq!(done(o.poll(400 * MS)).unwrap().video_dimensions(), (720, 576));
}

#[test]
fn open_succeeds_with_the_cable_out() {
    let mut c = opened(RawFrame { no_signal: 1, ..video(720, 576, (25, 1), 1) });
    match c.read_frame_timeout(0) {
        ReadStep::Frame(CapturedFrame::Video(v)) => assert!(!v.signal_present),
        other => panic!("{other:?}"),
    }
}

#[test]
fn frame_rates_are_never_zero() {
    let c = opened(video(720, 576, (0, 0), 1));
    assert_eq!(c.video_frame_rate(), (1, 1));
    let c = opened(video(720, 576, (-25, 1), 1));
    assert_eq!(c.video_frame_rate(), (1, 1));
    let c = opened(video(720, 576, (0x1_0000_0000, 0x2_0000_0000), 1));
    assert_eq!(c.video_frame_rate(), (1, 1));
}

#[test]
fn frames_update_the_rate_only_when_they_have_one() {
    let mut c = opened(video(720, 576, (25, 1), 1));
    c.next_raw(0, video(720, 576, (50, 0), 2), &shim()).unwrap();
    assert_eq!(c.video_frame_rate(), (25, 1));
    c.next_raw(0, RawFrame { fr_num: 60, fr_den: 1, ..audio(Vec::new()) }, &shim()).unwrap();
    assert_eq!(c.video_frame_rate(), (25, 1));
    c.next_raw(1, video(720, 576, (60, 1), 2), &shim()).unwrap();
    assert_eq!(c.video_frame_rate(), (25, 1));
    c.next_raw(0, video(720, 576, (60, 1), 3), &shim()).unwrap();
    assert_eq!(c.video_frame_rate(), (60, 1));
}

#[test]
fn video_frames_are_converted() {
    let mut c = opened(video(720, 576, (25, 1), 1));
    match c.next_raw(0, video(1280, 720, (50, 1), -90), &shim()) {
        Ok(Some(CapturedFrame::Video(v))) => {
            assert_eq!(v.pts, -90);
            assert_eq!((v.width, v.height, v.stride), (1280, 720, 2560));
            assert_eq!(v.pixel_format, DecklinkPixelFormat::Uyvy422);
            assert_eq!(v.data, vec![1, 2, 3]);
            assert!(v.signal_present);
        }
        other => panic!("{other:?}"),
    }
    // Counts out of range wrap as the machine's conversions do.
    let odd = RawFrame { width: -1, height: 0x1_0000_0005, stride: -2, no_signal: -1, ..video(0, 0, (1, 1), 0) };
    match c.next_raw(0, odd, &shim()) {
        Ok(Some(CapturedFrame::Video(v))) => {
            assert_eq!((v.width, v.height), (u32::MAX, 5));
            assert_eq!(v.stride, usize::MAX - 1);
            assert!(!v.signal_present);
        }
        other => panic!("{other:?}"),
    }
}

#[test]
fn audio_blocks_are_converted() {
    let mut c = opened(video(720, 576, (25, 1), 1));
    let block = audio(vec![1, 0, 0, 0, 0xFF, 0xFF, 0xFF, 0xFF, 9, 9]);
    match c.next_raw(0, block, &shim()) {
        Ok(Some(CapturedFrame::Audio(a))) => {
            assert_eq!(a.pts, 900);
            assert_eq!(a.channels, 2);
            assert_eq!(a.sample_rate, 48_000);
            assert_eq!(a.samples, vec![1, -1]);
        }
        other => panic!("{other:?}"),
    }
    match c.next_raw(0, RawFrame { channels: 258, ..audio(Vec::new()) }, &shim()) {
        Ok(Some(CapturedFrame::Audio(a))) => assert_eq!((a.channels, a.samples.len()), (2, 0)),
        other => panic!("{other:?}"),
    }
}

#[test]
fn pcm_round_trips() {
    let samples = vec![0, 1, -1, 0x0102_0304, i32::MAX, i32::MIN, -0x0102_0304];
    for rest in 0..4 {
        let mut bytes: Vec<u8> = samples.iter().flat_map(|s: &i32| s.to_le_bytes()).collect();
        bytes.resize(bytes.len() + rest, 7);
        assert_eq!(decode_pcm(&bytes), samples);
    }
}

#[test]
fn reads_that_deliver_no_frame() {
    let mut c = opened(video(720, 576, (25, 1), 1));
    assert!(matches!(c.next_raw(1, nothing(), &shim()), Ok(None)));
    assert!(matches!(c.next_raw(-4, nothing(), &shim()), Err(Error::Eof)));
    match c.next_raw(-6, nothing(), &shim()) {
        Err(Error::Io(s)) => assert_eq!(s, "dl_read_frame failed (code -6)"),
        other => panic!("{other:?}"),
    }
}

#[test]
fn timeouts_are_clamped_to_what_the_shim_counts() {
    assert_eq!(shim_timeout(READ_TIMEOUT_MS), 1_000);
    assert_eq!(shim_timeout(0), 0);
    assert_eq!(shim_timeout(0x7FFF_FFFF), i32::MAX);
    assert_eq!(shim_timeout(0x8000_0000), i32::MAX);
    assert_eq!(shim_timeout(u32::MAX), i32::MAX);
}

#[test]
fn every_read_of_an_open_waits_one_second() {
    let o = opening(0);
    assert_eq!(o.read_wait(), 1_000);
    let o = waiting(o.handle_read(0, video(720, 576, (25, 1), 0), &shim(), MS));
    assert_eq!(o.read_wait(), 1_000);
}

#[test]
fn a_blocking_read_takes_the_kept_frame_and_then_waits_one_second() {
    let mut c = opened(video(1920, 1080, (50, 1), 7));
    match c.read_frame_step() {
        ReadStep::Frame(CapturedFrame::Video(v)) => assert_eq!((v.width, v.pts), (1920, 7)),
        other => panic!("{other:?}"),
    }
    assert!(matches!(c.read_frame_step(), ReadStep::Wait { timeout_ms: 1_000 }));
    assert!(matches!(c.read_frame_step(), ReadStep::Wait { timeout_ms: 1_000 }));
}

#[test]
fn rates_are_exact_up_to_32_bits() {
    let mut c = opened(video(1920, 1080, (0xFFFF_FFFF, 1_001), 0));
    assert_eq!(c.video_frame_rate(), (0xFFFF_FFFF, 1_001));
    assert!(c.next_raw(0, video(1920, 1080, (0x1_0000_0000, 0x1_0000_0002), 1), &shim()).is_ok());
    assert_eq!(c.video_frame_rate(), (1, 2));
}

#[test]
fn a_blocking_read_outlasts_short_silence_only() {
    let c = opened(video(720, 576, (25, 1), 1));
    assert!(c.read_frame(3, 3, Ok(None)).is_none());
    assert!(c.read_frame(3, 2 + NO_FRAME_TIMEOUT_NS, Ok(None)).is_none());
    match c.read_frame(3, 3 + NO_FRAME_TIMEOUT_NS, Ok(None)) {
        Some(Err(Error::NoSignal(s))) => assert_eq!(s, "DeckLink Quad (1)"),
        other => panic!("{other:?}"),
    }
    // Near the end of the clock nothing overflows.
    assert!(c.read_frame(u128::MAX, u128::MAX, Ok(None)).is_none());
    assert!(c.read_frame(u128::MAX, 0, Ok(None)).is_none());
}

#[test]
fn a_blocking_read_returns_frames_and_errors_at_once() {
    let mut c = opened(video(720, 576, (25, 1), 1));
    let read = c.next_raw(0, video(720, 576, (25, 1), 5), &shim());
    match c.read_frame(0, 100 * SECOND, read) {
        Some(Ok(CapturedFrame::Video(v))) => assert_eq!(v.pts, 5),
        other => panic!("{other:?}"),
    }
    assert!(matches!(c.read_frame(0, 0, Err(Error::Eof)), Some(Err(Error::Eof))));
}

#[test]
fn only_success_delivers_a_frame() {
    assert!(frame_delivered(0, &shim()));
    for rc in [1, -1, -2, -3, -4, -5, 7] {
        assert!(!frame_delivered(rc, &shim()));
    }
}

#[test]
fn each_read_outcome_has_its_own_code() {
    let mut c = opened(video(720, 576, (25, 1), 1));
    for rc in -10..10 {
        let r = c.next_raw(rc, video(720, 576, (25, 1), 1), &shim());
        assert_eq!(matches!(r, Ok(Some(_))), rc == 0);
        assert_eq!(matches!(r, Ok(None)), rc == 1);
        assert_eq!(matches!(r, Err(Error::Eof)), rc == -4);
        assert_eq!(matches!(r, Err(Error::Io(_))), ![0, 1, -4].contains(&rc));
    }
}

#[test]
fn the_rate_is_the_latest_that_was_told() {
    let mut c = opened(video(720, 576, (0, 1), 1));
    assert_eq!(c.video_frame_rate(), (1, 1));
    c.read_frame_timeout(0);
    c.next_raw(0, video(720, 576, (50, 1), 2), &shim()).unwrap();
    c.next_raw(0, video(720, 576, (30_000, 1_001), 3), &shim()).unwrap();
    c.next_raw(0, video(720, 576, (0, 1), 4), &shim()).unwrap();
    assert!(c.next_raw(-4, video(720, 576, (24, 1), 5), &shim()).is_err());
    assert_eq!(c.video_frame_rate(), (30_000, 1_001));
}
