use decklink::{
    DecklinkPixelFormat, DecklinkPlayout, DecklinkPlayoutConfig, Error, RawPlayoutInfo,
    ShimConstants,
};

fn shim() -> ShimConstants {
    ShimConstants {
        ok: 0,
        timeout: 1,
        err_no_device: -1,
        err_unsupported: -2,
        err_param: -3,
        err_stopped: -4,
        err_time: -5,
        pixfmt_uyvy422: 10,
        pixfmt_v210: 11,
        frame_video: 20,
    }
}

fn config() -> DecklinkPlayoutConfig {
    DecklinkPlayoutConfig {
        device: "DeckLink Quad (2)".to_string(),
        format: "Hi50".to_string(),
        width: 0,
        height: 0,
        frame_rate_num: 0,
        frame_rate_den: 0,
        pixel_format: DecklinkPixelFormat::Uyvy422,
        audio_channels: 2,
        audio_sample_rate: 48_000,
    }
}

fn hd() -> RawPlayoutInfo {
    RawPlayoutInfo { width: 1920, height: 1080, row_bytes: 3840, fr_num: 25_000, fr_den: 1_000 }
}

fn playout(cfg: &DecklinkPlayoutConfig) -> DecklinkPlayout {
    match DecklinkPlayout::open(cfg, 0, hd(), &shim()) {
        Ok(p) => p,
        Err(e) => panic!("{e:?}"),
    }
}

fn refused(cfg: &DecklinkPlayoutConfig, rc: i32) -> Error {
    match DecklinkPlayout::open(cfg, rc, hd(), &shim()) {
        Ok(_) => panic!("opened"),
        Err(e) => e,
    }
}

#[test]
fn an_opened_playout_reports_its_mode() {
    let p = playout(&config());
    assert_eq!(p.video_dimensions(), (1920, 1080));
    assert_eq!(p.video_frame_rate(), (25_000, 1_000));
    assert_eq!(p.row_bytes(), 3840);
    assert_eq!(p.audio_channels(), 2);
    let odd = RawPlayoutInfo { fr_num: 0x1_0000_0007, fr_den: -4, ..hd() };
    let p = DecklinkPlayout::open(&config(), 0, odd, &shim());
    assert!(matches!(p.map(|p| p.video_frame_rate()), Ok((7, 1))));
}

#[test]
fn playout_requests_8_bit_video() {
    let r = DecklinkPlayout::open_request(&config(), &shim()).unwrap();
    assert_eq!(r.device, "DeckLink Quad (2)");
    assert_eq!(r.mode, "Hi50");
    assert_eq!(r.pixel_format, 10);
    assert_eq!(r.audio_channels, 2);
}

#[test]
fn configurations_that_are_refused() {
    let cfg = DecklinkPlayoutConfig { pixel_format: DecklinkPixelFormat::V210, ..config() };
    match DecklinkPlayout::open_request(&cfg, &shim()) {
        Err(Error::Unsupported(s)) => {
            assert_eq!(s, "v210 (10-bit) playout is not implemented yet; use uyvy422")
        }
        other => panic!("{other:?}"),
    }
    let cfg = DecklinkPlayoutConfig { device: "\0".to_string(), ..config() };
    match DecklinkPlayout::open_request(&cfg, &shim()) {
        Err(Error::OpenFailed(s)) => assert_eq!(s, "device name contains NUL"),
        other => panic!("{other:?}"),
    }
    let cfg = DecklinkPlayoutConfig { format: "Hi50\0".to_string(), ..config() };
    match DecklinkPlayout::open_request(&cfg, &shim()) {
        Err(Error::OpenFailed(s)) => assert_eq!(s, "mode contains NUL"),
        other => panic!("{other:?}"),
    }
    let cfg = DecklinkPlayoutConfig { audio_channels: 6, ..config() };
    match DecklinkPlayout::open_request(&cfg, &shim()) {
        Err(Error::Unsupported(s)) => {
            assert_eq!(s, "audio_channels must be 0, 2, 8 or 16 (got 6)")
        }
        other => panic!("{other:?}"),
    }
    // An open refuses the same, whatever the shim would have said.
    match refused(&cfg, 0) {
        Error::Unsupported(s) => assert_eq!(s, "audio_channels must be 0, 2, 8 or 16 (got 6)"),
        e => panic!("{e:?}"),
    }
}

#[test]
fn sdi_channel_counts_are_accepted() {
    for n in 0..=255_u8 {
        let cfg = DecklinkPlayoutConfig { audio_channels: n, ..config() };
        let ok = DecklinkPlayout::open_request(&cfg, &shim()).is_ok();
        assert_eq!(ok, n == 0 || n == 2 || n == 8 || n == 16, "{n}");
    }
}

#[test]
fn opens_that_the_shim_refuses() {
    match refused(&config(), -1) {
        Error::DeviceNotFound(s) => assert_eq!(s, "DeckLink Quad (2)"),
        e => panic!("{e:?}"),
    }
    match refused(&config(), -2) {
        Error::Unsupported(s) => assert_eq!(
            s,
            "device 'DeckLink Quad (2)' does not support playout of mode 'Hi50' at uyvy422"
        ),
        e => panic!("{e:?}"),
    }
    match refused(&config(), -3) {
        Error::OpenFailed(s) => {
            assert_eq!(s, "invalid playout mode 'Hi50' (must be a 4-char DeckLink mode FourCC)")
        }
        e => panic!("{e:?}"),
    }
    match refused(&config(), -77) {
        Error::OpenFailed(s) => assert_eq!(s, "dl_playout_open failed: -77"),
        e => panic!("{e:?}"),
    }
    assert!(DecklinkPlayout::open_answer(&config(), 0, &shim()).is_ok());
    assert!(DecklinkPlayout::open_answer(&config(), 1, &shim()).is_err());
}

#[test]
fn content_must_match_the_mode() {
    let cfg = DecklinkPlayoutConfig { width: 1920, height: 1080, ..config() };
    assert_eq!(playout(&cfg).video_dimensions(), (1920, 1080));
    let cfg = DecklinkPlayoutConfig { width: 0, height: 1080, ..config() };
    assert_eq!(playout(&cfg).video_dimensions(), (1920, 1080));
    for (width, height) in [(1280, 1080), (1920, 720), (0, 720), (1280, 0)] {
        let cfg = DecklinkPlayoutConfig { width, height, ..config() };
        match refused(&cfg, 0) {
            Error::Unsupported(s) => assert_eq!(
                s,
                format!(
                    "mode 'Hi50' is 1920x1080 but the caller's video is {width}x{height} \u{2014} \
                     pick the mode matching the content"
                )
            ),
            e => panic!("{e:?}"),
        }
    }
}

#[test]
fn video_writes() {
    let p = playout(&config());
    let data = [0_u8; 5];
    assert!(matches!(p.write_video(&data, 0, 0, &shim()), Ok(())));
    assert!(matches!(p.write_video(&data, 0, 1, &shim()), Err(Error::Busy)));
    assert!(matches!(p.write_video(&data, 0, -4, &shim()), Err(Error::Eof)));
    match p.write_video(&data, -3_600, -5, &shim()) {
        Err(Error::TimeNotMonotonic(s)) => assert_eq!(
            s,
            "frame at -3600 does not advance the playout timeline on 'DeckLink Quad (2)'"
        ),
        other => panic!("{other:?}"),
    }
    match p.write_video(&data, 0, -3, &shim()) {
        Err(Error::Io(s)) => assert_eq!(
            s,
            "frame size mismatch: got 5 bytes, mode wants 4147200 (3840x1080 rows)"
        ),
        other => panic!("{other:?}"),
    }
    match p.write_video(&data, 0, -1, &shim()) {
        Err(Error::Io(s)) => assert_eq!(s, "playout write failed on 'DeckLink Quad (2)': -1"),
        other => panic!("{other:?}"),
    }
    match p.write_video(&data, i64::MIN, -5, &shim()) {
        Err(Error::TimeNotMonotonic(s)) => {
            assert!(s.starts_with("frame at -9223372036854775808 does"))
        }
        other => panic!("{other:?}"),
    }
}

#[test]
fn audio_writes() {
    let p = playout(&config());
    let block = [0_i32; 6];
    assert!(matches!(p.audio_frames(&block), Ok(3)));
    assert!(matches!(p.write_audio(&block, 0, &shim()), Ok(())));
    assert!(matches!(p.write_audio(&block, -4, &shim()), Err(Error::Eof)));
    match p.write_audio(&block, -2, &shim()) {
        Err(Error::Unsupported(s)) => assert_eq!(s, "playout audio not enabled"),
        other => panic!("{other:?}"),
    }
    match p.write_audio(&block, 1, &shim()) {
        Err(Error::Io(s)) => assert_eq!(s, "playout audio write failed on 'DeckLink Quad (2)': 1"),
        other => panic!("{other:?}"),
    }
}

#[test]
fn audio_blocks_that_are_refused() {
    let p = playout(&config());
    for rc in [0, 1, -2, -4] {
        match p.write_audio(&[0; 5], rc, &shim()) {
            Err(Error::Io(s)) => assert_eq!(
                s,
                "audio block of 5 values is not a whole number of 2-channel frames"
            ),
            other => panic!("{other:?}"),
        }
        match p.write_audio(&[], rc, &shim()) {
            Err(Error::Io(s)) => assert_eq!(
                s,
                "audio block of 0 values is not a whole number of 2-channel frames"
            ),
            other => panic!("{other:?}"),
        }
    }
    let mute = playout(&DecklinkPlayoutConfig { audio_channels: 0, ..config() });
    match mute.write_audio(&[0; 4], 0, &shim()) {
        Err(Error::Unsupported(s)) => {
            assert_eq!(s, "playout was opened without audio (audio_channels == 0)")
        }
        other => panic!("{other:?}"),
    }
    assert!(mute.audio_frames(&[]).is_err());
}

#[test]
fn audio_frames_hold_one_value_per_channel() {
    for n in [2_u8, 8, 16] {
        let p = playout(&DecklinkPlayoutConfig { audio_channels: n, ..config() });
        for frames in 1..5_usize {
            let block = vec![0_i32; frames * usize::from(n)];
            assert!(matches!(p.audio_frames(&block), Ok(k) if k as usize == frames));
        }
    }
}

#[test]
fn a_time_that_does_not_advance_is_refused() {
    let p = playout(&config());
    let frame = vec![0_u8; p.row_bytes() * 1080];
    assert!(p.write_video(&frame, 7_200, 0, &shim()).is_ok());
    for t1 in [7_200, 3_600] {
        match p.write_video(&frame, t1, -5, &shim()) {
            Err(Error::TimeNotMonotonic(s)) => assert_eq!(
                s,
                format!("frame at {t1} does not advance the playout timeline on 'DeckLink Quad (2)'")
            ),
            other => panic!("{other:?}"),
        }
    }
}

#[test]
fn each_video_outcome_has_its_own_code() {
    let p = playout(&config());
    for rc in -10..10 {
        let r = p.write_video(&[], 0, rc, &shim());
        assert_eq!(r.is_ok(), rc == 0);
        assert_eq!(matches!(r, Err(Error::Busy)), rc == 1);
        assert_eq!(matches!(r, Err(Error::Eof)), rc == -4);
        assert_eq!(matches!(r, Err(Error::TimeNotMonotonic(_))), rc == -5);
        assert_eq!(matches!(r, Err(Error::Io(_))), ![0, 1, -4, -5].contains(&rc));
    }
}

#[test]
fn each_audio_outcome_has_its_own_code() {
    let p = playout(&config());
    for rc in -10..10 {
        let r = p.write_audio(&[0, 0], rc, &shim());
        assert_eq!(r.is_ok(), rc == 0);
        assert_eq!(matches!(r, Err(Error::Eof)), rc == -4);
        assert_eq!(matches!(r, Err(Error::Unsupported(_))), rc == -2);
        assert_eq!(matches!(r, Err(Error::Io(_))), ![0, -4, -2].contains(&rc));
    }
}

#[test]
fn each_open_outcome_has_its_own_code() {
    for rc in -10..10 {
        let r = DecklinkPlayout::open_answer(&config(), rc, &shim());
        assert_eq!(r.is_ok(), rc == 0);
        assert_eq!(matches!(r, Err(Error::DeviceNotFound(_))), rc == -1);
        assert_eq!(matches!(r, Err(Error::Unsupported(_))), rc == -2);
        assert_eq!(matches!(r, Err(Error::OpenFailed(_))), ![0, -1, -2].contains(&rc));
    }
}

#[test]
fn a_frame_is_handed_over_as_it_is() {
    let p = playout(&config());
    let frame = [1u8, 2, 3];
    for t in [i64::MIN, -1, 0, 3_600, i64::MAX] {
        let w = p.video_write(&frame, t);
        assert_eq!(w.data, &frame[..]);
        assert_eq!(w.stream_time_90k, t);
    }
}

#[test]
fn a_skipped_frame_leaves_the_others_at_their_times() {
    let p = playout(&config());
    let frame = [0u8; 4];
    let times = [0i64, 3_600, 7_200, 10_800];
    let answers = [0, 1, -5, 0];
    for (t, rc) in times.into_iter().zip(answers) {
        assert_eq!(p.video_write(&frame, t).stream_time_90k, t);
        assert_eq!(p.write_video(&frame, t, rc, &shim()).is_ok(), rc == 0);
    }
}

#[test]
fn an_audio_block_is_handed_over_whole_at_its_time() {
    let p = playout(&config());
    let block = [1i32, -2, 3, -4, 5, -6];
    let w = p.audio_write(&block, 7_200).unwrap_or_else(|e| panic!("{e:?}"));
    assert_eq!(w.samples, &block[..]);
    assert_eq!(w.sample_frames, 3);
    assert_eq!(w.stream_time_90k, 7_200);
    match p.audio_write(&block[..5], 7_200) {
        Err(Error::Io(s)) => assert_eq!(
            s,
            "audio block of 5 values is not a whole number of 2-channel frames"
        ),
        _ => panic!("handed over"),
    }
}
