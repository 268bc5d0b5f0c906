use decklink::status::shim_index;
use decklink::{
    device_status, fourcc_to_string, tri_to_bool, DeviceStatus, Error, RawDeviceStatus,
    ShimConstants,
};

#[test]
fn decodes_status_fourcc() {
    // Values observed from a DeckLink Quad 2 on a live 1080i50 source.
    assert_eq!(fourcc_to_string(1_214_854_448).as_deref(), Some("Hi50"));
    assert_eq!(fourcc_to_string(1_916_219_449).as_deref(), Some("r709"));
    assert_eq!(fourcc_to_string(1_818_456_940).as_deref(), Some("lcsl"));
    // Zero is the "card declined to answer" sentinel, not a mode.
    assert_eq!(fourcc_to_string(0), None);
    // Non-printable bytes must not reach the operator as mojibake.
    assert_eq!(fourcc_to_string(1), None);
    // Modes shorter than 4 chars are space-padded by the SDK ("pal ").
    assert_eq!(fourcc_to_string(0x7061_6C20).as_deref(), Some("pal"));
    // `bmdModeUnknown` ('iunk') is the card saying nothing, not a raster.
    assert_eq!(fourcc_to_string(0x6975_6E6B), None);
}

#[test]
fn tri_state_never_confuses_unknown_with_false() {
    assert_eq!(tri_to_bool(1), Some(true));
    assert_eq!(tri_to_bool(0), Some(false));
    assert_eq!(tri_to_bool(-1), None);
}

#[test]
fn only_zero_and_one_are_answers() {
    assert_eq!(tri_to_bool(2), None);
    assert_eq!(tri_to_bool(i32::MIN), None);
}

#[test]
fn fourcc_edge_cases() {
    // Four spaces are printable, and nothing is left of them.
    assert_eq!(fourcc_to_string(0x2020_2020).as_deref(), Some(""));
    assert_eq!(fourcc_to_string(0x2041_4220).as_deref(), Some("AB"));
    assert_eq!(fourcc_to_string(0x4120_2042).as_deref(), Some("A  B"));
    // `~` is the last printable byte, DEL is not one.
    assert_eq!(fourcc_to_string(0x7E7E_7E7E).as_deref(), Some("~~~~"));
    assert_eq!(fourcc_to_string(0x7E7E_7E7F), None);
    assert_eq!(fourcc_to_string(0x1F41_4141), None);
    // A value that four bytes do not hold is no code, whatever its low bytes.
    assert_eq!(fourcc_to_string(0x1_4869_3530), None);
    assert_eq!(fourcc_to_string(0x0000_00FF_4869_3530), None);
    assert_eq!(fourcc_to_string(0x4869_3530 - 0x1_0000_0000), None);
    assert_eq!(fourcc_to_string(-1), None);
    assert_eq!(fourcc_to_string(i64::MIN), None);
}

#[test]
fn fourcc_codes_round_trip() {
    for code in ["Hi50", "r709", "uppr", "pal", "2k", "x"] {
        let padded = format!("{code:<4}");
        let v = padded.bytes().fold(0_i64, |v, b| v * 256 + i64::from(b));
        assert_eq!(fourcc_to_string(v).as_deref(), Some(code));
    }
}

fn shim() -> ShimConstants {
    ShimConstants {
        ok: 0,
        timeout: 1,
        err_no_device: -1,
        err_unsupported: -2,
        err_param: -3,
        err_stopped: -4,
        err_time: -5,
        pixfmt_uyvy422: 10,
        pixfmt_v210: 11,
        frame_video: 20,
    }
}

fn silent() -> RawDeviceStatus {
    RawDeviceStatus {
        signal_locked: -1,
        reference_locked: -1,
        ancillary_locked: -1,
        busy: -1,
        detected_mode: 0,
        detected_colorspace: 0,
        detected_field_dominance: 0,
        sdi_link_config: 0,
        reference_mode: 0x6975_6E6B,
        detected_dynamic_range: -1,
        pcie_link_speed: -1,
        pcie_link_width: -1,
    }
}

#[test]
fn a_silent_card_says_nothing() {
    let status = device_status(0, 0, silent(), &shim()).unwrap();
    assert_eq!(status, DeviceStatus::default());
    assert_eq!(status.signal_locked, None);
    assert_eq!(status.reference_mode, None);
    assert_eq!(status.pcie_link_width, None);
}

#[test]
fn a_locked_input_is_reported_field_by_field() {
    let raw = RawDeviceStatus {
        signal_locked: 1,
        reference_locked: 0,
        ancillary_locked: -1,
        busy: 1,
        detected_mode: 1_214_854_448,
        detected_colorspace: 1_916_219_449,
        detected_field_dominance: 0x7570_7072,
        sdi_link_config: 1_818_456_940,
        reference_mode: 0x7061_6C20,
        detected_dynamic_range: 0,
        pcie_link_speed: 2,
        pcie_link_width: 4,
    };
    let status = device_status(3, 0, raw, &shim()).unwrap();
    assert_eq!(
        status,
        DeviceStatus {
            signal_locked: Some(true),
            reference_locked: Some(false),
            ancillary_locked: None,
            busy: Some(true),
            detected_mode: Some("Hi50".to_string()),
            detected_colorspace: Some("r709".to_string()),
            detected_field_dominance: Some("uppr".to_string()),
            sdi_link_config: Some("lcsl".to_string()),
            reference_mode: Some("pal".to_string()),
            detected_dynamic_range: Some(0),
            pcie_link_speed: Some(2),
            pcie_link_width: Some(4),
        }
    );
}

#[test]
fn status_errors() {
    match device_status(12, -1, silent(), &shim()) {
        Err(Error::DeviceNotFound(s)) => assert_eq!(s, "device index 12"),
        other => panic!("{other:?}"),
    }
    match device_status(4_294_967_295, -1, silent(), &shim()) {
        Err(Error::DeviceNotFound(s)) => assert_eq!(s, "device index 4294967295"),
        other => panic!("{other:?}"),
    }
    match device_status(0, -2, silent(), &shim()) {
        Err(Error::Unsupported(s)) => assert_eq!(s, "device does not implement IDeckLinkStatus"),
        other => panic!("{other:?}"),
    }
    match device_status(0, -2_147_483_648, silent(), &shim()) {
        Err(Error::Io(s)) => assert_eq!(s, "dl_device_status_get failed: -2147483648"),
        other => panic!("{other:?}"),
    }
    match device_status(0, 1, silent(), &shim()) {
        Err(Error::Io(s)) => assert_eq!(s, "dl_device_status_get failed: 1"),
        other => panic!("{other:?}"),
    }
}

#[test]
fn the_shim_counts_in_signed_numbers() {
    assert_eq!(shim_index(0), 0);
    assert_eq!(shim_index(7), 7);
    assert_eq!(shim_index(0x7FFF_FFFF), i32::MAX);
    assert_eq!(shim_index(0x8000_0000), i32::MIN);
    assert_eq!(shim_index(0xFFFF_FFFF), -1);
}

#[test]
fn each_status_outcome_has_its_own_code() {
    for rc in -10..10 {
        let r = device_status(0, rc, silent(), &shim());
        assert_eq!(r.is_ok(), rc == 0);
        assert_eq!(matches!(r, Err(Error::DeviceNotFound(_))), rc == -1);
        assert_eq!(matches!(r, Err(Error::Unsupported(_))), rc == -2);
        assert_eq!(matches!(r, Err(Error::Io(_))), ![0, -1, -2].contains(&rc));
    }
}
