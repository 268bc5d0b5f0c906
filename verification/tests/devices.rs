use decklink::enumeration::describe_devices;
use decklink::text::white_space;
use decklink::{
    api_available, enumerate_devices, model_name, parse_sdi_channel, resolve_physical_ports,
    DecklinkDeviceInfo, RawDeviceName, ShimConstants,
};

/// An enumeration before the connectors are resolved.
fn devices(names: &[&str]) -> Vec<DecklinkDeviceInfo> {
    names
        .iter()
        .enumerate()
        .map(|(i, n)| DecklinkDeviceInfo {
            index: i as u32,
            name: (*n).to_string(),
            sdi_channel: parse_sdi_channel(n),
            physical_port: None,
        })
        .collect()
}

fn quad8() -> Vec<DecklinkDeviceInfo> {
    devices(&[
        "DeckLink Quad (1)",
        "DeckLink Quad (2)",
        "DeckLink Quad (3)",
        "DeckLink Quad (4)",
        "DeckLink Quad (5)",
        "DeckLink Quad (6)",
        "DeckLink Quad (7)",
        "DeckLink Quad (8)",
    ])
}

#[test]
fn parses_connector_index() {
    assert_eq!(parse_sdi_channel("DeckLink Quad (3)"), Some(3));
    assert_eq!(parse_sdi_channel("DeckLink Duo 2"), None);
    assert_eq!(parse_sdi_channel("Weird (x)"), None);
}

#[test]
fn strips_subdevice_suffix_from_model() {
    assert_eq!(model_name("DeckLink Quad (3)"), "DeckLink Quad");
    assert_eq!(model_name("DeckLink Duo 2"), "DeckLink Duo 2");
    assert_eq!(model_name("DeckLink 8K Pro (1)"), "DeckLink 8K Pro");
}

#[test]
fn maps_quad8_software_channel_to_physical_bnc() {
    let mut d = quad8();
    resolve_physical_ports(&mut d);
    // Physical 1..8 are software 1, 5, 2, 6, 3, 7, 4, 8, so the operator
    // patching BNC 2 wants "(5)", not "(2)".
    let got: Vec<Option<u8>> = d.iter().map(|d| d.physical_port).collect();
    assert_eq!(
        got,
        vec![
            Some(1),
            Some(3),
            Some(5),
            Some(7),
            Some(2),
            Some(4),
            Some(6),
            Some(8)
        ]
    );
}

#[test]
fn quad8_pairs_share_adjacent_connectors() {
    let mut d = quad8();
    resolve_physical_ports(&mut d);
    let port = |ch: u8| {
        d.iter()
            .find(|d| d.sdi_channel == Some(ch))
            .and_then(|d| d.physical_port)
            .unwrap()
    };
    // Sub-devices pair as (1,5), (2,6), (3,7), (4,8), each pair owning two
    // adjacent BNCs.
    for (a, b) in [(1, 5), (2, 6), (3, 7), (4, 8)] {
        assert_eq!(port(b), port(a) + 1, "pair ({a},{b}) is not adjacent");
    }
}

#[test]
fn unverified_layouts_say_nothing() {
    // Unknown model: no mapping has been verified, so no claim.
    let mut duo = devices(&["DeckLink Duo (1)", "DeckLink Duo (2)"]);
    resolve_physical_ports(&mut duo);
    assert!(duo.iter().all(|d| d.physical_port.is_none()));

    // A Quad that is not all there: the layout is only known whole.
    let mut partial = devices(&["DeckLink Quad (1)", "DeckLink Quad (2)"]);
    resolve_physical_ports(&mut partial);
    assert!(partial.iter().all(|d| d.physical_port.is_none()));

    // Eight of them, but the channels are not 1..=8.
    let mut odd = quad8();
    odd[7].name = "DeckLink Quad (9)".to_string();
    odd[7].sdi_channel = Some(9);
    resolve_physical_ports(&mut odd);
    assert!(odd.iter().all(|d| d.physical_port.is_none()));
}

#[test]
fn a_quad_beside_another_card_still_maps() {
    let mut d = quad8();
    d.extend(devices(&["DeckLink Duo (1)"]));
    resolve_physical_ports(&mut d);
    assert_eq!(d[4].physical_port, Some(2)); // software (5) is BNC 2
    assert_eq!(d[8].physical_port, None); // the Duo is not ours to claim
}

#[test]
fn connector_index_edge_cases() {
    assert_eq!(parse_sdi_channel("Quad ( 7 )"), Some(7));
    assert_eq!(parse_sdi_channel("Quad (+5)"), Some(5));
    assert_eq!(parse_sdi_channel("Quad (007)"), Some(7));
    assert_eq!(parse_sdi_channel("Quad (255)"), Some(255));
    assert_eq!(parse_sdi_channel("Quad (256)"), None);
    assert_eq!(parse_sdi_channel("Quad (99999999999999999999)"), None);
    assert_eq!(parse_sdi_channel("Quad (-1)"), None);
    assert_eq!(parse_sdi_channel("Quad (1 2)"), None);
    assert_eq!(parse_sdi_channel("Quad (+)"), None);
    assert_eq!(parse_sdi_channel("Quad ()"), None);
    assert_eq!(parse_sdi_channel(")("), None);
    assert_eq!(parse_sdi_channel("(1) (2)"), Some(2));
    assert_eq!(parse_sdi_channel("(1)2)"), None);
    // Only a trailing group counts.
    assert_eq!(parse_sdi_channel("Quad (3) rear"), None);
    assert_eq!(parse_sdi_channel("DeckLink (3) Mini"), None);
    assert_eq!(parse_sdi_channel("Quad (3) \t"), Some(3));
    assert_eq!(parse_sdi_channel("Quad(3)"), Some(3));
    assert_eq!(parse_sdi_channel("Qu\u{e4}d (\u{2003}4\u{a0})"), Some(4));
    assert_eq!(parse_sdi_channel(""), None);
}

#[test]
fn model_edge_cases() {
    assert_eq!(model_name("  DeckLink Quad  "), "DeckLink Quad");
    assert_eq!(model_name("DeckLink Quad)"), "DeckLink Quad)");
    assert_eq!(model_name("DeckLink Quad (3) rear"), "DeckLink Quad (3) rear");
    assert_eq!(model_name(" DeckLink (3) Mini "), "DeckLink (3) Mini");
    assert_eq!(model_name("DeckLink Quad (3) \t"), "DeckLink Quad");
    assert_eq!(model_name("Quad(3)"), "Quad");
    assert_eq!(model_name("Qu\u{e4}d\u{3000}(1)"), "Qu\u{e4}d");
    assert_eq!(model_name("(1)"), "");
    assert_eq!(model_name(""), "");
    assert_eq!(model_name("a)b(c"), "a)b(c");
}

#[test]
fn name_parts_agree_with_the_standard_library() {
    let pieces = ["", " ", "(", ")", "+", "-", "0", "12", "300", "x", "\u{2009}", "\u{e9}"];
    for a in pieces {
        for b in pieces {
            for c in pieces {
                for d in pieces {
                    let name = format!("{a}{b}({c}{d})");
                    let close = name.rfind(')').unwrap();
                    let open = name[..close].rfind('(').unwrap();
                    let channel: Option<u8> = name[open + 1..close].trim().parse().ok();
                    assert_eq!(parse_sdi_channel(&name), channel, "{name:?}");
                    assert_eq!(model_name(&name), name[..open].trim(), "{name:?}");
                }
            }
        }
    }
}

#[test]
fn white_space_is_unicodes() {
    for n in 0..=0x10FFFF_u32 {
        if let Some(c) = char::from_u32(n) {
            assert_eq!(white_space(c), c.is_whitespace(), "U+{n:04X}");
        }
    }
}

#[test]
fn every_channel_round_trips_through_its_name() {
    for n in 0..=255_u8 {
        let name = format!("DeckLink Studio ({n})");
        assert_eq!(parse_sdi_channel(&name), Some(n));
        assert_eq!(model_name(&name), "DeckLink Studio");
    }
}

#[test]
fn two_quads_in_one_host_say_nothing() {
    let mut d = quad8();
    d.extend(quad8());
    resolve_physical_ports(&mut d);
    assert!(d.iter().all(|d| d.physical_port.is_none()));
}

#[test]
fn a_repeated_channel_is_no_complete_card() {
    let mut d = quad8();
    d[2].sdi_channel = Some(4);
    resolve_physical_ports(&mut d);
    assert!(d.iter().all(|d| d.physical_port.is_none()));
}

#[test]
fn order_of_enumeration_does_not_matter_to_the_ports() {
    let mut d = quad8();
    d.reverse();
    resolve_physical_ports(&mut d);
    let got: Vec<Option<u8>> = d.iter().map(|d| d.physical_port).collect();
    assert_eq!(
        got,
        vec![Some(8), Some(6), Some(4), Some(2), Some(7), Some(5), Some(3), Some(1)]
    );
}

#[test]
fn resolving_twice_is_resolving_once() {
    let mut once = quad8();
    resolve_physical_ports(&mut once);
    let mut twice = once.clone();
    resolve_physical_ports(&mut twice);
    assert_eq!(once, twice);
}

fn shim() -> ShimConstants {
    ShimConstants {
        ok: 0,
        timeout: 1,
        err_no_device: -1,
        err_unsupported: -2,
        err_param: -3,
        err_stopped: -4,
        err_time: -5,
        pixfmt_uyvy422: 10,
        pixfmt_v210: 11,
        frame_video: 20,
    }
}

fn answer(rc: i32, name: &[u8]) -> RawDeviceName {
    let mut buffer = name.to_vec();
    buffer.resize(256, 0);
    RawDeviceName { rc, buffer }
}

#[test]
fn enumeration_skips_devices_without_a_name() {
    let answers = vec![
        answer(0, b"DeckLink Duo (1)"),
        answer(-1, b"stale"),
        answer(0, "Qu\u{e4}d".as_bytes()),
    ];
    let d = enumerate_devices(&answers, &shim());
    assert_eq!(d.len(), 2);
    assert_eq!(d[0].index, 0);
    assert_eq!(d[0].name, "DeckLink Duo (1)");
    assert_eq!(d[0].sdi_channel, Some(1));
    assert_eq!(d[0].physical_port, None);
    assert_eq!(d[1].index, 2);
    assert_eq!(d[1].name, "Qu\u{e4}d");
    assert_eq!(d[1].sdi_channel, None);
}

#[test]
fn enumeration_resolves_a_complete_quad() {
    let answers: Vec<RawDeviceName> =
        (1..=8).map(|n| answer(0, format!("DeckLink Quad ({n})").as_bytes())).collect();
    let ports: Vec<Option<u8>> =
        enumerate_devices(&answers, &shim()).iter().map(|d| d.physical_port).collect();
    assert_eq!(
        ports,
        vec![Some(1), Some(3), Some(5), Some(7), Some(2), Some(4), Some(6), Some(8)]
    );
}

#[test]
fn enumeration_without_answers_is_empty() {
    assert!(enumerate_devices(&Vec::new(), &shim()).is_empty());
    assert!(enumerate_devices(&vec![answer(-7, b"x"), answer(1, b"y")], &shim()).is_empty());
}

#[test]
fn names_end_at_the_first_zero_byte() {
    let answers = vec![
        RawDeviceName { rc: 0, buffer: b"Mini\0Recorder\0".to_vec() },
        RawDeviceName { rc: 0, buffer: b"Mini".to_vec() },
        RawDeviceName { rc: 0, buffer: vec![0] },
    ];
    let names: Vec<String> =
        enumerate_devices(&answers, &shim()).into_iter().map(|d| d.name).collect();
    assert_eq!(names, vec!["Mini", "Mini", ""]);
}

#[test]
fn bytes_that_are_not_utf8_are_replaced() {
    let d = enumerate_devices(&vec![answer(0, b"Duo \xff(2)")], &shim());
    assert_eq!(d[0].name, "Duo \u{fffd}(2)");
    assert_eq!(d[0].sdi_channel, Some(2));
}

#[test]
fn names_describe_devices() {
    let d = describe_devices(vec![None, Some("DeckLink 8K Pro (4)".to_string()), None]);
    assert_eq!(
        d,
        vec![DecklinkDeviceInfo {
            index: 1,
            name: "DeckLink 8K Pro (4)".to_string(),
            sdi_channel: Some(4),
            physical_port: None,
        }]
    );
}

#[test]
fn the_api_is_available_when_the_shim_says_so() {
    assert!(!api_available(0));
    assert!(api_available(1));
    assert!(api_available(-1));
}
