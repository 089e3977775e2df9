use xbelite2::cli::{
    bt_report_or_idle, bt_report_summary, calibration_values, color_arg, deadzone_values,
    is_raw_report, name_write_confirmed, parse_unsigned_text, prefixed_report_len, profile_index,
    remap_arg, remap_args, u8_arg_or, RemapArgError,
};
use xbelite2::devices::{
    accept_evdev, accept_hidraw, contains_text, evdev_name_accepted, hidraw_name_accepted, InputId,
};
use xbelite2::gip_types::GipButton;
use xbelite2::legacy::{
    legacy_color_page, legacy_deadzone_page, legacy_mapping, legacy_remap_page,
    legacy_reset_remaps_page, legacy_vibration_page,
};
use xbelite2::name::{name_from_response, name_payload, name_write_payload};
use xbelite2::rumble::{bt_rumble_packet, gip_rumble_packet};
use xbelite2::text::{decimal_string, push_hex};
use xbelite2::tools::{format_code, format_event, format_test_code, gip_command_name, metadata_guid_offsets};
use xbelite2::transform::OutputEvent;
use xbelite2::types::GamepadState;
use xbelite2::uinput::{decode_event, event_stream, gamepad_axes, gamepad_keys, setup_bytes, EffectTable, FfEffect};

#[test]
fn unsigned_parsing_matches_from_str() {
    assert_eq!(parse_unsigned_text("42", 255), Some(42));
    assert_eq!(parse_unsigned_text("+7", 255), Some(7));
    assert_eq!(parse_unsigned_text("0007", 255), Some(7));
    assert_eq!(parse_unsigned_text("256", 255), None);
    assert_eq!(parse_unsigned_text("", 255), None);
    assert_eq!(parse_unsigned_text("+", 255), None);
    assert_eq!(parse_unsigned_text("-1", 255), None);
    assert_eq!(parse_unsigned_text("1a", 255), None);
    assert_eq!(parse_unsigned_text("18446744073709551615", u64::MAX), Some(u64::MAX));
    assert_eq!(parse_unsigned_text("18446744073709551616", u64::MAX), None);
    for s in ["0", "9", "+12", "255", "300", "x"] {
        assert_eq!(parse_unsigned_text(s, 255), s.parse::<u8>().ok().map(|v| v as u64));
    }
}

#[test]
fn profile_arguments() {
    assert_eq!(profile_index(Some("1")), Some(0));
    assert_eq!(profile_index(Some("3")), Some(2));
    assert_eq!(profile_index(Some("0")), None);
    assert_eq!(profile_index(Some("4")), None);
    assert_eq!(profile_index(Some("two")), None);
    assert_eq!(profile_index(None), None);
    assert_eq!(u8_arg_or(Some("30"), 48), 30);
    assert_eq!(u8_arg_or(Some("300"), 48), 48);
    assert_eq!(u8_arg_or(None, 48), 48);
}

#[test]
fn deadzone_arguments() {
    assert_eq!(deadzone_values(&["1", "2", "3", "4"]), Some([1, 2, 3, 4]));
    assert_eq!(deadzone_values(&["1", "x", "3", "4"]), None);
}

#[test]
fn color_arguments() {
    assert_eq!(color_arg("#FF8000"), Some((0xFF, 0x80, 0x00)));
    assert_eq!(color_arg("ff-80-00"), Some((0xFF, 0x80, 0x00)));
    assert_eq!(color_arg("12345"), None);
    assert_eq!(color_arg("1234567"), None);
}

#[test]
fn remap_arguments() {
    assert_eq!(remap_arg("A=B"), Ok((GipButton::A, GipButton::B)));
    assert_eq!(remap_arg("lb=up"), Ok((GipButton::LB, GipButton::DUp)));
    assert_eq!(remap_arg("AB"), Err(RemapArgError::Malformed));
    assert_eq!(remap_arg("A=B=C"), Err(RemapArgError::Malformed));
    assert_eq!(remap_arg("Q=B"), Err(RemapArgError::UnknownFrom));
    assert_eq!(remap_arg("A=Q"), Err(RemapArgError::UnknownTo));
    assert_eq!(remap_args(&["A=B", "X=Y"]), Ok(vec![(GipButton::A, GipButton::B), (GipButton::X, GipButton::Y)]));
    assert_eq!(remap_args(&["A=B", "X", "Q=A"]), Err((1, RemapArgError::Malformed)));
}

#[test]
fn calibration_and_name_checks() {
    let mut resp = vec![0x1E, 0x30, 0x60, 24, 0x0F, 0x00];
    for v in [100u16, 200, 300, 400, 0, 0, 0, 0, 0, 0] {
        resp.extend_from_slice(&v.to_le_bytes());
    }
    assert_eq!(calibration_values(&resp), Some([100, 200, 300, 400]));
    assert_eq!(calibration_values(&resp[..25]), None);
    assert!(name_write_confirmed("Elite Pad", "Elite Pad"));
    assert!(name_write_confirmed("ABCDEFGHIJKLMNOxyz", "ABCDEFGHIJKLMNOPQR"));
    assert!(!name_write_confirmed("Elite", "Elite Pad"));
}

#[test]
fn bluetooth_report_summary() {
    let mut d = vec![0u8; 20];
    d[0] = 1;
    d[1] = 0x01 | 0x80;
    d[2] = 0x03 | 0x40;
    d[19] = 0x08;
    let s = bt_report_summary(&d).unwrap();
    assert_eq!(s.buttons, "A RB RS P4 ");
    assert_eq!(s.hat, "Right");
    assert!(bt_report_summary(&d[..19]).is_none());
    assert_eq!(bt_report_or_idle(&d[..14]), GamepadState::default());
    assert!(bt_report_or_idle(&d).btn_a);
    let mut framed = vec![20u8, 0];
    framed.extend_from_slice(&d);
    assert_eq!(prefixed_report_len(&framed), Some(20));
    assert_eq!(prefixed_report_len(&framed[..21]), None);
    assert!(is_raw_report(&d));
    assert!(!is_raw_report(&framed));
}

#[test]
fn device_recognition() {
    let pad = InputId { bustype: 5, vendor: 0x045E, product: 0x0B22, version: 0 };
    assert!(accept_evdev(&pad, "Xbox Wireless Controller", true));
    assert!(!accept_evdev(&pad, "Xbox Wireless Controller", false));
    assert!(!accept_evdev(&pad, "Xbox Wireless Controller Consumer Control", true));
    assert!(!accept_evdev(&pad, "Xbox Elite 2 (xbelite2 #0)", true));
    let spoofed = InputId { product: 0x028E, ..pad };
    assert!(!accept_evdev(&spoofed, "Xbox 360 pad", true));
    assert!(accept_evdev(&spoofed, "Xbox ELITE pad", true));
    let other = InputId { product: 0x1234, ..pad };
    assert!(accept_evdev(&other, "Elite 2 pad", true));
    assert!(!accept_evdev(&InputId { vendor: 1, ..pad }, "Elite", true));
    assert!(accept_hidraw(0x045E, 0x0B05, "Xbox Wireless Controller"));
    assert!(accept_hidraw(0x045E, 0x028E, "Controller"));
    assert!(!accept_hidraw(0x045E, 0x0B05, "XBELITE2 virtual"));
    assert!(!accept_hidraw(0x045E, 0x0B13, "Controller"));
    assert!(!accept_evdev(&pad, "Xbox Elite Mouse", true));
    assert!(!evdev_name_accepted(&pad, "xbox elite mouse", true));
    assert!(evdev_name_accepted(&pad, "xbox wireless controller", true));
    assert!(!evdev_name_accepted(&spoofed, "xbox 360 pad", true));
    assert!(evdev_name_accepted(&spoofed, "xbox elite pad", true));
    assert!(!evdev_name_accepted(&pad, "xbox wireless keyboard", true));
    assert!(hidraw_name_accepted(0x045E, 0x0B22, "xbox wireless controller"));
    assert!(!hidraw_name_accepted(0x045E, 0x0B22, "xbelite2 virtual"));
    assert!(!hidraw_name_accepted(0x0001, 0x0B22, "controller"));
    assert!(contains_text("abcabd", "abd"));
    assert!(!contains_text("ab", "abc"));
    assert!(contains_text("x", ""));
}

#[test]
fn legacy_page_edits() {
    let mut page = vec![0u8; 56];
    page[0] = 0x11;
    let r = legacy_remap_page(&page, 1, &[(GipButton::A, GipButton::X), (GipButton::DDown, GipButton::A)]);
    assert_eq!(r[0], 0x10);
    assert_eq!(r[5], 0x06);
    assert_eq!(r[1], 0);
    assert_eq!(r[9 + 1], 0x04);
    let r0 = legacy_remap_page(&page, 0, &[(GipButton::B, GipButton::Y)]);
    assert_eq!(r0[2], 0x07);
    let reset = legacy_reset_remaps_page(&r);
    assert_eq!(&reset[1..17], &[4, 5, 6, 7, 4, 5, 6, 7, 8, 9, 10, 11, 12, 13, 14, 15]);
    let c = legacy_color_page(&page, 1, 2, 3);
    assert_eq!(&c[44..48], &[0, 1, 2, 3]);
    let dz = legacy_deadzone_page(&page, 5, 150, 100, 101);
    assert_eq!(&dz[29..33], &[5, 100, 100, 100]);
    let v = legacy_vibration_page(&page, 200, 20);
    assert_eq!((v[49], v[50]), (100, 20));
    let m = legacy_mapping(&c).unwrap();
    assert_eq!(m.color, Some((1, 2, 3)));
    assert!(!m.customized);
    let mut dflt = page.clone();
    dflt[44] = 0xFF;
    assert_eq!(legacy_mapping(&dflt).unwrap().color, None);
    assert!(legacy_mapping(&page[..55]).is_none());
}

#[test]
fn name_commands() {
    let p = name_write_payload("Pad");
    assert_eq!(p.len(), 33);
    assert_eq!(&p[..7], &[0x04, b'P', 0, b'a', 0, b'd', 0]);
    assert!(p[7..].iter().all(|&b| b == 0));
    let long = name_write_payload("ABCDEFGHIJKLMNOPQRST");
    assert_eq!(long[29], b'O');
    assert_eq!(long[31], 0);
    let e = name_payload(0x05, "é");
    assert_eq!(&e[..3], &[0x05, 0xE9, 0x00]);
    let mut resp = vec![0x4D, 0x10, 0x80, 10, 0x05, 0x00];
    for c in "Hi".encode_utf16() {
        resp.extend_from_slice(&c.to_le_bytes());
    }
    resp.extend_from_slice(&[0, 0, 0, 0, 7]);
    assert_eq!(name_from_response(&resp), Some("Hi".to_string()));
    assert_eq!(name_from_response(&resp[..7]), None);
}

#[test]
fn rumble_packets() {
    assert_eq!(bt_rumble_packet(10, 20, 30, 250), [0x03, 0x0F, 30, 100, 10, 20, 0xFF, 0, 0]);
    assert_eq!(gip_rumble_packet(0, 0, 0, 0), [0x09, 0x00, 0x00, 0x09, 0x00, 0x0F, 0, 0, 0, 0, 0xFF, 0x00, 0xEB]);
    assert_eq!(gip_rumble_packet(50, 60, 0, 200), [0x09, 0x00, 0x00, 0x09, 0x00, 0x0F, 50, 60, 0, 100, 0xFF, 0x00, 0xEB]);
}

#[test]
fn number_text() {
    assert_eq!(decimal_string(0), "0");
    assert_eq!(decimal_string(1234567890123), "1234567890123");
    let mut s = String::new();
    push_hex(&mut s, 0x2a, 4);
    assert_eq!(s, "0x002a");
    let mut t = String::new();
    push_hex(&mut t, 0x12345, 2);
    assert_eq!(t, "0x12345");
}

#[test]
fn event_code_names() {
    assert_eq!(format_code(1, 0x130), "BTN_A");
    assert_eq!(format_code(1, 0x2C5), "BTN_TH10");
    assert_eq!(format_code(1, 0x100), format!("KEY_{:#06x}", 0x100));
    assert_eq!(format_code(3, 0x28), "ABS_PROFILE");
    assert_eq!(format_code(3, 0x07), format!("ABS_{:#04x}", 0x07));
    assert_eq!(format_code(4, 0x03), format!("{:#06x}", 0x03));
    assert_eq!(format_test_code(1, 0x2C5), format!("KEY_{:#x}", 0x2C5));
    assert_eq!(format_test_code(3, 0x28), format!("ABS_{:#x}", 0x28));
    assert_eq!(format_test_code(0, 0), "0x0");
    let ev = OutputEvent { ev_type: 0x15, code: 0x50, value: 1, scale_bits: None };
    assert_eq!(format_event(&ev), "0x15:0x50");
    let key = OutputEvent { ev_type: 1, code: 0x13C, value: 1, scale_bits: None };
    assert_eq!(format_event(&key), "BTN_MODE");
    assert_eq!(gip_command_name(0x04), "METADATA");
    assert_eq!(gip_command_name(0x99), "UNKNOWN");
}

#[test]
fn metadata_guid_scan() {
    let guid = [0x4D, 0x03, 0xC1, 0x31, 0xB7, 0xB5, 0x51, 0x45, 0x98, 0x13, 0x87, 0x69, 0xD4, 0xA0, 0xE4, 0xF9];
    let mut d = vec![0u8; 8];
    d.extend_from_slice(&guid);
    d.extend_from_slice(&[0u8; 8]);
    let found = metadata_guid_offsets(&d);
    assert!(found.contains(&(8, true)));
    assert!(found.iter().all(|&(i, _)| i + 16 < d.len()));
    assert!(metadata_guid_offsets(&[0u8; 40]).is_empty());
}

#[test]
fn virtual_gamepad_records() {
    let stream = event_stream(&[OutputEvent { ev_type: 1, code: 0x130, value: -2, scale_bits: None }]);
    assert_eq!(stream.len(), 48);
    assert_eq!(decode_event(&stream[..24]), (1, 0x130, -2));
    assert_eq!(decode_event(&stream[24..]), (0, 0, 0));
    assert_eq!(&stream[..16], &[0u8; 16]);
    let setup = setup_bytes(3);
    assert_eq!(setup.len(), 80 + 12 + 4 * 256);
    assert_eq!(&setup[..26], b"Xbox Elite 2 (xbelite2 #3)");
    assert_eq!(setup[26], 0);
    assert_eq!(&setup[80..92], &[5, 0, 0x5E, 0x04, 0x12, 0xBE, 1, 0, 16, 0, 0, 0]);
    let absmax = &setup[92..92 + 256];
    assert_eq!(&absmax[0..4], &32767i32.to_le_bytes());
    assert_eq!(&absmax[8..12], &1023i32.to_le_bytes());
    let absmin = &setup[92 + 256..92 + 512];
    assert_eq!(&absmin[0..4], &(-32768i32).to_le_bytes());
    assert_eq!(&absmin[0x10 * 4..0x10 * 4 + 4], &(-1i32).to_le_bytes());
    let absflat = &setup[92 + 768..];
    assert_eq!(&absflat[4..8], &128i32.to_le_bytes());
    assert_eq!(gamepad_keys().len(), 15);
    assert_eq!(gamepad_axes(), [0, 1, 3, 4, 2, 5, 0x10, 0x11]);
}

#[test]
fn stored_effects() {
    let mut t = EffectTable::new();
    let mut e = FfEffect::zeroed();
    e.id = 3;
    e.u[0] = 0xFF;
    e.u[1] = 0xFF;
    e.u[2] = 0x00;
    e.u[3] = 0x80;
    t.store_upload(e);
    assert_eq!(t.get_ff_rumble(3), Some((100, 50)));
    assert_eq!(t.get_ff_rumble(4), None);
    t.erase(3);
    assert_eq!(t.get_ff_rumble(3), None);
    let mut bad = FfEffect::zeroed();
    bad.id = -1;
    t.store_upload(bad);
    assert!(t.effects.iter().all(|x| x.is_none()));
    assert_eq!(t.get_ff_rumble(40), None);
}
