use xbelite2::hid::{
    apply_evdev_event, apply_test_event, decode_hat, detect_format, is_elite2, pack_buttons,
    pack_paddles, parse_bt_report, parse_extended_report, parse_hidraw_report, InputEvent,
};
use xbelite2::transform::{apply_remap_abs, apply_remap_key, gather_axes, gather_buttons, transform, OutputEvent};
use xbelite2::types::{
    GamepadState, InputId, Profile, RemapEntry, ReportFormat, StickCurve, TriggerZone, ABS_HAT0X,
    ABS_X, ABS_Z, BTN_A, BTN_B, BTN_GRIPL, EV_ABS, EV_KEY,
};

fn idle() -> GamepadState {
    GamepadState::default()
}

fn bt_report() -> Vec<u8> {
    let mut d = vec![0u8; 20];
    d[0] = 0x01;
    d[1] = 0x01 | 0x40; // A, LB
    d[2] = 0x08 | 0x20; // Menu, LS
    d[3] = 0xFF;
    d[4] = 0x07; // LT 0x7FF & 0x3FF = 0x3FF
    d[5] = 0x10;
    d[6] = 0x00; // RT 16
    d[7] = 0x00;
    d[8] = 0x80; // LX -32768
    d[9] = 0xFF;
    d[10] = 0x7F; // LY 32767
    d[17] = 0x06; // profile 2
    d[19] = 0x05; // P1, P3
    d
}

#[test]
fn bt_report_decodes_fields() {
    let s = parse_bt_report(&bt_report(), ReportFormat::V5Early).unwrap();
    assert!(s.btn_a && s.btn_lb && !s.btn_b);
    assert!(s.btn_menu && s.btn_lstick && !s.btn_view);
    assert_eq!(s.left_trigger, 0x3FF);
    assert_eq!(s.right_trigger, 16);
    assert_eq!(s.left_stick_x, -32768);
    assert_eq!(s.left_stick_y, 32767);
    assert_eq!(s.hw_profile, 2);
    assert!(s.paddle_ur && !s.paddle_lr && s.paddle_ul && !s.paddle_ll);
    assert!(parse_bt_report(&bt_report()[..14], ReportFormat::V5Early).is_none());
}

#[test]
fn short_bt_report_has_no_profile_or_paddles() {
    let s = parse_bt_report(&bt_report()[..15], ReportFormat::V4).unwrap();
    assert_eq!(s.hw_profile, 0);
    assert!(!s.paddle_ur && !s.paddle_ul);
}

#[test]
fn report_format_by_size() {
    assert_eq!(detect_format(&[0u8; 55]), ReportFormat::V4);
    assert_eq!(detect_format(&[0u8; 54]), ReportFormat::V5Early);
    assert_eq!(detect_format(&[0u8; 5]), ReportFormat::V5Early);
}

#[test]
fn extended_report_sets_only_paddles() {
    let mut s = idle();
    s.btn_a = true;
    let mut d = vec![0u8; 20];
    d[19] = 0x0A;
    assert!(parse_extended_report(&d, &mut s));
    assert!(s.btn_a && !s.paddle_ur && s.paddle_lr && !s.paddle_ul && s.paddle_ll);
    let before = s;
    assert!(!parse_extended_report(&d[..19], &mut s));
    assert_eq!(s, before);
}

#[test]
fn elite2_ids() {
    assert!(is_elite2(0x045E, 0x0B05));
    assert!(is_elite2(0x045E, 0x0B22));
    assert!(is_elite2(0x045E, 0x028E));
    assert!(!is_elite2(0x045E, 0x0B00));
    assert!(!is_elite2(0x054C, 0x0B05));
}

#[test]
fn hat_directions() {
    assert_eq!(decode_hat(0), (false, false, false, false));
    assert_eq!(decode_hat(1), (true, false, false, false));
    assert_eq!(decode_hat(2), (true, true, false, false));
    assert_eq!(decode_hat(5), (false, false, true, false));
    assert_eq!(decode_hat(8), (true, false, false, true));
    assert_eq!(decode_hat(9), (false, false, false, false));
}

fn hidraw_report() -> Vec<u8> {
    let mut d = vec![0u8; 20];
    d[0] = 0x01;
    // LX 0 (unsigned) -> -32768, LY 0x8000 -> 0, RX 0xFFFF -> 32767
    d[3] = 0x00;
    d[4] = 0x80;
    d[5] = 0xFF;
    d[6] = 0xFF;
    d[7] = 0x00;
    d[8] = 0x80;
    d[9] = 0xFF;
    d[10] = 0xFF; // LT 0xFFFF & 0x3FF
    d[13] = 0x03; // hat east
    d[14] = 0x01 | 0x80; // A, RB
    d[15] = 0x10; // Xbox (bit 12)
    d[17] = 0x03;
    d[19] = 0xF2; // P2 (upper nibble ignored)
    d
}

#[test]
fn hidraw_report_decodes_fields() {
    let s = parse_hidraw_report(&hidraw_report());
    assert_eq!(s.left_stick_x, -32768);
    assert_eq!(s.left_stick_y, 0);
    assert_eq!(s.right_stick_x, 32767);
    assert_eq!(s.left_trigger, 0x3FF);
    assert!(s.dpad_right && !s.dpad_up);
    assert!(s.btn_a && s.btn_rb && s.btn_xbox && !s.btn_b);
    assert_eq!(s.hw_profile, 3);
    assert!(s.paddle_lr && !s.paddle_ur && !s.paddle_ul && !s.paddle_ll);
    assert_eq!(parse_hidraw_report(&hidraw_report()[..15]), idle());
}

#[test]
fn status_bitmasks() {
    let mut s = idle();
    s.btn_a = true;
    s.btn_y = true;
    s.dpad_right = true;
    s.paddle_ll = true;
    s.paddle_ur = true;
    assert_eq!(pack_buttons(&s), 0x0001 | 0x0008 | 0x4000);
    assert_eq!(pack_paddles(&s), 0x09);
    let d = hidraw_report();
    assert_eq!(pack_paddles(&parse_hidraw_report(&d)) as u8, d[19] & 0x0F);
}

#[test]
fn evdev_events_update_state() {
    let mut s = idle();
    let ev = |t: u16, c: u16, v: i32| InputEvent { tv_sec: 0, tv_usec: 0, ev_type: t, code: c, value: v };
    apply_evdev_event(&mut s, &ev(1, BTN_A, 1));
    apply_evdev_event(&mut s, &ev(1, BTN_GRIPL, 2));
    apply_evdev_event(&mut s, &ev(3, ABS_X, -1234));
    apply_evdev_event(&mut s, &ev(3, ABS_Z, 900));
    apply_evdev_event(&mut s, &ev(3, ABS_HAT0X, -1));
    assert!(s.btn_a && s.paddle_ul && s.dpad_left && !s.dpad_right);
    assert_eq!(s.left_stick_x, -1234);
    assert_eq!(s.left_trigger, 900);
    apply_evdev_event(&mut s, &ev(1, BTN_A, 0));
    assert!(!s.btn_a);
    let before = s;
    apply_evdev_event(&mut s, &ev(2, 0, 5));
    apply_evdev_event(&mut s, &ev(1, 0x999, 1));
    assert_eq!(s, before);
    apply_test_event(&mut s, &ev(3, ABS_HAT0X, 1));
    assert_eq!(s, before);
    apply_test_event(&mut s, &ev(1, BTN_B, 1));
    assert!(s.btn_b);
}

#[test]
fn curve_and_zone_formulas() {
    let linear = StickCurve::default();
    assert_eq!(linear.points[15], 32767);
    assert_eq!(linear.points[1], 2184);
    assert_eq!(linear.evaluate(0), 0);
    assert_eq!(linear.evaluate(32767), 32767);
    assert_eq!(linear.evaluate(-32768), -32767);
    let half = StickCurve { points: [16000; 16] };
    assert_eq!(half.evaluate(100), 16000);
    assert_eq!(half.evaluate(-100), -16000);
    let z = TriggerZone { dead_min: 100, dead_max: 200 };
    assert_eq!(z.apply(50), 0);
    assert_eq!(z.apply(100), 0);
    assert_eq!(z.apply(150), 511);
    assert_eq!(z.apply(200), 1023);
    assert_eq!(TriggerZone::default().apply(512), 512);
}

#[test]
fn transform_emits_changes_only() {
    let p = Profile::default();
    let prev = idle();
    let mut cur = idle();
    assert!(transform(&cur, &prev, &p).is_empty());
    cur.btn_b = true;
    cur.left_trigger = 300;
    cur.dpad_up = true;
    let evs = transform(&cur, &prev, &p);
    assert_eq!(
        evs,
        vec![
            OutputEvent { ev_type: EV_KEY, code: BTN_B, value: 1, scale_bits: None },
            OutputEvent { ev_type: EV_ABS, code: ABS_Z, value: 300, scale_bits: None },
            OutputEvent { ev_type: EV_ABS, code: 0x11, value: -1, scale_bits: None },
        ]
    );
    let back = transform(&prev, &cur, &p);
    assert_eq!(back[0], OutputEvent { ev_type: EV_KEY, code: BTN_B, value: 0, scale_bits: None });
}

#[test]
fn remaps_route_events() {
    let mut p = Profile::default();
    p.remaps.push(RemapEntry { src: InputId::key(BTN_A), dst: InputId::key(BTN_B), scale_bits: 0x3F80_0000 });
    p.remaps.push(RemapEntry { src: InputId::abs(ABS_X), dst: InputId::abs(0x03), scale_bits: 0x4000_0000 });
    p.remaps.push(RemapEntry { src: InputId::key(BTN_A), dst: InputId::key(0x133), scale_bits: 0 });
    assert_eq!(
        apply_remap_key(&p, InputId::key(BTN_A), 1),
        OutputEvent { ev_type: EV_KEY, code: BTN_B, value: 1, scale_bits: None }
    );
    assert_eq!(
        apply_remap_abs(&p, InputId::abs(ABS_X), 77),
        OutputEvent { ev_type: EV_ABS, code: 0x03, value: 77, scale_bits: Some(0x4000_0000) }
    );
    assert_eq!(
        apply_remap_key(&p, InputId::key(0x136), 0),
        OutputEvent { ev_type: EV_KEY, code: 0x136, value: 0, scale_bits: None }
    );
    let mut cur = idle();
    cur.btn_a = true;
    let evs = transform(&cur, &idle(), &p);
    assert_eq!(evs, vec![OutputEvent { ev_type: EV_KEY, code: BTN_B, value: 1, scale_bits: None }]);
}

#[test]
fn gathered_inputs_follow_emission_order() {
    let mut s = idle();
    s.paddle_lr = true;
    let b = gather_buttons(&s);
    assert_eq!(b.len(), 15);
    assert_eq!(b[0], (InputId::key(BTN_A), false));
    assert_eq!(b[14], (InputId::key(0x227), true));
    let mut p = Profile::default();
    p.trigger_zones[1] = Some(TriggerZone { dead_min: 0, dead_max: 511 });
    s.right_trigger = 511;
    let a = gather_axes(&s, &p);
    assert_eq!(a.len(), 8);
    assert_eq!(a[5], (InputId::abs(0x05), 1023));
}

#[test]
fn default_profile_is_identity() {
    let p = Profile::default();
    assert_eq!(p.name, "Default");
    assert!(p.remaps.is_empty());
    assert!(p.stick_curves.iter().all(|c| c.is_none()));
    assert_eq!(p.vibration.main_motor, 100);
    let c = p.clone();
    assert_eq!(c.name, p.name);
}

#[test]
fn increasing_curve_is_monotone() {
    let mut points = [0i16; 16];
    for (i, p) in points.iter_mut().enumerate() {
        *p = (i as i16) * (i as i16) * 140;
    }
    let curve = StickCurve { points };
    let mut last = curve.evaluate(0);
    for raw in (0..=32767).step_by(97) {
        let v = curve.evaluate(raw as i16);
        assert!(v >= last);
        last = v;
    }
    assert!(curve.evaluate(32767) >= last);
}

#[test]
fn identity_events_rebuild_state() {
    let mut prev = idle();
    prev.btn_b = true;
    prev.left_stick_x = 1200;
    prev.right_trigger = 40;
    prev.dpad_up = true;
    prev.hw_profile = 2;
    let mut cur = idle();
    cur.btn_a = true;
    cur.paddle_lr = true;
    cur.left_stick_x = -3000;
    cur.right_stick_y = 77;
    cur.left_trigger = 1023;
    cur.dpad_left = true;
    cur.dpad_down = true;
    cur.hw_profile = 1;
    let events = transform(&cur, &prev, &Profile::default());
    let mut s = prev;
    for e in &events {
        apply_evdev_event(&mut s, &InputEvent { tv_sec: 0, tv_usec: 0, ev_type: e.ev_type, code: e.code, value: e.value });
    }
    assert_eq!(s, GamepadState { hw_profile: prev.hw_profile, ..cur });
}
