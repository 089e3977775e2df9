use xbelite2::hw_profile::HwProfileCache;
use xbelite2::daemon::{
    default_brightness, device_id, ff_request, misc_frame_len, motor_test_outcome,
    motor_test_report, pick_profile_index, poll_hung_up, poll_readable, process_evdev_event,
    process_report, rumble_stop_report, should_rescan, socket_path, socket_path_in, Controller,
    ControllerTable, FfRequest, IpcAction, IpcRequest, IpcResponse, SourceKind, EV_FF, EV_UINPUT,
};
use xbelite2::hid::InputEvent;
use xbelite2::transform::OutputEvent;
use xbelite2::types::{DeviceConfig, GamepadState, InputId, Profile, RemapEntry, BTN_A, BTN_B, EV_KEY};

fn controller(id: &str, source: SourceKind) -> Controller {
    Controller {
        device_id: id.to_string(),
        source,
        evdev_name: "Xbox Elite pad".to_string(),
        config: DeviceConfig::default(),
        prev_state: GamepadState::default(),
        paddle_cache: None,
    }
}

fn input_report(a_pressed: bool, profile: u8) -> Vec<u8> {
    let mut d = vec![0u8; 20];
    d[0] = 0x01;
    d[2] = 0x80; // LX centred
    d[4] = 0x80;
    d[6] = 0x80;
    d[8] = 0x80;
    if a_pressed {
        d[14] = 0x01;
    }
    d[17] = profile;
    d
}

#[test]
fn profile_slot_choice() {
    assert_eq!(pick_profile_index(3, 1), Some(1));
    assert_eq!(pick_profile_index(3, 5), Some(0));
    assert_eq!(pick_profile_index(0, 0), None);
}

#[test]
fn reports_in_profile_zero_pass_through() {
    let mut c = controller("hidraw:/dev/hidraw3", SourceKind::Hidraw);
    let evs = process_report(&mut c, &input_report(true, 0));
    assert_eq!(evs, vec![OutputEvent { ev_type: EV_KEY, code: BTN_A, value: 1, scale_bits: None }]);
    assert!(c.prev_state.btn_a);
    // The same report again emits nothing.
    assert!(process_report(&mut c, &input_report(true, 0)).is_empty());
}

#[test]
fn hardware_profile_selects_software_profile() {
    let mut c = controller("misc:/dev/xbelite2_bt", SourceKind::Misc);
    let mut swap = Profile::default();
    swap.remaps.push(RemapEntry { src: InputId::key(BTN_A), dst: InputId::key(BTN_B), scale_bits: 0x3F80_0000 });
    c.config.profiles.push(swap);
    // Profile 2 uses software slot 1.
    let evs = process_report(&mut c, &input_report(true, 2));
    assert_eq!(evs, vec![OutputEvent { ev_type: EV_KEY, code: BTN_B, value: 1, scale_bits: None }]);
    // Profile 3 has no slot 2 and falls back to slot 0.
    let evs = process_report(&mut c, &input_report(false, 3));
    assert_eq!(evs, vec![OutputEvent { ev_type: EV_KEY, code: BTN_A, value: 0, scale_bits: None }]);
    assert_eq!(c.prev_state.hw_profile, 3);
}

#[test]
fn no_software_profile_emits_nothing_but_tracks_state() {
    let mut c = controller("hidraw:/dev/hidraw0", SourceKind::Hidraw);
    c.config.profiles.clear();
    assert!(process_report(&mut c, &input_report(true, 1)).is_empty());
    assert!(c.prev_state.btn_a);
}

#[test]
fn other_reports_are_ignored() {
    let mut c = controller("hidraw:/dev/hidraw0", SourceKind::Hidraw);
    let mut r = input_report(true, 0);
    r[0] = 0x02;
    assert!(process_report(&mut c, &r).is_empty());
    assert!(process_report(&mut c, &input_report(true, 0)[..14]).is_empty());
    assert_eq!(c.prev_state, GamepadState::default());
}

#[test]
fn fifteen_byte_report_reads_as_idle() {
    let mut c = controller("hidraw:/dev/hidraw0", SourceKind::Hidraw);
    c.prev_state.btn_b = true;
    let r = input_report(true, 0);
    let evs = process_report(&mut c, &r[..15]);
    assert_eq!(evs, vec![OutputEvent { ev_type: EV_KEY, code: BTN_B, value: 0, scale_bits: None }]);
    assert_eq!(c.prev_state, GamepadState::default());
}

#[test]
fn misc_frame_lengths() {
    assert_eq!(misc_frame_len([0, 0]), None);
    assert_eq!(misc_frame_len([20, 0]), Some(20));
    assert_eq!(misc_frame_len([128, 0]), Some(128));
    assert_eq!(misc_frame_len([129, 0]), None);
    assert_eq!(misc_frame_len([0, 1]), None);
}

#[test]
fn evdev_source_emits_at_sync() {
    let mut c = controller("evdev:/dev/input/event5", SourceKind::Evdev);
    let key = InputEvent { tv_sec: 0, tv_usec: 0, ev_type: 1, code: BTN_A, value: 1 };
    assert!(process_evdev_event(&mut c, &key).is_empty());
    assert!(c.prev_state.btn_a);
    let syn = InputEvent { tv_sec: 0, tv_usec: 0, ev_type: 0, code: 0, value: 0 };
    let evs = process_evdev_event(&mut c, &syn);
    assert_eq!(evs, vec![OutputEvent { ev_type: EV_KEY, code: BTN_A, value: 1, scale_bits: None }]);
    let other = InputEvent { tv_sec: 0, tv_usec: 0, ev_type: 0, code: 2, value: 0 };
    assert!(process_evdev_event(&mut c, &other).is_empty());
}

#[test]
fn rumble_reports() {
    assert_eq!(motor_test_report(0, 50), [0x03, 0x0F, 0, 0, 50, 0, 0x20, 0, 0]);
    assert_eq!(motor_test_report(1, 200), [0x03, 0x0F, 0, 0, 0, 100, 0x20, 0, 0]);
    assert_eq!(motor_test_report(2, 7), [0x03, 0x0F, 7, 0, 0, 0, 0x20, 0, 0]);
    assert_eq!(motor_test_report(3, 9), [0x03, 0x0F, 0, 9, 0, 0, 0x20, 0, 0]);
    assert_eq!(motor_test_report(4, 9), [0x03, 0x0F, 0, 0, 0, 0, 0x20, 0, 0]);
    assert_eq!(rumble_stop_report(), [0x03, 0x0F, 0, 0, 0, 0, 0, 0, 0]);
}

#[test]
fn force_feedback_requests() {
    assert!(matches!(ff_request(EV_UINPUT, 1, 0), FfRequest::Upload));
    assert!(matches!(ff_request(EV_UINPUT, 2, 0), FfRequest::Erase));
    assert!(matches!(ff_request(EV_UINPUT, 3, 0), FfRequest::Ignore));
    match ff_request(EV_FF, 0, 1) {
        FfRequest::Play { report } => assert_eq!(report, [0x03, 0x0F, 0x20, 0x20, 0x40, 0x40, 0x20, 0, 0]),
        _ => panic!("expected a report"),
    }
    match ff_request(EV_FF, 0, 0) {
        FfRequest::Play { report } => assert_eq!(report, [0x03, 0x0F, 0, 0, 0, 0, 0, 0, 0]),
        _ => panic!("expected a report"),
    }
    assert!(matches!(ff_request(0x01, 0x130, 1), FfRequest::Ignore));
}

#[test]
fn socket_paths_and_defaults() {
    assert_eq!(socket_path(), "/run/xbelite2.sock");
    assert_eq!(socket_path_in(Some("/run/user/1000")), "/run/user/1000/xbelite2.sock");
    assert_eq!(socket_path_in(None), "/run/xbelite2.sock");
    assert_eq!(default_brightness(), 100);
    assert_eq!(device_id(SourceKind::Hidraw, "/dev/hidraw2"), "hidraw:/dev/hidraw2");
    assert_eq!(device_id(SourceKind::Misc, "/dev/xbelite2_bt"), "misc:/dev/xbelite2_bt");
    assert_eq!(device_id(SourceKind::Evdev, "/dev/input/event3"), "evdev:/dev/input/event3");
}

#[test]
fn poll_and_rescan_decisions() {
    assert!(poll_readable(0x0001));
    assert!(!poll_readable(0x0004));
    assert!(poll_hung_up(0x0010));
    assert!(poll_hung_up(0x0008));
    assert!(!poll_hung_up(0x0001));
    assert!(should_rescan(0, 5000));
    assert!(!should_rescan(0, 4999));
    assert!(!should_rescan(1, 60000));
}

#[test]
fn table_attach_find_detach() {
    let mut t = ControllerTable::new();
    t.attach(controller("a", SourceKind::Evdev));
    assert!(!t.has_raw_source());
    t.attach(controller("b", SourceKind::Hidraw));
    assert!(t.has_raw_source());
    assert_eq!(t.find(&"b".to_string()), Some(1));
    let mut again = controller("a", SourceKind::Misc);
    again.prev_state.btn_x = true;
    t.attach(again);
    assert_eq!(t.controllers.len(), 2);
    assert!(t.controllers[0].prev_state.btn_x);
    t.detach(&"a".to_string());
    assert!(!t.contains(&"a".to_string()));
    assert_eq!(t.controllers.len(), 1);
    t.detach(&"zzz".to_string());
    assert_eq!(t.controllers.len(), 1);
}

fn table() -> ControllerTable {
    let mut t = ControllerTable::new();
    let mut h = controller("hidraw:/dev/hidraw1", SourceKind::Hidraw);
    h.prev_state.btn_a = true;
    h.prev_state.dpad_down = true;
    h.prev_state.paddle_lr = true;
    h.prev_state.hw_profile = 2;
    h.prev_state.left_trigger = 512;
    h.config.active_override = Some(1);
    t.attach(h);
    let mut e = controller("evdev:/dev/input/event9", SourceKind::Evdev);
    let mut p = Profile::default();
    p.name = "Racing".to_string();
    e.config.profiles.push(p);
    t.attach(e);
    t
}

#[test]
fn status_answer() {
    let mut t = table();
    match t.handle_request(IpcRequest::GetStatus) {
        (IpcResponse::Status { devices }, IpcAction::Nothing) => {
            assert_eq!(devices.len(), 2);
            let d = &devices[0];
            assert_eq!(d.device_id, "hidraw:/dev/hidraw1");
            assert_eq!(d.name, "Elite 2 (hidraw)");
            assert_eq!(d.hw_profile, 2);
            assert_eq!(d.active_profile, 1);
            assert!(d.connected && !d.is_usb);
            assert_eq!(d.buttons, 0x0001 | 0x1000);
            assert_eq!(d.paddles, 0x02);
            assert_eq!(d.left_trigger, 512);
            assert_eq!(d.profile_brightness, 100);
            assert_eq!(devices[1].name, "Xbox Elite pad");
            assert!(devices[1].is_usb);
            assert_eq!(devices[1].active_profile, 0);
        },
        _ => panic!("expected a status answer"),
    }
}

#[test]
fn profile_list_answer_has_each_name_once() {
    let mut t = table();
    match t.handle_request(IpcRequest::ListProfiles) {
        (IpcResponse::ProfileList { profiles }, _) => assert_eq!(profiles, vec!["Default".to_string(), "Racing".to_string()]),
        _ => panic!("expected a profile list"),
    }
}

#[test]
fn unknown_device_errors() {
    let mut t = table();
    match t.handle_request(IpcRequest::GetConfig { device_id: "nope".to_string() }) {
        (IpcResponse::Error { message }, IpcAction::Nothing) => assert_eq!(message, "Device nope not found"),
        _ => panic!("expected an error"),
    }
    match t.handle_request(IpcRequest::TestAllVibration { device_id: "x".to_string(), intensities: [1, 2, 3, 4] }) {
        (IpcResponse::Error { message }, IpcAction::Nothing) => assert_eq!(message, "Device x not found"),
        _ => panic!("expected an error"),
    }
}

#[test]
fn config_written_is_read_back() {
    let mut t = table();
    let mut cfg = DeviceConfig::default();
    cfg.active_override = Some(2);
    cfg.hw_profile_map = [0, 1, 2, 3];
    match t.handle_request(IpcRequest::SetConfig { device_id: "evdev:/dev/input/event9".to_string(), config: cfg }) {
        (IpcResponse::Success, IpcAction::Nothing) => {},
        _ => panic!("expected success"),
    }
    match t.handle_request(IpcRequest::GetConfig { device_id: "evdev:/dev/input/event9".to_string() }) {
        (IpcResponse::Config { config }, _) => {
            assert_eq!(config.active_override, Some(2));
            assert_eq!(config.hw_profile_map, [0, 1, 2, 3]);
            assert_eq!(config.profiles.len(), 1);
        },
        _ => panic!("expected a config"),
    }
}

#[test]
fn active_profile_override() {
    let mut t = table();
    match t.handle_request(IpcRequest::SetActiveProfile { device_id: "hidraw:/dev/hidraw1".to_string(), profile_index: None }) {
        (IpcResponse::Success, _) => {},
        _ => panic!("expected success"),
    }
    assert_eq!(t.controllers[0].config.active_override, None);
}

#[test]
fn vibration_tests_by_source() {
    let mut t = table();
    match t.handle_request(IpcRequest::TestVibration { device_id: "hidraw:/dev/hidraw1".to_string(), motor: 1, intensity: 150 }) {
        (IpcResponse::Success, IpcAction::MotorTest { index, report }) => {
            assert_eq!(index, 0);
            assert_eq!(report, [0x03, 0x0F, 0, 0, 0, 100, 0x20, 0, 0]);
        },
        _ => panic!("expected a motor test"),
    }
    match t.handle_request(IpcRequest::TestVibration { device_id: "evdev:/dev/input/event9".to_string(), motor: 1, intensity: 50 }) {
        (IpcResponse::Error { message }, IpcAction::Nothing) => {
            assert_eq!(message, "Rumble failed: Vibration test not supported over evdev (USB) yet")
        },
        _ => panic!("expected an error"),
    }
    match t.handle_request(IpcRequest::TestAllVibration { device_id: "hidraw:/dev/hidraw1".to_string(), intensities: [10, 20, 30, 250] }) {
        (IpcResponse::Success, IpcAction::MotorSweep { index, reports }) => {
            assert_eq!(index, 0);
            assert_eq!(reports[0], [0x03, 0x0F, 0, 0, 10, 0, 0x20, 0, 0]);
            assert_eq!(reports[1], [0x03, 0x0F, 0, 0, 0, 20, 0x20, 0, 0]);
            assert_eq!(reports[2], [0x03, 0x0F, 30, 0, 0, 0, 0x20, 0, 0]);
            assert_eq!(reports[3], [0x03, 0x0F, 0, 100, 0, 0, 0x20, 0, 0]);
        },
        _ => panic!("expected a sweep"),
    }
    match t.handle_request(IpcRequest::TestAllVibration { device_id: "evdev:/dev/input/event9".to_string(), intensities: [1, 1, 1, 1] }) {
        (IpcResponse::Error { message }, IpcAction::Nothing) => assert_eq!(message, "Not supported over evdev"),
        _ => panic!("expected an error"),
    }
    match motor_test_outcome(false) {
        IpcResponse::Error { message } => assert_eq!(message, "Rumble failed: write rumble"),
        _ => panic!("expected an error"),
    }
    assert!(matches!(motor_test_outcome(true), IpcResponse::Success));
}

#[test]
fn remapped_paddles_are_dropped() {
    let mut cache = HwProfileCache::default();
    cache.profiles[0].paddles = [0x04, 0x08, 0x06, 0x07]; // P2 sends D-pad up
    let mut c = controller("misc:/dev/xbelite2_bt", SourceKind::Misc);
    c.paddle_cache = Some(cache);
    let mut d = input_report(false, 1);
    d[19] = 0x03; // P1 and P2 pressed
    process_report(&mut c, &d);
    assert!(c.prev_state.paddle_ur);
    assert!(!c.prev_state.paddle_lr);
    // Profile 0 keeps every paddle.
    let mut d0 = input_report(false, 0);
    d0[19] = 0x03;
    process_report(&mut c, &d0);
    assert!(c.prev_state.paddle_ur && c.prev_state.paddle_lr);
    // Without a cache nothing is dropped.
    let mut plain = controller("misc:/dev/xbelite2_bt", SourceKind::Misc);
    process_report(&mut plain, &d);
    assert!(plain.prev_state.paddle_ur && plain.prev_state.paddle_lr);
}
