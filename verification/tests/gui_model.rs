use xbelite2::gui_model::{choose_controller, DetectChoice};
use xbelite2::gip_types::GipButton;
use xbelite2::gui_model::{
    bound_controller, color_string, disconnected, is_bt_hid_entry, is_usb_interface_entry,
    module_not_loaded, parse_color_hex, update_input, ControllerInfo, ControllerInput,
    GuiConfig, GuiProfile, ProfileModel, WriteOp,
};
use xbelite2::hw_profile::HwProfileCache;

fn usb_model(hw: i32) -> ProfileModel {
    let mut m = ProfileModel::new();
    m.is_usb = true;
    m.hw_profile = hw;
    m.hw_cache_loaded = true;
    m
}

#[test]
fn new_model_defaults() {
    let m = ProfileModel::new();
    assert_eq!(m.profile_count, 3);
    assert_eq!(m.config.profiles.len(), 3);
    assert_eq!(m.config.profiles[2].name, "Profile 3");
    assert_eq!(m.config.hw_profile_map, [0, 0, 1, 2]);
    assert_eq!(m.profile_color, "default");
    assert_eq!(m.left_trigger_max, 1023);
    assert!(!m.connected);
}

#[test]
fn select_and_load_profile() {
    let mut m = ProfileModel::new();
    m.config.profiles[1].vibration.weak_motor = 40;
    m.config.profiles[1].stick_deadzones = [7, 9];
    m.select_profile(1);
    assert_eq!(m.sel_idx, 1);
    assert_eq!(m.active_profile, 1);
    assert_eq!(m.profile_name, "Profile 2");
    assert_eq!(m.vibration_weak, 40);
    assert_eq!(m.left_stick_deadzone, 7);
    assert_eq!(m.right_stick_deadzone, 9);
    assert_eq!(m.left_stick_x_curve, "null");
    // Selecting a missing profile keeps the displayed values.
    m.select_profile(9);
    assert_eq!(m.sel_idx, 9);
    assert_eq!(m.profile_name, "Profile 2");
}

#[test]
fn create_and_delete_profiles() {
    let mut m = ProfileModel::new();
    m.create_profile("Mine".to_string());
    assert_eq!(m.profile_count, 4);
    assert_eq!(m.sel_idx, 3);
    assert_eq!(m.profile_name, "Mine");
    m.delete_profile();
    assert_eq!(m.profile_count, 3);
    assert_eq!(m.sel_idx, 2);
    assert_eq!(m.profile_name, "Profile 3");
    m.select_profile(0);
    m.delete_profile();
    m.delete_profile();
    assert_eq!(m.config.profiles.len(), 1);
    m.delete_profile();
    assert_eq!(m.config.profiles.len(), 1);
}

#[test]
fn remap_rules_replace_earlier_ones() {
    let mut m = ProfileModel::new();
    m.set_remap(0x130, 0x131);
    m.set_remap(0x133, 0x134);
    m.set_remap(0x130, 0x136);
    let r = &m.config.profiles[0].remaps;
    assert_eq!(r.len(), 2);
    assert_eq!(r[0].src.code, 0x133);
    assert_eq!(r[1].src.code, 0x130);
    assert_eq!(r[1].dst.code, 0x136);
    assert_eq!(r[1].scale_bits, 1.0f32.to_bits());
    m.remove_remap(0x133);
    assert_eq!(m.config.profiles[0].remaps.len(), 1);
}

#[test]
fn stick_curve_from_json() {
    let mut m = ProfileModel::new();
    let pts: Vec<String> = (0..16).map(|i| (i * 100).to_string()).collect();
    let json = format!("[{}]", pts.join(","));
    m.set_stick_curve(2, &json);
    let c = m.config.profiles[0].stick_curves[2].unwrap();
    assert_eq!(c.points[15], 1500);
    m.set_stick_curve(3, "[1,2,3]");
    assert!(m.config.profiles[0].stick_curves[3].is_none());
    m.set_stick_curve(4, &json);
    m.set_stick_curve(1, "not json");
    assert!(m.config.profiles[0].stick_curves[1].is_none());
    m.load_profile(0);
    assert_eq!(m.right_stick_x_curve, json);
    m.set_stick_curve(0, "[-32768,-5,0,7,8,9,10,11,12,13,14,15,16,17,18,32767]");
    m.load_profile(0);
    assert_eq!(m.left_stick_x_curve, "[-32768,-5,0,7,8,9,10,11,12,13,14,15,16,17,18,32767]");
}

#[test]
fn trigger_zone_vibration_and_deadzones() {
    let mut m = ProfileModel::new();
    m.set_trigger_zone(1, 10, 900);
    assert_eq!(m.config.profiles[0].trigger_zones[1].unwrap().dead_max, 900);
    assert_eq!((m.right_trigger_min, m.right_trigger_max), (10, 900));
    m.set_trigger_zone(2, 1, 2);
    assert!(m.config.profiles[0].trigger_zones[0].is_none());
    m.set_vibration(2, 150);
    assert_eq!(m.config.profiles[0].vibration.left_trigger, 100);
    m.set_vibration(0, -5);
    assert_eq!(m.config.profiles[0].vibration.main_motor, 0);
    m.set_stick_deadzone(1, 80);
    assert_eq!(m.config.profiles[0].stick_deadzones, [0, 50]);
    assert_eq!(m.right_stick_deadzone, 80);
    m.set_hw_profile_mapping(3, 2);
    assert_eq!(m.config.hw_profile_map, [0, 0, 1, 2]);
    m.set_hw_profile_mapping(0, 2);
    assert_eq!(m.config.hw_profile_map[0], 2);
    m.set_profile_brightness_value(42);
    assert_eq!(m.profile_brightness, 42);
}

#[test]
fn profile_names_as_json() {
    let m = ProfileModel::new();
    assert_eq!(m.get_profile_names(), "[\"Profile 1\",\"Profile 2\",\"Profile 3\"]");
}

#[test]
fn colors_as_text() {
    assert_eq!(color_string(Some((0x12, 0xAB, 0x00))), "#12ab00");
    assert_eq!(color_string(None), "default");
    assert_eq!(parse_color_hex("#12ab00"), Some((0x12, 0xAB, 0x00)));
    assert_eq!(parse_color_hex("##FFFFFF"), Some((255, 255, 255)));
    assert_eq!(parse_color_hex("+f+f+f"), Some((15, 15, 15)));
    assert_eq!(parse_color_hex("12ab0"), None);
    assert_eq!(parse_color_hex("12ab0g"), None);
    assert_eq!(parse_color_hex("-1ab00"), None);
}

#[test]
fn color_edit_updates_snapshot() {
    let mut m = usb_model(2);
    match m.set_profile_color_hex("#102030") {
        Some(WriteOp::SetColor { profile_idx, r, g, b }) => assert_eq!((profile_idx, r, g, b), (1, 0x10, 0x20, 0x30)),
        _ => panic!("expected a color write"),
    }
    assert_eq!(m.hw_cache.profiles[1].color, Some((0x10, 0x20, 0x30)));
    assert_eq!(m.profile_color, "#102030");
    m.update_profile_color_from_cache();
    assert_eq!(m.profile_color, "#102030");
    m.hw_profile = 0;
    m.read_hw_profile_color();
    assert_eq!(m.profile_color, "default");
    let mut bt = usb_model(2);
    bt.is_usb = false;
    assert!(bt.set_profile_color_hex("#102030").is_none());
    assert!(m.set_profile_color_hex("#102030").is_none());
}

#[test]
fn stick_inversion_bits() {
    let mut m = usb_model(1);
    match m.set_stick_invert(1, 0, true) {
        Some(WriteOp::SetStickInversion { profile_idx, mask }) => assert_eq!((profile_idx, mask), (0, 0x08)),
        _ => panic!("expected a write"),
    }
    m.set_stick_invert(0, 1, true);
    assert_eq!(m.get_stick_inversion(), [true, false, false, true]);
    m.set_stick_invert(1, 0, false);
    assert_eq!(m.hw_cache.profiles[0].stick_inversion, 0x01);
    assert!(m.set_stick_invert(2, 0, true).is_none());
    m.hw_cache_loaded = false;
    assert_eq!(m.get_stick_inversion(), [false; 4]);
}

#[test]
fn hardware_remap_writes() {
    let m = usb_model(3);
    let ops = m.set_hw_remap("a", "B", "lb");
    assert_eq!(ops.len(), 2);
    match &ops[0] {
        WriteOp::SetRemapNormal { profile_idx, from, to } => {
            assert_eq!((*profile_idx, *from, *to), (2, GipButton::A, GipButton::B))
        },
        _ => panic!("expected a normal remap"),
    }
    match &ops[1] {
        WriteOp::SetRemapShift { profile_idx, from, to } => {
            assert_eq!((*profile_idx, *from, *to), (2, GipButton::A, GipButton::LB))
        },
        _ => panic!("expected a shift remap"),
    }
    assert_eq!(m.set_hw_remap("a", "", "x").len(), 1);
    assert!(m.set_hw_remap("zz", "b", "b").is_empty());
    assert!(usb_model(0).set_hw_remap("a", "b", "b").is_empty());
    assert!(m.set_shift_button("LB").is_none());
}

#[test]
fn device_name_and_rumble_writes() {
    let mut m = usb_model(1);
    match m.set_device_name_text("Pad".to_string()) {
        Some(WriteOp::SetDeviceName { name }) => assert_eq!(name, "Pad"),
        _ => panic!("expected a name write"),
    }
    assert_eq!(m.device_name, "Pad");
    match m.test_vibration(2, 300) {
        Some(WriteOp::Rumble { lm, rm, lt, rt, duration_ms }) => assert_eq!((lm, rm, lt, rt, duration_ms), (0, 0, 100, 0, 50)),
        _ => panic!("expected a rumble"),
    }
    assert!(m.test_vibration(5, 10).is_none());
    m.vibration_main = 120;
    m.vibration_weak = -3;
    m.vibration_lt = 30;
    m.vibration_rt = 40;
    match m.test_all_vibration() {
        WriteOp::Rumble { lm, rm, lt, rt, .. } => assert_eq!((lm, rm, lt, rt), (100, 0, 30, 40)),
        _ => panic!("expected a rumble"),
    }
}

#[test]
fn hardware_profile_info_lists_remapped_slots() {
    let mut m = usb_model(1);
    let p = &mut m.hw_cache.profiles[0];
    p.face = [0x05, 0x05, 0x06, 0x07];
    p.ext = [0x09, 0x0A, 0x0B, 0x0C, 0x0D, 0x0E, 0x0F, 0x00];
    p.paddles = [0x04, 0x05, 0x06, 0x0C];
    p.shift_face = [0x04, 0x05, 0x06, 0x07];
    p.shift_ext = [0x08, 0x09, 0x0A, 0x0B, 0x0C, 0x0D, 0x0E, 0x0F];
    p.shift_paddles = [0x04, 0x05, 0x07, 0x07];
    p.color = Some((1, 2, 3));
    let info = m.get_hw_profile_info().unwrap();
    assert_eq!(info.normal[0], ("A", "B"));
    assert_eq!(info.normal[1], ("DUp", "DDown"));
    assert_eq!(info.normal.len(), 10);
    assert_eq!(info.normal[8], ("R Stick", "?"));
    assert_eq!(info.normal[9], ("P4", "LB"));
    assert_eq!(info.shift, vec![("P3", "Y")]);
    assert_eq!(info.color, "#010203");
    assert_eq!(info.shift_button, Some("DUp"));
    let expected = r##"{"color":"#010203","normal":{"A":"B","DDown":"DLeft","DLeft":"DRight","DRight":"LB","DUp":"DDown","L Stick":"RS","LB":"RB","P4":"LB","R Stick":"?","RB":"LS"},"shift":{"P3":"Y"},"shift_button":"DUp"}"##;
    assert_eq!(m.get_hw_profile_info_json(), expected);
    m.hw_cache.profiles[0].ext = [0x08, 0x09, 0x0A, 0x0B, 0x0C, 0x0D, 0x0E, 0x0F];
    m.hw_cache.profiles[0].color = None;
    assert!(m.get_hw_profile_info_json().starts_with(r#"{"color":"default","normal":{"A":"B","#));
    assert!(m.get_hw_profile_info_json().ends_with(r#""shift":{"P3":"Y"},"shift_button":null}"#));
    m.hw_profile = 4;
    assert!(m.get_hw_profile_info().is_none());
    assert_eq!(m.get_hw_profile_info_json(), "{}");
}

#[test]
fn live_input_from_events() {
    let mut s = ControllerInput::default();
    update_input(&mut s, 1, 0x133, 1);
    update_input(&mut s, 1, 0x2C2, 1);
    update_input(&mut s, 3, 0x05, 700);
    update_input(&mut s, 3, 0x00, -5);
    assert_eq!(s.buttons, 0x0004);
    assert_eq!(s.paddles, 0x04);
    assert_eq!(s.right_trigger, 700);
    assert_eq!(s.left_stick_x, -5);
    update_input(&mut s, 1, 0x133, 2);
    assert_eq!(s.buttons, 0x0004);
    update_input(&mut s, 1, 0x133, 0);
    update_input(&mut s, 1, 0x2C2, 0);
    assert_eq!((s.buttons, s.paddles), (0, 0));
    let mut m = ProfileModel::new();
    m.apply_live_input(&s);
    assert_eq!(m.live_rt, 700);
}

#[test]
fn detection_results() {
    let d = disconnected();
    assert!(!d.connected);
    assert_eq!(d.name, "No controller found");
    assert_eq!(module_not_loaded().name, "xbelite2 module not loaded");
    let b = bound_controller(true, 2, Some("/dev/input/event4".to_string()), "/sys/x".to_string());
    assert!(b.connected && b.is_usb);
    assert_eq!(b.name, "Xbox Elite Wireless Controller Series 2");
    assert!(is_usb_interface_entry("1-1:1.0"));
    assert!(!is_usb_interface_entry("module"));
    assert!(is_bt_hid_entry("0005:045E:0B22.0003"));
    assert!(!is_bt_hid_entry("0003:045E:0B00.0001"));
    assert!(!is_bt_hid_entry("0005:045E"));
}

#[test]
fn detection_updates_model() {
    let mut m = ProfileModel::new();
    let info = bound_controller(true, 1, Some("/dev/input/event7".to_string()), "/sys/bus/usb/1-1:1.0".to_string());
    let act = m.apply_detection(info);
    assert!(m.connected && m.is_usb);
    assert_eq!(m.hw_profile, 1);
    assert_eq!(m.sysfs_path.as_deref(), Some("/sys/bus/usb/1-1:1.0"));
    assert_eq!(act.open_event.as_deref(), Some("/dev/input/event7"));
    assert!(act.read_cache);
    m.store_hw_cache(Some(HwProfileCache::default()));
    assert!(m.hw_cache_loaded);
    let act2 = m.apply_detection(disconnected());
    assert!(!m.connected && !m.hw_cache_loaded);
    assert!(act2.open_event.is_none() && !act2.read_cache);
    m.apply_polled_profile(3);
    assert_eq!(m.hw_profile, 3);
    m.forget_device_path();
    assert!(m.sysfs_path.is_none());
}

#[test]
fn start_up_detection_and_config() {
    let mut m = ProfileModel::new();
    let act = m.init_detection(bound_controller(false, 0, None, "/sys/bt".to_string()));
    assert!(m.connected && !m.is_usb);
    assert!(!act.read_cache && !act.read_name);
    let mut cfg = GuiConfig::default();
    cfg.profiles.push(GuiProfile::named("Extra".to_string()));
    m.install_config(cfg);
    assert_eq!(m.profile_count, 4);
    m.show_device_name("Elite".to_string());
    assert_eq!(m.device_name, "Elite");
    let act = m.init_detection(ControllerInfo {
        connected: false,
        is_usb: false,
        name: "gone".to_string(),
        hw_profile: 0,
        event_path: None,
        sysfs_path: None,
    });
    assert!(!m.connected && act.open_event.is_none());
}

#[test]
fn delete_undoes_create() {
    let mut m = ProfileModel::new();
    m.select_profile(1);
    let before: Vec<String> = m.config.profiles.iter().map(|p| p.name.clone()).collect();
    m.create_profile("Racing".to_string());
    assert_eq!(m.sel_idx, before.len());
    assert_eq!(m.profile_name, "Racing");
    m.delete_profile();
    let after: Vec<String> = m.config.profiles.iter().map(|p| p.name.clone()).collect();
    assert_eq!(after, before);
}

#[test]
fn controller_choice() {
    assert_eq!(choose_controller(false, false, &[("1-1:1.0", true)], &[]), DetectChoice::ModuleMissing);
    assert_eq!(
        choose_controller(true, true, &[("bind", false), ("1-1:1.0", false), ("1-2:1.0", true)], &["0005:045E:0B22.0001"]),
        DetectChoice::Usb(2)
    );
    assert_eq!(
        choose_controller(true, true, &[("bind", false)], &["0003:045E:0B00.0001", "0005:045E:0B22.0002"]),
        DetectChoice::Bt(1)
    );
    assert_eq!(choose_controller(false, true, &[("uevent", false)], &["0005:045E:0B22.0002"]), DetectChoice::Disconnected);
    assert_eq!(choose_controller(true, false, &[("1-1:1.0", true)], &[]), DetectChoice::Disconnected);
}
