use xbelite2::frames::{
    begin_write_frames, build_frame, classify_frame, commit_frames, forward_gip_message,
    gip_header_len, led_color_payload, led_off_payload, page_from_response, read_page_request,
    record_len, system_frame, vendor_frame, write_page_frame, FrameVerdict, SeqCounter,
};
use xbelite2::gip_types::{
    btn_code, btn_name, curves_page, default_curve_array, default_ext_array, default_face_array,
    mapping_page, GipButton, ProfileCurves, ProfileMapping, FLAGS_DEFAULT,
};
use xbelite2::hw_profile::{default_paddles, default_rumble_intensity, default_saturation, HwProfile, HwProfileCache};
use xbelite2::pages::{
    apply_paddle_remaps, apply_remap_to_data, apply_remaps, ext_slot_for_button, factory_curves_page,
    factory_mapping_page, page_stick_inversion, reset_page_color, reset_page_remaps, set_page_color,
    set_page_curves, set_page_deadzones, set_page_stick_inversion, set_page_vibration,
    shift_button_page,
};

fn default_page() -> Vec<u8> {
    factory_mapping_page()
}

#[test]
fn button_codes_and_names_round_trip() {
    for code in 0x04u8..=0x0F {
        let b = GipButton::from_code(code).unwrap();
        assert_eq!(b.code(), code);
        assert_eq!(GipButton::from_name(b.name()), Some(b));
    }
    assert_eq!(GipButton::from_code(0x08), Some(GipButton::DUp));
    assert_eq!(GipButton::from_code(0x0B), Some(GipButton::DRight));
    assert_eq!(GipButton::from_code(0x0C), Some(GipButton::LB));
    assert_eq!(GipButton::from_code(0x0D), Some(GipButton::RB));
    assert_eq!(GipButton::from_code(0x0E), Some(GipButton::LS));
    assert_eq!(GipButton::from_code(0x03), None);
    assert_eq!(GipButton::from_code(0x10), None);
}

#[test]
fn button_names_accept_aliases_and_any_case() {
    assert_eq!(GipButton::from_name("a"), Some(GipButton::A));
    assert_eq!(GipButton::from_name("Lb"), Some(GipButton::LB));
    assert_eq!(GipButton::from_name("up"), Some(GipButton::DUp));
    assert_eq!(GipButton::from_name("DOWN"), Some(GipButton::DDown));
    assert_eq!(GipButton::from_name("left"), Some(GipButton::DLeft));
    assert_eq!(GipButton::from_name("dRight"), Some(GipButton::DRight));
    assert_eq!(GipButton::from_name("start"), None);
    assert_eq!(GipButton::from_name(""), None);
    assert_eq!(GipButton::DDown.name(), "DDown");
}

#[test]
fn btn_name_and_code_helpers() {
    assert_eq!(btn_name(0x04), "A");
    assert_eq!(btn_name(0x0F), "RS");
    assert_eq!(btn_name(0x08), "DUp");
    assert_eq!(btn_name(0x00), "?");
    assert_eq!(btn_code("rs"), Some(0x0F));
    assert_eq!(btn_code("rt"), None);
    assert_eq!(btn_code("x"), Some(0x06));
    assert_eq!(btn_code("p1"), None);
}

#[test]
fn page_addresses() {
    assert_eq!(mapping_page(0, 0), 0x20);
    assert_eq!(mapping_page(0, 1), 0x26);
    assert_eq!(mapping_page(2, 1), 0x2A);
    assert_eq!(curves_page(1, 0), 0x23);
    assert_eq!(curves_page(2, 1), 0x2B);
}

#[test]
fn default_arrays() {
    assert_eq!(default_face_array(), [0x04, 0x05, 0x06, 0x07]);
    assert_eq!(default_ext_array(), [0x08, 0x09, 0x0A, 0x0B, 0x0C, 0x0D, 0x0E, 0x0F]);
    assert_eq!(default_curve_array(), [0x2B, 0x2B, 0x7F, 0x7F, 0xBF, 0xBF]);
    assert_eq!(default_paddles(), [0x04, 0x05, 0x06, 0x07]);
    assert_eq!(default_saturation(), [0xFF, 0xFF, 0xFF, 0xFF]);
    assert_eq!(default_rumble_intensity(), [100, 100, 100, 100]);
}

#[test]
fn mapping_decodes_layout() {
    let mut page = vec![0u8; 56];
    page[0] = 0x10;
    page[1..5].copy_from_slice(&[0x0C, 0x0D, 0x0E, 0x0F]);
    page[5..9].copy_from_slice(&[0x05, 0x04, 0x06, 0x07]);
    page[28..32].copy_from_slice(&[10, 20, 30, 40]);
    page[32] = 1;
    page[34] = 2;
    page[38] = 3;
    page[40] = 4;
    page[44] = 80;
    page[45] = 0x00;
    page[46..49].copy_from_slice(&[0x12, 0x34, 0x56]);
    page[49] = 48;
    page[50] = 60;
    let m = ProfileMapping::from_raw(&page).unwrap();
    assert_eq!(m.flags, 0x10);
    assert!(m.is_custom());
    assert_eq!(m.paddles, [0x0C, 0x0D, 0x0E, 0x0F]);
    assert_eq!(m.face, [0x05, 0x04, 0x06, 0x07]);
    assert_eq!(m.deadzones, [10, 20, 30, 40]);
    assert_eq!(m.saturation, [1, 2, 3, 4]);
    assert_eq!(m.brightness, 80);
    assert_eq!(m.color, Some((0x12, 0x34, 0x56)));
    assert_eq!(m.vibration, (48, 60));
    assert_eq!(m.raw, page);
    assert!(ProfileMapping::from_raw(&page[..55]).is_none());
}

#[test]
fn default_color_flag_means_no_color() {
    let page = default_page();
    let m = ProfileMapping::from_raw(&page).unwrap();
    assert_eq!(m.color, None);
    assert!(!m.is_custom());
    assert_eq!(m.flags, FLAGS_DEFAULT);
}

#[test]
fn curves_decode() {
    let page = factory_curves_page();
    assert_eq!(page.len(), 43);
    let c = ProfileCurves::from_raw(&page).unwrap();
    assert_eq!(c.flags, 0x11);
    for i in 0..4 {
        assert_eq!(c.curves[i], [0x2B, 0x2B, 0x7F, 0x7F, 0xBF, 0xBF]);
    }
    assert!(ProfileCurves::from_raw(&page[..24]).is_none());
}

#[test]
fn factory_mapping_page_contents() {
    let p = factory_mapping_page();
    assert_eq!(p.len(), 56);
    assert_eq!(p[0], 0x11);
    assert_eq!(&p[1..5], &[4, 5, 6, 7]);
    assert_eq!(&p[5..9], &[4, 5, 6, 7]);
    assert_eq!(&p[9..17], &[8, 9, 10, 11, 12, 13, 14, 15]);
    assert_eq!(&p[28..32], &[100, 100, 100, 100]);
    assert_eq!(&p[32..44], &[0xFF, 0x00, 0xFF, 0x00, 0x00, 0x00, 0xFF, 0x00, 0xFF, 0x00, 0x00, 0x00]);
    assert_eq!(p[44], 100);
    assert_eq!(p[45], 0xFF);
    assert_eq!(p[49], 48);
    assert_eq!(p[50], 48);
}

#[test]
fn remap_face_and_extended_slots() {
    let mut d = default_page();
    apply_remap_to_data(&mut d, GipButton::A, GipButton::B);
    assert_eq!(d[5], 0x05);
    apply_remap_to_data(&mut d, GipButton::RB, GipButton::LS);
    let slot = ext_slot_for_button(GipButton::RB.code()).unwrap();
    assert_eq!(slot, 5);
    assert_eq!(d[9 + slot], 0x0E);
    assert_eq!(ext_slot_for_button(0x04), None);
    // Every other byte is untouched.
    let f = default_page();
    for i in 0..56 {
        if i != 5 && i != 14 {
            assert_eq!(d[i], f[i]);
        }
    }
}

#[test]
fn remaps_apply_in_order() {
    let mut d = default_page();
    apply_remaps(&mut d, &[(GipButton::X, GipButton::Y), (GipButton::X, GipButton::A)]);
    assert_eq!(d[7], 0x04);
}

#[test]
fn paddle_remaps_ignore_bad_index() {
    let mut d = default_page();
    apply_paddle_remaps(&mut d, &[(0, GipButton::DUp), (7, GipButton::B)]);
    assert_eq!(&d[1..5], &[0x08, 0x05, 0x06, 0x07]);
}

#[test]
fn color_edit_and_reset() {
    let mut d = default_page();
    set_page_color(&mut d, 1, 2, 3);
    assert_eq!(&d[45..49], &[0x00, 1, 2, 3]);
    assert_eq!(ProfileMapping::from_raw(&d).unwrap().color, Some((1, 2, 3)));
    reset_page_color(&mut d);
    assert_eq!(&d[45..49], &[0xFF, 0, 0, 0]);
    assert_eq!(ProfileMapping::from_raw(&d).unwrap().color, None);
}

#[test]
fn deadzone_vibration_and_remap_reset() {
    let mut d = default_page();
    set_page_deadzones(&mut d, 1, 2, 3, 4);
    assert_eq!(&d[28..32], &[1, 2, 3, 4]);
    set_page_vibration(&mut d, 70, 80);
    assert_eq!((d[49], d[50]), (70, 80));
    apply_remap_to_data(&mut d, GipButton::A, GipButton::Y);
    reset_page_remaps(&mut d);
    assert_eq!(&d[1..17], &default_page()[1..17]);
}

#[test]
fn shift_button_moves_out_of_extended_slots() {
    let d = default_page();
    let page = shift_button_page(&d, Some(GipButton::LB)).unwrap();
    assert_eq!(&page[9..17], &[0x08, 0x09, 0x0A, 0x0B, 0x0D, 0x0E, 0x0F, 0x00]);
    assert_eq!(page[0], 0x11 | 0x01);
    let cleared = shift_button_page(&page, None).unwrap();
    assert_eq!(&cleared[9..17], &[8, 9, 10, 11, 12, 13, 14, 15]);
    assert_eq!(cleared[0], 0x10);
    assert!(shift_button_page(&d[..55], None).is_none());
}

#[test]
fn curves_and_stick_inversion_edits() {
    let mut c = factory_curves_page();
    set_page_curves(&mut c, [1; 6], [2; 6], [3; 6], [4; 6]);
    assert_eq!(&c[1..7], &[1; 6]);
    assert_eq!(&c[19..25], &[4; 6]);
    assert_eq!(page_stick_inversion(&c), Some(0));
    assert!(set_page_stick_inversion(&mut c, 0x03));
    assert_eq!(c[27], 0x03);
    let mut short = vec![0u8; 27];
    assert!(!set_page_stick_inversion(&mut short, 1));
    assert_eq!(page_stick_inversion(&short), None);
}

#[test]
fn frames_carry_header_and_payload() {
    assert_eq!(build_frame(0x0E, 0x00, 7, &[1, 2]), vec![0x0E, 0x00, 7, 2, 1, 2]);
    assert_eq!(vendor_frame(0x80, &[0x03]), vec![0x4D, 0x10, 0x80, 1, 0x03]);
    assert_eq!(system_frame(0x60, &[0x0F]), vec![0x1E, 0x30, 0x60, 1, 0x0F]);
    assert_eq!(read_page_request(0x20, 0x38), [0x02, 0x20, 0x38]);
    let f = write_page_frame(0xD0, 0x21, &[9, 8]);
    assert_eq!(f, vec![0x4D, 0x10, 0xD0, 5, 0x01, 0x21, 2, 9, 8]);
}

#[test]
fn page_read_response_extraction() {
    let resp = [0x4D, 0x10, 1, 9, 0x02, 0x20, 0x38, 0x00, 0xAA, 0xBB];
    assert_eq!(page_from_response(&resp), Some(vec![0xAA, 0xBB]));
    let wrong_sub = [0x4D, 0x10, 1, 9, 0x03, 0x20, 0x38, 0x00, 0xAA];
    assert_eq!(page_from_response(&wrong_sub), None);
    assert_eq!(page_from_response(&[0x4D, 0x10, 1, 3, 0x02, 0, 0]), None);
}

#[test]
fn frame_classification_and_forwarding() {
    assert_eq!(classify_frame(&[], 0x4D), FrameVerdict::Stop);
    assert_eq!(classify_frame(&[0x20, 0], 0x4D), FrameVerdict::Skip);
    assert_eq!(classify_frame(&[0x4D, 0], 0x4D), FrameVerdict::Accept);
    assert_eq!(classify_frame(&[0x1E, 0], 0x4D), FrameVerdict::Skip);
    assert!(forward_gip_message(&[0x4D]));
    assert!(forward_gip_message(&[0x0C, 1, 2]));
    assert!(!forward_gip_message(&[0x09]));
    assert!(!forward_gip_message(&[]));
}

#[test]
fn ring_record_lengths() {
    assert_eq!(record_len(0, 0, 512), None);
    assert_eq!(record_len(0x14, 0, 512), Some(20));
    assert_eq!(record_len(0x01, 0x02, 512), None);
    assert_eq!(record_len(0x00, 0x02, 512), Some(512));
}

#[test]
fn sequence_numbers_wrap() {
    let mut c = SeqCounter::new(0xFF);
    assert_eq!(c.next_seq(), 0xFF);
    assert_eq!(c.next_seq(), 0x00);
    assert_eq!(c.next_seq(), 0x01);
}

#[test]
fn write_unlock_and_commit_sequences() {
    let mut c = SeqCounter::new(0xA0);
    let frames = begin_write_frames(&mut c);
    assert_eq!(frames.len(), 6);
    assert_eq!(frames[0], vec![0x4D, 0x10, 0xA0, 2, 0x07, 0x00]);
    assert_eq!(frames[2], vec![0x4D, 0x10, 0xA2, 1, 0x03]);
    assert_eq!(frames[5], vec![0x4D, 0x10, 0xA5, 1, 0x03]);
    let mut k = SeqCounter::new(0xE0);
    let commit = commit_frames(&mut k);
    assert_eq!(commit, vec![vec![0x4D, 0x10, 0xE0, 2, 0x07, 0x00], vec![0x4D, 0x10, 0xE1, 1, 0x03]]);
}

#[test]
fn led_payloads() {
    assert_eq!(led_color_payload(1, 2, 3), [0x00, 0x00, 1, 2, 3]);
    assert_eq!(led_off_payload(), [0x01, 0x00, 0x00, 0x00, 0x00]);
}

#[test]
fn gip_header_lengths() {
    assert_eq!(gip_header_len(&[1, 2]), 2);
    assert_eq!(gip_header_len(&[0x04, 0x20, 1, 3, 9, 9]), 4);
    assert_eq!(gip_header_len(&[0x04, 0x40, 1, 3, 9, 9, b'{', 1]), 6);
    assert_eq!(gip_header_len(&[0x04, 0xC0, 1, 3, 9, 9, 9, 9, 9]), 8);
}

#[test]
fn hw_profile_pages_round_trip() {
    let mut page_a = default_page();
    apply_remap_to_data(&mut page_a, GipButton::A, GipButton::B);
    set_page_color(&mut page_a, 9, 8, 7);
    let mut page_b = default_page();
    apply_remap_to_data(&mut page_b, GipButton::Y, GipButton::X);
    let mut curves = factory_curves_page();
    set_page_stick_inversion(&mut curves, 0x02);
    let a = ProfileMapping::from_raw(&page_a).unwrap();
    let b = ProfileMapping::from_raw(&page_b).unwrap();
    let c = ProfileCurves::from_raw(&curves).unwrap();
    let p = HwProfile::from_pages(&a, Some(&c), Some(&b));
    assert_eq!(p.face, [0x05, 0x05, 0x06, 0x07]);
    assert_eq!(p.shift_face, [0x04, 0x05, 0x06, 0x06]);
    assert_eq!(p.color, Some((9, 8, 7)));
    assert_eq!(p.stick_inversion, 0x02);
    assert!(p.is_face_remapped(0));
    assert!(!p.is_face_remapped(1));
    assert!(p.has_any_remap());
    assert!(!p.has_paddle_remaps());
    let a2 = p.to_slot_a_bytes();
    let back = ProfileMapping::from_raw(&a2).unwrap();
    assert_eq!(back.face, a.face);
    assert_eq!(back.color, a.color);
    assert_eq!(back.vibration, a.vibration);
    let b2 = p.to_slot_b_bytes();
    assert_eq!(&b2[5..9], &[0x04, 0x05, 0x06, 0x06]);
}

#[test]
fn missing_shift_page_falls_back_to_defaults() {
    let a = ProfileMapping::from_raw(&default_page()).unwrap();
    let p = HwProfile::from_pages(&a, None, None);
    assert_eq!(p.shift_face, [4, 5, 6, 7]);
    assert_eq!(p.shift_ext, [8, 9, 10, 11, 12, 13, 14, 15]);
    assert_eq!(p.stick_inversion, 0);
    assert!(!p.is_ext_remapped(3));
}

#[test]
fn empty_cache_profiles_are_zero() {
    let cache = HwProfileCache::default();
    for p in cache.profiles.iter() {
        assert_eq!(p.face, [0; 4]);
        assert_eq!(p.color, None);
        assert_eq!(p.brightness, 0);
    }
}

#[test]
fn reset_undoes_remaps() {
    let mut page = default_page();
    page[20] = 0x33;
    page[0] = 0x10;
    let mut reset_only = page.clone();
    reset_page_remaps(&mut reset_only);

    let mut edited = page.clone();
    apply_paddle_remaps(&mut edited, &[(0, GipButton::A), (3, GipButton::DUp)]);
    apply_remaps(&mut edited, &[(GipButton::A, GipButton::B), (GipButton::LB, GipButton::RS)]);
    assert_ne!(edited, page);
    reset_page_remaps(&mut edited);
    assert_eq!(edited, reset_only);
    assert_eq!(edited[20], 0x33);
    assert_eq!(edited[0], 0x10);
}

#[test]
fn settings_read_back() {
    let mut page = default_page();
    set_page_color(&mut page, 1, 2, 3);
    set_page_deadzones(&mut page, 10, 11, 5, 6);
    set_page_vibration(&mut page, 48, 20);
    let m = ProfileMapping::from_raw(&page).unwrap();
    assert_eq!(m.deadzones, [10, 11, 5, 6]);
    assert_eq!(m.vibration, (48, 20));
    assert_eq!(m.color, Some((1, 2, 3)));
    assert_eq!(m.face, default_face_array());
}

#[test]
fn button_lookup_ignores_case() {
    for name in ["a", "LB", "dRiGhT", "Up", "ls", "RS"] {
        assert_eq!(GipButton::from_name(name), GipButton::from_name(&name.to_lowercase()));
        assert!(GipButton::from_name(name).is_some());
    }
    assert_eq!(GipButton::from_name("lt"), None);
    assert_eq!(GipButton::from_name("RT"), None);
}
