use xbelite2::rumble::gip_rumble_packet;

#[test]
fn gip_rumble_caps_motor_values() {
    let p = gip_rumble_packet(150, 20, 0, 100);
    assert_eq!(p, [0x09, 0x00, 0x00, 0x09, 0x00, 0x0F, 100, 20, 0, 100, 0xFF, 0x00, 0xEB]);
}
