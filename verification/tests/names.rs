use xbelite2::cli::name_write_exact;
use xbelite2::name::{name_from_response, name_write_payload};

#[test]
fn stored_name_checks() {
    assert!(name_write_exact("Elite", "Elite"));
    assert!(name_write_exact("ABCDEFGHIJKLMNO", "ABCDEFGHIJKLMNOPQ"));
    assert!(!name_write_exact("Elite 2", "Elite"));
    assert!(!name_write_exact("Elit", "Elite"));
}

#[test]
fn name_read_of_write() {
    for name in ["Elite", "ABCDEFGHIJKLMNOPQ", "\u{1F3AE} pad", ""] {
        let payload = name_write_payload(name);
        let mut resp = vec![0x4D, 0x10, 0x01, 34, 0x05, 0x00];
        resp.extend_from_slice(&payload[1..]);
        let expected: String = name.chars().take(15).collect();
        assert_eq!(name_from_response(&resp), Some(expected));
    }
}

#[test]
fn long_name_is_cut_to_the_field() {
    let name = "\u{1F600}".repeat(9);
    let payload = name_write_payload(&name);
    assert_eq!(payload.len(), 33);
    assert_eq!(payload[0], 0x04);
    let units: Vec<u16> = "\u{1F600}".repeat(8).encode_utf16().collect();
    assert_eq!(units.len(), 16);
    for (i, u) in units.iter().enumerate() {
        assert_eq!(payload[1 + 2 * i], (u & 0xFF) as u8);
        assert_eq!(payload[2 + 2 * i], (u >> 8) as u8);
    }
    let mut resp = vec![0x4D, 0x10, 0x01, 34, 0x05, 0x00];
    resp.extend_from_slice(&payload[1..]);
    assert_eq!(name_from_response(&resp), Some("\u{1F600}".repeat(8)));
    let mixed = "ABCDEFGHIJKLM\u{1F600}\u{1F600}";
    let p = name_write_payload(mixed);
    assert_eq!(&p[25..27], &[b'M', 0]);
    assert_eq!(&p[31..33], &[0, 0]);
    let mut resp = vec![0x4D, 0x10, 0x01, 34, 0x05, 0x00];
    resp.extend_from_slice(&p[1..]);
    assert_eq!(name_from_response(&resp), Some("ABCDEFGHIJKLM\u{1F600}".to_string()));
}
