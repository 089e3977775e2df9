//! Decoding helpers of the diagnostic tools: event code names, GIP command
//! names and the GUID scan of a metadata blob.

use vstd::prelude::*;

use crate::text::{hex_text, push_hex};
use crate::transform::OutputEvent;

verus! {

/// The name of a key code: the gamepad buttons and paddles, and with
/// `extended` also `BTN_TRIGGER_HAPPY5` to `12` (0x2C0-0x2C7, printed as
/// `BTN_TH5` to `BTN_TH12`).
pub open spec fn key_label(code: u16, extended: bool) -> Option<Seq<char>> {
    if code == 0x130 {
        Some("BTN_A"@)
    } else if code == 0x131 {
        Some("BTN_B"@)
    } else if code == 0x133 {
        Some("BTN_X"@)
    } else if code == 0x134 {
        Some("BTN_Y"@)
    } else if code == 0x136 {
        Some("BTN_TL"@)
    } else if code == 0x137 {
        Some("BTN_TR"@)
    } else if code == 0x13A {
        Some("BTN_SELECT"@)
    } else if code == 0x13B {
        Some("BTN_START"@)
    } else if code == 0x13C {
        Some("BTN_MODE"@)
    } else if code == 0x13D {
        Some("BTN_THUMBL"@)
    } else if code == 0x13E {
        Some("BTN_THUMBR"@)
    } else if code == 0x224 {
        Some("BTN_GRIPL"@)
    } else if code == 0x225 {
        Some("BTN_GRIPR"@)
    } else if code == 0x226 {
        Some("BTN_GRIPL2"@)
    } else if code == 0x227 {
        Some("BTN_GRIPR2"@)
    } else if extended && code == 0x2C0 {
        Some("BTN_TH5"@)
    } else if extended && code == 0x2C1 {
        Some("BTN_TH6"@)
    } else if extended && code == 0x2C2 {
        Some("BTN_TH7"@)
    } else if extended && code == 0x2C3 {
        Some("BTN_TH8"@)
    } else if extended && code == 0x2C4 {
        Some("BTN_TH9"@)
    } else if extended && code == 0x2C5 {
        Some("BTN_TH10"@)
    } else if extended && code == 0x2C6 {
        Some("BTN_TH11"@)
    } else if extended && code == 0x2C7 {
        Some("BTN_TH12"@)
    } else {
        None
    }
}

/// The name of an axis code; with `extended` also `ABS_PROFILE` (0x28).
pub open spec fn abs_label(code: u16, extended: bool) -> Option<Seq<char>> {
    if code == 0x00 {
        Some("ABS_X"@)
    } else if code == 0x01 {
        Some("ABS_Y"@)
    } else if code == 0x02 {
        Some("ABS_Z"@)
    } else if code == 0x03 {
        Some("ABS_RX"@)
    } else if code == 0x04 {
        Some("ABS_RY"@)
    } else if code == 0x05 {
        Some("ABS_RZ"@)
    } else if code == 0x10 {
        Some("ABS_HAT0X"@)
    } else if code == 0x11 {
        Some("ABS_HAT0Y"@)
    } else if extended && code == 0x28 {
        Some("ABS_PROFILE"@)
    } else {
        None
    }
}

fn key_name(code: u16, extended: bool) -> (res: Option<&'static str>)
    ensures
        match key_label(code, extended) {
            Some(l) => res matches Some(s) && s@ == l,
            None => res is None,
        },
{
    if code == 0x130 {
        Some("BTN_A")
    } else if code == 0x131 {
        Some("BTN_B")
    } else if code == 0x133 {
        Some("BTN_X")
    } else if code == 0x134 {
        Some("BTN_Y")
    } else if code == 0x136 {
        Some("BTN_TL")
    } else if code == 0x137 {
        Some("BTN_TR")
    } else if code == 0x13A {
        Some("BTN_SELECT")
    } else if code == 0x13B {
        Some("BTN_START")
    } else if code == 0x13C {
        Some("BTN_MODE")
    } else if code == 0x13D {
        Some("BTN_THUMBL")
    } else if code == 0x13E {
        Some("BTN_THUMBR")
    } else if code == 0x224 {
        Some("BTN_GRIPL")
    } else if code == 0x225 {
        Some("BTN_GRIPR")
    } else if code == 0x226 {
        Some("BTN_GRIPL2")
    } else if code == 0x227 {
        Some("BTN_GRIPR2")
    } else if extended && code == 0x2C0 {
        Some("BTN_TH5")
    } else if extended && code == 0x2C1 {
        Some("BTN_TH6")
    } else if extended && code == 0x2C2 {
        Some("BTN_TH7")
    } else if extended && code == 0x2C3 {
        Some("BTN_TH8")
    } else if extended && code == 0x2C4 {
        Some("BTN_TH9")
    } else if extended && code == 0x2C5 {
        Some("BTN_TH10")
    } else if extended && code == 0x2C6 {
        Some("BTN_TH11")
    } else if extended && code == 0x2C7 {
        Some("BTN_TH12")
    } else {
        None
    }
}

fn abs_name(code: u16, extended: bool) -> (res: Option<&'static str>)
    ensures
        match abs_label(code, extended) {
            Some(l) => res matches Some(s) && s@ == l,
            None => res is None,
        },
{
    if code == 0x00 {
        Some("ABS_X")
    } else if code == 0x01 {
        Some("ABS_Y")
    } else if code == 0x02 {
        Some("ABS_Z")
    } else if code == 0x03 {
        Some("ABS_RX")
    } else if code == 0x04 {
        Some("ABS_RY")
    } else if code == 0x05 {
        Some("ABS_RZ")
    } else if code == 0x10 {
        Some("ABS_HAT0X")
    } else if code == 0x11 {
        Some("ABS_HAT0Y")
    } else if extended && code == 0x28 {
        Some("ABS_PROFILE")
    } else {
        None
    }
}

/// The name of an event code, or a prefix and the code in hexadecimal
/// with at least `key_min`/`abs_min`/`other_min` digits.
pub open spec fn code_text(
    ev_type: u16,
    code: u16,
    extended: bool,
    key_min: nat,
    abs_min: nat,
    other_min: nat,
) -> Seq<char> {
    if ev_type == 1 {
        match key_label(code, extended) {
            Some(l) => l,
            None => "KEY_"@ + hex_text(code as nat, key_min),
        }
    } else if ev_type == 3 {
        match abs_label(code, extended) {
            Some(l) => l,
            None => "ABS_"@ + hex_text(code as nat, abs_min),
        }
    } else {
        hex_text(code as nat, other_min)
    }
}

fn code_string(ev_type: u16, code: u16, extended: bool, key_min: u64, abs_min: u64, other_min: u64) -> (res: String)
    requires
        key_min <= 64 && abs_min <= 64 && other_min <= 64,
    ensures
        res@ == code_text(ev_type, code, extended, key_min as nat, abs_min as nat, other_min as nat),
{
    if ev_type == 1 {
        match key_name(code, extended) {
            Some(n) => String::from_str(n),
            None => {
                let mut s = String::from_str("KEY_");
                push_hex(&mut s, code as u64, key_min);
                s
            },
        }
    } else if ev_type == 3 {
        match abs_name(code, extended) {
            Some(n) => String::from_str(n),
            None => {
                let mut s = String::from_str("ABS_");
                push_hex(&mut s, code as u64, abs_min);
                s
            },
        }
    } else {
        let mut s = String::new();
        push_hex(&mut s, code as u64, other_min);
        proof {
            assert(s@ =~= hex_text(code as nat, other_min as nat));
        }
        s
    }
}

/// The name of an event code as the event dump tool prints it (unknown
/// keys as `KEY_0x` and four digits, unknown axes as `ABS_0x` and two
/// digits, other types as `0x` and four digits).
pub fn format_code(ev_type: u16, code: u16) -> (res: String)
    ensures
        res@ == code_text(ev_type, code, true, 4, 2, 4),
{
    code_string(ev_type, code, true, 4, 2, 4)
}

/// The name of an event code as the virtual gamepad test prints it (unknown
/// codes in unpadded hexadecimal).
pub fn format_test_code(ev_type: u16, code: u16) -> (res: String)
    ensures
        res@ == code_text(ev_type, code, false, 1, 1, 1),
{
    code_string(ev_type, code, false, 1, 1, 1)
}

/// The name of an output event as the Bluetooth test prints it: a key or
/// axis name, else the type and code in hexadecimal, `:`-separated.
pub fn format_event(ev: &OutputEvent) -> (res: String)
    ensures
        ev.ev_type == 1 || ev.ev_type == 3 ==> res@ == code_text(ev.ev_type, ev.code, false, 1, 1, 1),
        ev.ev_type != 1 && ev.ev_type != 3 ==> res@ == hex_text(ev.ev_type as nat, 1) + ":"@ + hex_text(
            ev.code as nat,
            1,
        ),
{
    if ev.ev_type == 1 || ev.ev_type == 3 {
        code_string(ev.ev_type, ev.code, false, 1, 1, 1)
    } else {
        let mut s = String::new();
        push_hex(&mut s, ev.ev_type as u64, 1);
        s.append(":");
        push_hex(&mut s, ev.code as u64, 1);
        proof {
            assert(s@ =~= hex_text(ev.ev_type as nat, 1) + ":"@ + hex_text(ev.code as nat, 1));
        }
        s
    }
}

/// The name of a GIP command byte in the protocol tool's log.
pub open spec fn gip_command_label(cmd: u8) -> Seq<char> {
    if cmd == 0x01 {
        "ACK"@
    } else if cmd == 0x02 {
        "HELLO"@
    } else if cmd == 0x03 {
        "STATUS"@
    } else if cmd == 0x04 {
        "METADATA"@
    } else if cmd == 0x07 {
        "GUIDE"@
    } else if cmd == 0x20 {
        "INPUT"@
    } else if cmd == 0x4D {
        "VENDOR_4D"@
    } else {
        "UNKNOWN"@
    }
}

/// The name of a GIP command byte.
pub fn gip_command_name(cmd: u8) -> (res: &'static str)
    ensures
        res@ == gip_command_label(cmd),
{
    if cmd == 0x01 {
        "ACK"
    } else if cmd == 0x02 {
        "HELLO"
    } else if cmd == 0x03 {
        "STATUS"
    } else if cmd == 0x04 {
        "METADATA"
    } else if cmd == 0x07 {
        "GUIDE"
    } else if cmd == 0x20 {
        "INPUT"
    } else if cmd == 0x4D {
        "VENDOR_4D"
    } else {
        "UNKNOWN"
    }
}

/// The number of nonzero bytes among the first `n` of `w`.
pub open spec fn nonzero_count(w: Seq<u8>, n: int) -> nat
    decreases n,
{
    if n <= 0 {
        0
    } else {
        nonzero_count(w, n - 1) + if w[n - 1] != 0 {
            1nat
        } else {
            0
        }
    }
}

/// The bytes of the `IProgrammableGamepad` interface GUID
/// 31c1034d-b5b7-4551-9813-8769d4a0e4f9 as stored (first three fields
/// little-endian).
pub open spec fn programmable_gamepad_guid() -> Seq<u8> {
    seq![
        0x4Du8,
        0x03,
        0xC1,
        0x31,
        0xB7,
        0xB5,
        0x51,
        0x45,
        0x98,
        0x13,
        0x87,
        0x69,
        0xD4,
        0xA0,
        0xE4,
        0xF9,
    ]
}

/// Whether the 16 bytes at `i` are reported as a GUID: at least 8 nonzero
/// bytes and either the known interface GUID or at least 12 nonzero bytes.
pub open spec fn is_guid_candidate(d: Seq<u8>, i: int) -> bool {
    let w = d.subrange(i, i + 16);
    let nz = nonzero_count(w, 16);
    nz >= 8 && (w == programmable_gamepad_guid() || nz >= 12)
}

fn window_nonzero(d: &[u8], i: usize) -> (res: usize)
    requires
        i + 16 <= d@.len(),
    ensures
        res == nonzero_count(d@.subrange(i as int, i + 16), 16),
        res <= 16,
{
    let ghost w = d@.subrange(i as int, i + 16);
    let mut n: usize = 0;
    let mut k: usize = 0;
    while k < 16
        invariant
            k <= 16,
            i + 16 <= d@.len(),
            d@.len() == d.len(),
            w == d@.subrange(i as int, i + 16),
            n == nonzero_count(w, k as int),
            n <= k,
        decreases 16 - k,
    {
        if d[i + k] != 0 {
            n = n + 1;
        }
        k = k + 1;
    }
    n
}

fn is_known_guid(d: &[u8], i: usize) -> (res: bool)
    requires
        i + 16 <= d@.len(),
    ensures
        res == (d@.subrange(i as int, i + 16) == programmable_gamepad_guid()),
{
    let g: [u8; 16] = [
        0x4D,
        0x03,
        0xC1,
        0x31,
        0xB7,
        0xB5,
        0x51,
        0x45,
        0x98,
        0x13,
        0x87,
        0x69,
        0xD4,
        0xA0,
        0xE4,
        0xF9,
    ];
    proof {
        assert(g@ =~= programmable_gamepad_guid());
    }
    let mut k: usize = 0;
    while k < 16
        invariant
            k <= 16,
            i + 16 <= d@.len(),
            d@.len() == d.len(),
            g@ == programmable_gamepad_guid(),
            forall|j: int| 0 <= j < k ==> d@[i + j] == g@[j],
        decreases 16 - k,
    {
        if d[i + k] != g[k] {
            proof {
                assert(d@.subrange(i as int, i + 16)[k as int] != g@[k as int]);
                assert(d@.subrange(i as int, i + 16) != programmable_gamepad_guid());
            }
            return false;
        }
        k = k + 1;
    }
    proof {
        assert(d@.subrange(i as int, i + 16) =~= g@);
    }
    true
}

/// The offsets the metadata scan reports as GUIDs: every window start below
/// `len - 16` (the last window is not scanned), with whether the window is
/// the known interface GUID.
pub fn metadata_guid_offsets(data: &[u8]) -> (res: Vec<(usize, bool)>)
    ensures
        forall|k: int| 0 <= k < res@.len() ==> {
            let (i, known) = #[trigger] res@[k];
            &&& i + 16 < data@.len()
            &&& is_guid_candidate(data@, i as int)
            &&& known == (data@.subrange(i as int, i + 16) == programmable_gamepad_guid())
        },
        forall|k1: int, k2: int| 0 <= k1 < k2 < res@.len() ==> res@[k1].0 < res@[k2].0,
        forall|i: int| 0 <= i && i + 16 < data@.len() && is_guid_candidate(data@, i) ==> exists|k: int|
            0 <= k < res@.len() && #[trigger] res@[k].0 == i,
{
    let mut out: Vec<(usize, bool)> = Vec::new();
    if data.len() <= 16 {
        return out;
    }
    let end = data.len() - 16;
    let mut i: usize = 0;
    while i < end
        invariant
            i <= end,
            end + 16 == data@.len(),
            forall|k: int| 0 <= k < out@.len() ==> {
                let (j, known) = #[trigger] out@[k];
                &&& j < i
                &&& j + 16 < data@.len()
                &&& is_guid_candidate(data@, j as int)
                &&& known == (data@.subrange(j as int, j + 16) == programmable_gamepad_guid())
            },
            forall|k1: int, k2: int| 0 <= k1 < k2 < out@.len() ==> out@[k1].0 < out@[k2].0,
            forall|j: int| 0 <= j < i && is_guid_candidate(data@, j) ==> exists|k: int|
                0 <= k < out@.len() && #[trigger] out@[k].0 == j,
        decreases end - i,
    {
        let nz = window_nonzero(data, i);
        let known = is_known_guid(data, i);
        let ghost before = out@;
        if nz >= 8 && (known || nz >= 12) {
            out.push((i, known));
            proof {
                assert(out@[out@.len() - 1].0 == i);
            }
        }
        proof {
            assert forall|j: int| 0 <= j < i + 1 && is_guid_candidate(data@, j) implies exists|k: int|
                0 <= k < out@.len() && #[trigger] out@[k].0 == j by {
                if j < i {
                    let k = choose|k: int| 0 <= k < before.len() && #[trigger] before[k].0 == j;
                    assert(out@[k] == before[k]);
                } else {
                    assert(out@[out@.len() - 1].0 == i);
                }
            }
        }
        i = i + 1;
    }
    out
}

} // verus!
