//! Recognising the controller among input devices.
//!
//! Discovery reads each device's identifiers and name; the decision which
//! devices to use is made here.

use vstd::prelude::*;

use crate::types::{PID_ELITE2_BLE, PID_ELITE2_BT_CLASSIC, PID_ELITE2_USB, PID_XBOX360_SPOOFED, VENDOR_MICROSOFT};

verus! {

/// The identifiers of an input device (`struct input_id`).
#[derive(Debug, Clone, Copy, PartialEq, Eq, Structural)]
pub struct InputId {
    pub bustype: u16,
    pub vendor: u16,
    pub product: u16,
    pub version: u16,
}

/// The range of an absolute axis (`struct input_absinfo`).
#[derive(Debug, Clone, Copy, PartialEq, Eq, Structural)]
pub struct AbsInfo {
    pub value: i32,
    pub minimum: i32,
    pub maximum: i32,
    pub fuzz: i32,
    pub flat: i32,
    pub resolution: i32,
}

/// An evdev node recognised as the controller.
#[derive(Debug)]
pub struct EvdevDevice {
    pub path: String,
    pub name: String,
    pub id: InputId,
}

/// A hidraw node recognised as the controller.
#[derive(Debug)]
pub struct HidrawDevice {
    pub path: String,
    pub vendor: u16,
    pub product: u16,
    pub name: String,
}

/// The text `str::to_lowercase` makes of a text.
pub uninterp spec fn lowercase(s: Seq<char>) -> Seq<char>;

/// Calls `str::to_lowercase`: the Unicode lowercase mapping of each
/// character. The contract names the result as a function of the text.
#[verifier::external_body]
fn to_lower(s: &str) -> (res: String)
    ensures
        res@ == lowercase(s@),
{
    s.to_lowercase()
}

/// Whether `pat` occurs in `s`.
pub open spec fn has_substring(s: Seq<char>, pat: Seq<char>) -> bool {
    exists|i: int| 0 <= i && i + pat.len() <= s.len() && #[trigger] s.subrange(i, i + pat.len()) == pat
}

/// Whether `pat` occurs in `s`.
pub fn contains_text(s: &str, pat: &str) -> (res: bool)
    ensures
        res == has_substring(s@, pat@),
{
    let n = s.unicode_len();
    let m = pat.unicode_len();
    if m > n {
        proof {
            assert forall|i: int| 0 <= i && i + pat@.len() <= s@.len() implies #[trigger] s@.subrange(
                i,
                i + pat@.len(),
            ) != pat@ by {}
        }
        return false;
    }
    let mut i: usize = 0;
    while i <= n - m
        invariant
            n == s@.len(),
            m == pat@.len(),
            m <= n,
            i <= n - m + 1,
            forall|j: int| 0 <= j < i ==> #[trigger] s@.subrange(j, j + m) != pat@,
        decreases n - m + 1 - i,
    {
        let mut k: usize = 0;
        let mut same = true;
        while k < m
            invariant
                n == s@.len(),
                m == pat@.len(),
                i + m <= n,
                k <= m,
                same == (forall|t: int| 0 <= t < k ==> s@[i + t] == pat@[t]),
            decreases m - k,
        {
            if s.get_char(i + k) != pat.get_char(k) {
                same = false;
            }
            k = k + 1;
        }
        if same {
            proof {
                assert(s@.subrange(i as int, i + m) =~= pat@);
            }
            return true;
        }
        proof {
            let t = choose|t: int| 0 <= t < m && s@[i + t] != pat@[t];
            assert(s@.subrange(i as int, i + m)[t] != pat@[t]);
        }
        i = i + 1;
    }
    proof {
        assert forall|j: int| 0 <= j && j + pat@.len() <= s@.len() implies #[trigger] s@.subrange(
            j,
            j + pat@.len(),
        ) != pat@ by {
            assert(j < i);
        }
    }
    false
}

/// Whether an evdev node is the controller's gamepad, given its name already
/// lowercased: a Microsoft device, not one of its mouse, keyboard or
/// consumer-control sub-devices, not our own virtual gamepad, an Elite 2 by
/// product (or by an "elite" name for the spoofed Bluetooth product, or by
/// name alone), with an `ABS_X` axis.
pub open spec fn is_elite2_gamepad_lowered(id: InputId, l: Seq<char>, has_abs_x: bool) -> bool {
    let by_product = id.product == PID_ELITE2_USB || id.product == PID_ELITE2_BT_CLASSIC
        || id.product == PID_ELITE2_BLE || (id.product == PID_XBOX360_SPOOFED && has_substring(
        l,
        "elite"@,
    ));
    &&& id.vendor == VENDOR_MICROSOFT
    &&& !has_substring(l, "mouse"@)
    &&& !has_substring(l, "keyboard"@)
    &&& !has_substring(l, "consumer"@)
    &&& !has_substring(l, "xbelite2"@)
    &&& (by_product || has_substring(l, "elite"@))
    &&& has_abs_x
}

/// Whether an evdev node is the controller's gamepad: the decision above on
/// the lowercased name.
pub open spec fn is_elite2_gamepad(id: InputId, name: Seq<char>, has_abs_x: bool) -> bool {
    is_elite2_gamepad_lowered(id, lowercase(name), has_abs_x)
}

/// Decide whether an evdev node is the controller's gamepad from its
/// lowercased name.
pub fn evdev_name_accepted(id: &InputId, l: &str, has_abs_x: bool) -> (res: bool)
    ensures
        res == is_elite2_gamepad_lowered(*id, l@, has_abs_x),
{
    if id.vendor != VENDOR_MICROSOFT {
        return false;
    }
    if contains_text(l, "mouse") || contains_text(l, "keyboard") || contains_text(l, "consumer") {
        return false;
    }
    if contains_text(l, "xbelite2") {
        return false;
    }
    let has_elite = contains_text(l, "elite");
    let by_product = id.product == PID_ELITE2_USB || id.product == PID_ELITE2_BT_CLASSIC
        || id.product == PID_ELITE2_BLE || (id.product == PID_XBOX360_SPOOFED && has_elite);
    if !by_product && !has_elite {
        return false;
    }
    has_abs_x
}

/// Decide whether an evdev node is the controller's gamepad.
pub fn accept_evdev(id: &InputId, name: &str, has_abs_x: bool) -> (res: bool)
    ensures
        res == is_elite2_gamepad(*id, name@, has_abs_x),
{
    if id.vendor != VENDOR_MICROSOFT {
        return false;
    }
    let lower = to_lower(name);
    evdev_name_accepted(id, lower.as_str(), has_abs_x)
}

/// Whether a hidraw node is taken as the controller, given its name already
/// lowercased: a Microsoft device with an Elite 2 product or the spoofed
/// Bluetooth product, not our own device.
pub open spec fn is_hidraw_candidate_lowered(vendor: u16, product: u16, l: Seq<char>) -> bool {
    &&& vendor == VENDOR_MICROSOFT
    &&& (product == PID_ELITE2_BT_CLASSIC || product == PID_ELITE2_BLE || product == PID_ELITE2_USB
        || product == PID_XBOX360_SPOOFED)
    &&& !has_substring(l, "xbelite2"@)
}

/// Whether a hidraw node is taken as the controller: the decision above on
/// the lowercased name.
pub open spec fn is_hidraw_candidate(vendor: u16, product: u16, name: Seq<char>) -> bool {
    is_hidraw_candidate_lowered(vendor, product, lowercase(name))
}

/// Decide whether a hidraw node is taken as the controller from its
/// lowercased name.
pub fn hidraw_name_accepted(vendor: u16, product: u16, l: &str) -> (res: bool)
    ensures
        res == is_hidraw_candidate_lowered(vendor, product, l@),
{
    let is_ms = vendor == VENDOR_MICROSOFT;
    let is_pid = product == PID_ELITE2_BT_CLASSIC || product == PID_ELITE2_BLE
        || product == PID_ELITE2_USB || product == PID_XBOX360_SPOOFED;
    let ours = contains_text(l, "xbelite2");
    is_ms && is_pid && !ours
}

/// Decide whether a hidraw node is taken as the controller.
pub fn accept_hidraw(vendor: u16, product: u16, name: &str) -> (res: bool)
    ensures
        res == is_hidraw_candidate(vendor, product, name@),
{
    let lower = to_lower(name);
    hidraw_name_accepted(vendor, product, lower.as_str())
}

/// The Bluetooth bus type (`BUS_BLUETOOTH`).
pub const BUS_BLUETOOTH: u32 = 5;

/// Whether a hidraw node is the controller on Bluetooth, as the Bluetooth
/// test takes it: a Microsoft device on the Bluetooth bus.
pub fn accept_bt_hidraw(vendor: u16, bustype: u32) -> (res: bool)
    ensures
        res == (vendor == VENDOR_MICROSOFT && bustype == BUS_BLUETOOTH),
{
    vendor == VENDOR_MICROSOFT && bustype == BUS_BLUETOOTH
}

} // verus!
