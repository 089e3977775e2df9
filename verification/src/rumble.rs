//! Rumble packets for the four motors, over USB (GIP) and Bluetooth (HID).
//!
//! Each motor value is a percentage; larger values are capped at 100.

use vstd::prelude::*;

verus! {

/// A motor value capped at 100.
pub open spec fn cap100(v: u8) -> u8 {
    if v > 100 {
        100
    } else {
        v
    }
}

fn cap(v: u8) -> (res: u8)
    ensures
        res == cap100(v),
{
    if v > 100 {
        100
    } else {
        v
    }
}

/// The GIP rumble command: `[0x09, 0x00, 0x00, 0x09, 0x00, 0x0F, left motor,
/// right motor, LT, RT, 0xFF, 0x00, 0xEB]`.
pub open spec fn spec_gip_rumble(left_motor: u8, right_motor: u8, left_trigger: u8, right_trigger: u8) -> Seq<u8> {
    seq![
        0x09u8,
        0x00,
        0x00,
        0x09,
        0x00,
        0x0F,
        cap100(left_motor),
        cap100(right_motor),
        cap100(left_trigger),
        cap100(right_trigger),
        0xFF,
        0x00,
        0xEB,
    ]
}

/// The Bluetooth HID output report: `[0x03, 0x0F, LT, RT, left motor, right
/// motor, 0xFF, 0x00, 0x00]` (duration 0xFF, no delay, no repeat).
pub open spec fn spec_bt_rumble(left_motor: u8, right_motor: u8, left_trigger: u8, right_trigger: u8) -> Seq<u8> {
    seq![
        0x03u8,
        0x0F,
        cap100(left_trigger),
        cap100(right_trigger),
        cap100(left_motor),
        cap100(right_motor),
        0xFF,
        0x00,
        0x00,
    ]
}

/// The USB rumble packet for the big (left) and small (right) body motors and
/// the two trigger motors.
pub fn gip_rumble_packet(left_motor: u8, right_motor: u8, left_trigger: u8, right_trigger: u8) -> (res: [u8; 13])
    ensures
        res@ == spec_gip_rumble(left_motor, right_motor, left_trigger, right_trigger),
{
    let pkt: [u8; 13] = [
        0x09,
        0x00,
        0x00,
        0x09,
        0x00,
        0x0F,
        cap(left_motor),
        cap(right_motor),
        cap(left_trigger),
        cap(right_trigger),
        0xFF,
        0x00,
        0xEB,
    ];
    proof {
        assert(pkt@ =~= spec_gip_rumble(left_motor, right_motor, left_trigger, right_trigger));
    }
    pkt
}

/// The Bluetooth rumble report for the same four motors.
pub fn bt_rumble_packet(left_motor: u8, right_motor: u8, left_trigger: u8, right_trigger: u8) -> (res: [u8; 9])
    ensures
        res@ == spec_bt_rumble(left_motor, right_motor, left_trigger, right_trigger),
{
    let pkt: [u8; 9] = [
        0x03,
        0x0F,
        cap(left_trigger),
        cap(right_trigger),
        cap(left_motor),
        cap(right_motor),
        0xFF,
        0x00,
        0x00,
    ];
    proof {
        assert(pkt@ =~= spec_bt_rumble(left_motor, right_motor, left_trigger, right_trigger));
    }
    pkt
}

/// Every motor value in a packet is at most 100, and a stop (all zero)
/// carries no motor value at all.
pub proof fn lemma_rumble_values_capped(left_motor: u8, right_motor: u8, left_trigger: u8, right_trigger: u8)
    ensures
        forall|i: int| 6 <= i < 10 ==> spec_gip_rumble(0, 0, 0, 0)[i] == 0,
        forall|i: int| 2 <= i < 6 ==> spec_bt_rumble(0, 0, 0, 0)[i] == 0,
        forall|i: int| 6 <= i < 10 ==> spec_gip_rumble(left_motor, right_motor, left_trigger, right_trigger)[i] <= 100,
        forall|i: int| 2 <= i < 6 ==> spec_bt_rumble(left_motor, right_motor, left_trigger, right_trigger)[i] <= 100,
{
}

} // verus!
