//! Decoding controller reports into gamepad states.
//!
//! Two Bluetooth layouts are handled: the report decoded from hardware
//! captures (buttons in bytes 1-2, triggers then sticks as signed values)
//! and the layout of the BLE HID descriptor (unsigned sticks first, hat in
//! byte 13, buttons in bytes 14-15). Both carry the hardware profile in
//! byte 17 and the paddles in byte 19.

use vstd::prelude::*;

use crate::types::{
    idle_state, GamepadState, ReportFormat, ABS_HAT0X, ABS_HAT0Y, ABS_RX, ABS_RY, ABS_RZ, ABS_X,
    ABS_Y, ABS_Z, BTN_A, BTN_B, BTN_GRIPL, BTN_GRIPL2, BTN_GRIPR, BTN_GRIPR2, BTN_MODE, BTN_SELECT,
    BTN_START, BTN_THUMBL, BTN_THUMBR, BTN_TL, BTN_TR, BTN_X, BTN_Y, PID_ELITE2_BLE,
    PID_ELITE2_BT_CLASSIC, PID_XBOX360_SPOOFED, VENDOR_MICROSOFT,
};

verus! {

/// Little-endian 16-bit value of two bytes.
pub open spec fn le16(lo: u8, hi: u8) -> u16 {
    (lo as int + 256 * (hi as int)) as u16
}

fn read_le16(lo: u8, hi: u8) -> (res: u16)
    ensures
        res == le16(lo, hi),
{
    lo as u16 + 256 * (hi as u16)
}

/// Detect the firmware report format from the report size.
pub fn detect_format(report: &[u8]) -> (res: ReportFormat)
    ensures
        res == (if report@.len() >= 55 {
            ReportFormat::V4
        } else {
            ReportFormat::V5Early
        }),
{
    if report.len() >= 55 {
        ReportFormat::V4
    } else {
        ReportFormat::V5Early
    }
}

/// The state decoded from a Bluetooth report of at least 15 bytes (layout
/// from hardware captures). The d-pad and the Xbox button are not in it.
pub open spec fn spec_bt_report(d: Seq<u8>) -> GamepadState {
    let b0 = d[1];
    let b1 = d[2];
    GamepadState {
        btn_a: b0 & 0x01 != 0,
        btn_b: b0 & 0x02 != 0,
        btn_x: b0 & 0x08 != 0,
        btn_y: b0 & 0x10 != 0,
        btn_lb: b0 & 0x40 != 0,
        btn_rb: b0 & 0x80 != 0,
        btn_view: b1 & 0x04 != 0,
        btn_menu: b1 & 0x08 != 0,
        btn_xbox: false,
        btn_lstick: b1 & 0x20 != 0,
        btn_rstick: b1 & 0x40 != 0,
        dpad_up: false,
        dpad_down: false,
        dpad_left: false,
        dpad_right: false,
        paddle_ur: d.len() > 19 && d[19] & 0x01 != 0,
        paddle_lr: d.len() > 19 && d[19] & 0x02 != 0,
        paddle_ul: d.len() > 19 && d[19] & 0x04 != 0,
        paddle_ll: d.len() > 19 && d[19] & 0x08 != 0,
        left_stick_x: le16(d[7], d[8]) as i16,
        left_stick_y: le16(d[9], d[10]) as i16,
        right_stick_x: le16(d[11], d[12]) as i16,
        right_stick_y: le16(d[13], d[14]) as i16,
        left_trigger: le16(d[3], d[4]) & 0x03FF,
        right_trigger: le16(d[5], d[6]) & 0x03FF,
        hw_profile: if d.len() > 17 {
            d[17] & 0x03
        } else {
            0
        },
    }
}

/// Parse a Bluetooth gamepad report (report ID 0x01); `None` when shorter
/// than 15 bytes.
pub fn parse_bt_report(data: &[u8], _format: ReportFormat) -> (res: Option<GamepadState>)
    ensures
        data@.len() < 15 ==> res is None,
        data@.len() >= 15 ==> res == Some(spec_bt_report(data@)),
{
    if data.len() < 15 {
        return None;
    }
    let mut state = GamepadState::default();
    let btns0 = data[1];
    let btns1 = data[2];
    state.btn_a = btns0 & 0x01 != 0;
    state.btn_b = btns0 & 0x02 != 0;
    state.btn_x = btns0 & 0x08 != 0;
    state.btn_y = btns0 & 0x10 != 0;
    state.btn_lb = btns0 & 0x40 != 0;
    state.btn_rb = btns0 & 0x80 != 0;
    state.btn_view = btns1 & 0x04 != 0;
    state.btn_menu = btns1 & 0x08 != 0;
    state.btn_lstick = btns1 & 0x20 != 0;
    state.btn_rstick = btns1 & 0x40 != 0;
    state.left_trigger = read_le16(data[3], data[4]) & 0x03FF;
    state.right_trigger = read_le16(data[5], data[6]) & 0x03FF;
    state.left_stick_x = read_le16(data[7], data[8]) as i16;
    state.left_stick_y = read_le16(data[9], data[10]) as i16;
    state.right_stick_x = read_le16(data[11], data[12]) as i16;
    state.right_stick_y = read_le16(data[13], data[14]) as i16;
    if data.len() > 17 {
        state.hw_profile = data[17] & 0x03;
    }
    if data.len() > 19 {
        let paddles = data[19];
        state.paddle_ur = paddles & 0x01 != 0;
        state.paddle_lr = paddles & 0x02 != 0;
        state.paddle_ul = paddles & 0x04 != 0;
        state.paddle_ll = paddles & 0x08 != 0;
    }
    Some(state)
}

/// Take the paddles from an extended report (firmware 5.11 and later);
/// returns false, leaving the state alone, when the report is shorter than 20 bytes.
pub fn parse_extended_report(data: &[u8], state: &mut GamepadState) -> (res: bool)
    ensures
        res == (data@.len() >= 20),
        !res ==> *final(state) == *old(state),
        res ==> *final(state) == (GamepadState {
            paddle_ur: data@[19] & 0x01 != 0,
            paddle_lr: data@[19] & 0x02 != 0,
            paddle_ul: data@[19] & 0x04 != 0,
            paddle_ll: data@[19] & 0x08 != 0,
            ..*old(state)
        }),
{
    if data.len() < 20 {
        return false;
    }
    let paddles = data[19];
    state.paddle_ur = paddles & 0x01 != 0;
    state.paddle_lr = paddles & 0x02 != 0;
    state.paddle_ul = paddles & 0x04 != 0;
    state.paddle_ll = paddles & 0x08 != 0;
    true
}

/// Whether a vendor and product ID pair is an Xbox Elite Series 2 over Bluetooth.
pub fn is_elite2(vendor: u16, product: u16) -> (res: bool)
    ensures
        res == (vendor == VENDOR_MICROSOFT && (product == PID_ELITE2_BT_CLASSIC || product
            == PID_ELITE2_BLE || product == PID_XBOX360_SPOOFED)),
{
    vendor == VENDOR_MICROSOFT && (product == PID_ELITE2_BT_CLASSIC || product == PID_ELITE2_BLE
        || product == PID_XBOX360_SPOOFED)
}

/// D-pad directions `(up, right, down, left)` of a hat value: 1 = N, 2 = NE,
/// 3 = E, 4 = SE, 5 = S, 6 = SW, 7 = W, 8 = NW, anything else centered.
pub open spec fn spec_hat(h: u8) -> (bool, bool, bool, bool) {
    if h == 1 {
        (true, false, false, false)
    } else if h == 2 {
        (true, true, false, false)
    } else if h == 3 {
        (false, true, false, false)
    } else if h == 4 {
        (false, true, true, false)
    } else if h == 5 {
        (false, false, true, false)
    } else if h == 6 {
        (false, false, true, true)
    } else if h == 7 {
        (false, false, false, true)
    } else if h == 8 {
        (true, false, false, true)
    } else {
        (false, false, false, false)
    }
}

/// A hat value h from 1 to 8 points at the compass bearing 45 * (h - 1)
/// degrees (1 north, 3 east, 5 south, 7 west); direction k (0 up, 1 right,
/// 2 down, 3 left, at bearing 90 * k) is held when the bearing lies within
/// 45 degrees of it, that is when (h - 1 - 2k + 1) mod 8 is at most 2. Any
/// other value holds no direction.
pub proof fn lemma_hat_compass(h: u8)
    ensures
        1 <= h <= 8 ==> spec_hat(h).0 == ((h as int) % 8 <= 2),
        1 <= h <= 8 ==> spec_hat(h).1 == ((h as int + 6) % 8 <= 2),
        1 <= h <= 8 ==> spec_hat(h).2 == ((h as int + 4) % 8 <= 2),
        1 <= h <= 8 ==> spec_hat(h).3 == ((h as int + 2) % 8 <= 2),
        !(1 <= h <= 8) ==> spec_hat(h) == (false, false, false, false),
{
}

/// D-pad directions `(up, right, down, left)` of a hat value.
pub fn decode_hat(h: u8) -> (res: (bool, bool, bool, bool))
    ensures
        res == spec_hat(h),
        1 <= h <= 8 ==> res.0 == ((h as int) % 8 <= 2),
        1 <= h <= 8 ==> res.1 == ((h as int + 6) % 8 <= 2),
        1 <= h <= 8 ==> res.2 == ((h as int + 4) % 8 <= 2),
        1 <= h <= 8 ==> res.3 == ((h as int + 2) % 8 <= 2),
        !(1 <= h <= 8) ==> res == (false, false, false, false),
{
    proof {
        lemma_hat_compass(h);
    }
    match h {
        1 => (true, false, false, false),
        2 => (true, true, false, false),
        3 => (false, true, false, false),
        4 => (false, true, true, false),
        5 => (false, false, true, false),
        6 => (false, false, true, true),
        7 => (false, false, false, true),
        8 => (true, false, false, true),
        _ => (false, false, false, false),
    }
}

/// An unsigned stick value (center 32768) as a signed one.
pub open spec fn centered(v: u16) -> i16 {
    (v as int - 32768) as i16
}

/// The state decoded from a BLE HID descriptor report of at least 16 bytes.
pub open spec fn spec_hidraw_report(d: Seq<u8>) -> GamepadState {
    let hat = spec_hat(d[13] & 0x0F);
    let btns = le16(d[14], d[15]);
    GamepadState {
        btn_a: btns & 0x0001 != 0,
        btn_b: btns & 0x0002 != 0,
        btn_x: btns & 0x0008 != 0,
        btn_y: btns & 0x0010 != 0,
        btn_lb: btns & 0x0040 != 0,
        btn_rb: btns & 0x0080 != 0,
        btn_view: btns & 0x0400 != 0,
        btn_menu: btns & 0x0800 != 0,
        btn_xbox: btns & 0x1000 != 0,
        btn_lstick: btns & 0x2000 != 0,
        btn_rstick: btns & 0x4000 != 0,
        dpad_up: hat.0,
        dpad_right: hat.1,
        dpad_down: hat.2,
        dpad_left: hat.3,
        paddle_ur: d.len() > 19 && d[19] & 0x0F & 0x01 != 0,
        paddle_lr: d.len() > 19 && d[19] & 0x0F & 0x02 != 0,
        paddle_ul: d.len() > 19 && d[19] & 0x0F & 0x04 != 0,
        paddle_ll: d.len() > 19 && d[19] & 0x0F & 0x08 != 0,
        left_stick_x: centered(le16(d[1], d[2])),
        left_stick_y: centered(le16(d[3], d[4])),
        right_stick_x: centered(le16(d[5], d[6])),
        right_stick_y: centered(le16(d[7], d[8])),
        left_trigger: le16(d[9], d[10]) & 0x03FF,
        right_trigger: le16(d[11], d[12]) & 0x03FF,
        hw_profile: if d.len() > 17 {
            d[17] & 0x03
        } else {
            0
        },
    }
}

fn center(v: u16) -> (res: i16)
    ensures
        res == centered(v),
{
    (v as i32 - 32768) as i16
}

/// Parse a report in the BLE HID descriptor layout; reports shorter than
/// 16 bytes give the idle state.
pub fn parse_hidraw_report(data: &[u8]) -> (res: GamepadState)
    ensures
        data@.len() < 16 ==> res == idle_state(),
        data@.len() >= 16 ==> res == spec_hidraw_report(data@),
{
    if data.len() < 16 {
        return GamepadState::default();
    }
    let (up, right, down, left) = decode_hat(data[13] & 0x0F);
    let btns = read_le16(data[14], data[15]);
    let hw_profile: u8 = if data.len() > 17 {
        data[17] & 0x03
    } else {
        0
    };
    let has_paddles = data.len() > 19;
    let paddles: u8 = if has_paddles {
        data[19] & 0x0F
    } else {
        0
    };
    GamepadState {
        btn_a: btns & 0x0001 != 0,
        btn_b: btns & 0x0002 != 0,
        btn_x: btns & 0x0008 != 0,
        btn_y: btns & 0x0010 != 0,
        btn_lb: btns & 0x0040 != 0,
        btn_rb: btns & 0x0080 != 0,
        btn_view: btns & 0x0400 != 0,
        btn_menu: btns & 0x0800 != 0,
        btn_xbox: btns & 0x1000 != 0,
        btn_lstick: btns & 0x2000 != 0,
        btn_rstick: btns & 0x4000 != 0,
        dpad_up: up,
        dpad_right: right,
        dpad_down: down,
        dpad_left: left,
        paddle_ur: has_paddles && paddles & 0x01 != 0,
        paddle_lr: has_paddles && paddles & 0x02 != 0,
        paddle_ul: has_paddles && paddles & 0x04 != 0,
        paddle_ll: has_paddles && paddles & 0x08 != 0,
        left_stick_x: center(read_le16(data[1], data[2])),
        left_stick_y: center(read_le16(data[3], data[4])),
        right_stick_x: center(read_le16(data[5], data[6])),
        right_stick_y: center(read_le16(data[7], data[8])),
        left_trigger: read_le16(data[9], data[10]) & 0x03FF,
        right_trigger: read_le16(data[11], data[12]) & 0x03FF,
        hw_profile,
    }
}

/// Linux `input_event` as read from an evdev device.
#[derive(Debug, Clone, Copy, PartialEq, Eq, Structural)]
pub struct InputEvent {
    pub tv_sec: i64,
    pub tv_usec: i64,
    pub ev_type: u16,
    pub code: u16,
    pub value: i32,
}

/// The state after a key event: the button with that code is pressed for
/// any non-zero value; unknown codes change nothing.
pub open spec fn spec_key_event(s: GamepadState, code: u16, pressed: bool) -> GamepadState {
    GamepadState {
        btn_a: if code == BTN_A {
            pressed
        } else {
            s.btn_a
        },
        btn_b: if code == BTN_B {
            pressed
        } else {
            s.btn_b
        },
        btn_x: if code == BTN_X {
            pressed
        } else {
            s.btn_x
        },
        btn_y: if code == BTN_Y {
            pressed
        } else {
            s.btn_y
        },
        btn_lb: if code == BTN_TL {
            pressed
        } else {
            s.btn_lb
        },
        btn_rb: if code == BTN_TR {
            pressed
        } else {
            s.btn_rb
        },
        btn_view: if code == BTN_SELECT {
            pressed
        } else {
            s.btn_view
        },
        btn_menu: if code == BTN_START {
            pressed
        } else {
            s.btn_menu
        },
        btn_xbox: if code == BTN_MODE {
            pressed
        } else {
            s.btn_xbox
        },
        btn_lstick: if code == BTN_THUMBL {
            pressed
        } else {
            s.btn_lstick
        },
        btn_rstick: if code == BTN_THUMBR {
            pressed
        } else {
            s.btn_rstick
        },
        paddle_ul: if code == BTN_GRIPL {
            pressed
        } else {
            s.paddle_ul
        },
        paddle_ur: if code == BTN_GRIPR {
            pressed
        } else {
            s.paddle_ur
        },
        paddle_ll: if code == BTN_GRIPL2 {
            pressed
        } else {
            s.paddle_ll
        },
        paddle_lr: if code == BTN_GRIPR2 {
            pressed
        } else {
            s.paddle_lr
        },
        ..s
    }
}

/// The state after an axis event: the axis with that code takes the value
/// truncated to its field's width; hat axes set the two d-pad directions
/// from the sign; unknown codes change nothing.
pub open spec fn spec_abs_event(s: GamepadState, code: u16, value: i32) -> GamepadState {
    if code == ABS_X {
        GamepadState { left_stick_x: value as i16, ..s }
    } else if code == ABS_Y {
        GamepadState { left_stick_y: value as i16, ..s }
    } else if code == ABS_RX {
        GamepadState { right_stick_x: value as i16, ..s }
    } else if code == ABS_RY {
        GamepadState { right_stick_y: value as i16, ..s }
    } else if code == ABS_Z {
        GamepadState { left_trigger: value as u16, ..s }
    } else if code == ABS_RZ {
        GamepadState { right_trigger: value as u16, ..s }
    } else if code == ABS_HAT0X {
        GamepadState { dpad_left: value < 0, dpad_right: value > 0, ..s }
    } else if code == ABS_HAT0Y {
        GamepadState { dpad_up: value < 0, dpad_down: value > 0, ..s }
    } else {
        s
    }
}

/// The state after one evdev event: key events (type 0x01) and axis events
/// (type 0x03) as above; other event types change nothing.
pub open spec fn spec_evdev_event(s: GamepadState, ev_type: u16, code: u16, value: i32) -> GamepadState {
    if ev_type == 0x01 {
        spec_key_event(s, code, value != 0)
    } else if ev_type == 0x03 {
        spec_abs_event(s, code, value)
    } else {
        s
    }
}

fn key_event_state(s: GamepadState, c: u16, pressed: bool) -> (res: GamepadState)
    ensures
        res == spec_key_event(s, c, pressed),
{
    GamepadState {
        btn_a: if c == BTN_A {
            pressed
        } else {
            s.btn_a
        },
        btn_b: if c == BTN_B {
            pressed
        } else {
            s.btn_b
        },
        btn_x: if c == BTN_X {
            pressed
        } else {
            s.btn_x
        },
        btn_y: if c == BTN_Y {
            pressed
        } else {
            s.btn_y
        },
        btn_lb: if c == BTN_TL {
            pressed
        } else {
            s.btn_lb
        },
        btn_rb: if c == BTN_TR {
            pressed
        } else {
            s.btn_rb
        },
        btn_view: if c == BTN_SELECT {
            pressed
        } else {
            s.btn_view
        },
        btn_menu: if c == BTN_START {
            pressed
        } else {
            s.btn_menu
        },
        btn_xbox: if c == BTN_MODE {
            pressed
        } else {
            s.btn_xbox
        },
        btn_lstick: if c == BTN_THUMBL {
            pressed
        } else {
            s.btn_lstick
        },
        btn_rstick: if c == BTN_THUMBR {
            pressed
        } else {
            s.btn_rstick
        },
        paddle_ul: if c == BTN_GRIPL {
            pressed
        } else {
            s.paddle_ul
        },
        paddle_ur: if c == BTN_GRIPR {
            pressed
        } else {
            s.paddle_ur
        },
        paddle_ll: if c == BTN_GRIPL2 {
            pressed
        } else {
            s.paddle_ll
        },
        paddle_lr: if c == BTN_GRIPR2 {
            pressed
        } else {
            s.paddle_lr
        },
        ..s
    }
}

fn abs_event_state(s: GamepadState, c: u16, v: i32) -> (res: GamepadState)
    ensures
        res == spec_abs_event(s, c, v),
{
    if c == ABS_X {
        GamepadState { left_stick_x: v as i16, ..s }
    } else if c == ABS_Y {
        GamepadState { left_stick_y: v as i16, ..s }
    } else if c == ABS_RX {
        GamepadState { right_stick_x: v as i16, ..s }
    } else if c == ABS_RY {
        GamepadState { right_stick_y: v as i16, ..s }
    } else if c == ABS_Z {
        GamepadState { left_trigger: v as u16, ..s }
    } else if c == ABS_RZ {
        GamepadState { right_trigger: v as u16, ..s }
    } else if c == ABS_HAT0X {
        GamepadState { dpad_left: v < 0, dpad_right: v > 0, ..s }
    } else if c == ABS_HAT0Y {
        GamepadState { dpad_up: v < 0, dpad_down: v > 0, ..s }
    } else {
        s
    }
}

/// Apply one evdev event to the state.
pub fn apply_evdev_event(state: &mut GamepadState, ev: &InputEvent)
    ensures
        *final(state) == spec_evdev_event(*old(state), ev.ev_type, ev.code, ev.value),
{
    if ev.ev_type == 0x01 {
        *state = key_event_state(*state, ev.code, ev.value != 0);
    } else if ev.ev_type == 0x03 {
        *state = abs_event_state(*state, ev.code, ev.value);
    }
}

/// Apply one evdev event to the state as the virtual gamepad test does:
/// like `apply_evdev_event`, but hat events are ignored.
pub fn apply_test_event(state: &mut GamepadState, ev: &InputEvent)
    ensures
        ev.ev_type == 0x03 && (ev.code == ABS_HAT0X || ev.code == ABS_HAT0Y) ==> *final(state)
            == *old(state),
        !(ev.ev_type == 0x03 && (ev.code == ABS_HAT0X || ev.code == ABS_HAT0Y)) ==> *final(state)
            == spec_evdev_event(*old(state), ev.ev_type, ev.code, ev.value),
{
    if ev.ev_type == 0x03 && (ev.code == ABS_HAT0X || ev.code == ABS_HAT0Y) {
        return;
    }
    apply_evdev_event(state, ev);
}

/// One bit if `b`, else 0.
#[verifier::opaque]
pub open spec fn bit(b: bool, v: int) -> int {
    if b {
        v
    } else {
        0
    }
}

/// The button bitmask reported to the GUI: A, B, X, Y, LB, RB, View, Menu,
/// Xbox, LS, RS, then d-pad up, down, left, right in bits 0 to 14.
pub open spec fn spec_button_bits(s: GamepadState) -> int {
    bit(s.btn_a, 0x0001) + bit(s.btn_b, 0x0002) + bit(s.btn_x, 0x0004) + bit(s.btn_y, 0x0008)
        + bit(s.btn_lb, 0x0010) + bit(s.btn_rb, 0x0020) + bit(s.btn_view, 0x0040) + bit(
        s.btn_menu,
        0x0080,
    ) + bit(s.btn_xbox, 0x0100) + bit(s.btn_lstick, 0x0200) + bit(s.btn_rstick, 0x0400) + bit(
        s.dpad_up,
        0x0800,
    ) + bit(s.dpad_down, 0x1000) + bit(s.dpad_left, 0x2000) + bit(s.dpad_right, 0x4000)
}

/// The paddle bitmask: P1 (upper right), P2 (lower right), P3 (upper left),
/// P4 (lower left) in bits 0 to 3.
pub open spec fn spec_paddle_bits(s: GamepadState) -> int {
    bit(s.paddle_ur, 1) + bit(s.paddle_lr, 2) + bit(s.paddle_ul, 4) + bit(s.paddle_ll, 8)
}

fn bitv(b: bool, v: u16) -> (res: u16)
    ensures
        res as int == bit(b, v as int),
        res <= v,
{
    reveal(bit);
    if b {
        v
    } else {
        0
    }
}

/// Pack the buttons and d-pad of a state into the status bitmask.
pub fn pack_buttons(s: &GamepadState) -> (res: u16)
    ensures
        res as int == spec_button_bits(*s),
{
    let b0 = bitv(s.btn_a, 0x0001);
    let b1 = bitv(s.btn_b, 0x0002);
    let b2 = bitv(s.btn_x, 0x0004);
    let b3 = bitv(s.btn_y, 0x0008);
    let b4 = bitv(s.btn_lb, 0x0010);
    let b5 = bitv(s.btn_rb, 0x0020);
    let b6 = bitv(s.btn_view, 0x0040);
    let b7 = bitv(s.btn_menu, 0x0080);
    let b8 = bitv(s.btn_xbox, 0x0100);
    let b9 = bitv(s.btn_lstick, 0x0200);
    let b10 = bitv(s.btn_rstick, 0x0400);
    let b11 = bitv(s.dpad_up, 0x0800);
    let b12 = bitv(s.dpad_down, 0x1000);
    let b13 = bitv(s.dpad_left, 0x2000);
    let b14 = bitv(s.dpad_right, 0x4000);
    let mut acc: u16 = 0;
    acc = acc + b0;
    acc = acc + b1;
    acc = acc + b2;
    acc = acc + b3;
    acc = acc + b4;
    acc = acc + b5;
    acc = acc + b6;
    acc = acc + b7;
    acc = acc + b8;
    acc = acc + b9;
    acc = acc + b10;
    acc = acc + b11;
    acc = acc + b12;
    acc = acc + b13;
    acc = acc + b14;
    acc
}

/// Pack the paddles of a state into the status bitmask.
pub fn pack_paddles(s: &GamepadState) -> (res: u8)
    ensures
        res as int == spec_paddle_bits(*s),
{
    (bitv(s.paddle_ur, 1) + bitv(s.paddle_lr, 2) + bitv(s.paddle_ul, 4) + bitv(s.paddle_ll, 8)) as u8
}

/// The paddle bitmask of a decoded report is the low nibble of its paddle
/// byte, as the controller sent it.
pub proof fn lemma_paddles_roundtrip(d: Seq<u8>)
    requires
        d.len() >= 20,
    ensures
        spec_paddle_bits(spec_bt_report(d)) == (d[19] & 0x0F) as int,
        spec_paddle_bits(spec_hidraw_report(d)) == (d[19] & 0x0F) as int,
{
    reveal(bit);
    let p = d[19];
    assert((p & 0x0F) == (p & 0x01) + (p & 0x02) + (p & 0x04) + (p & 0x08)) by (bit_vector);
    assert((p & 0x01) == 0 || (p & 0x01) == 1) by (bit_vector);
    assert((p & 0x02) == 0 || (p & 0x02) == 2) by (bit_vector);
    assert((p & 0x04) == 0 || (p & 0x04) == 4) by (bit_vector);
    assert((p & 0x08) == 0 || (p & 0x08) == 8) by (bit_vector);
    assert(p & 0x0F & 0x01 == p & 0x01) by (bit_vector);
    assert(p & 0x0F & 0x02 == p & 0x02) by (bit_vector);
    assert(p & 0x0F & 0x04 == p & 0x04) by (bit_vector);
    assert(p & 0x0F & 0x08 == p & 0x08) by (bit_vector);
}

} // verus!
