//! Core data types: gamepad state, input identifiers, stick curves, trigger
//! dead zones and profiles.

use vstd::prelude::*;

verus! {

/// Microsoft vendor ID.
pub const VENDOR_MICROSOFT: u16 = 0x045E;

/// Elite 2 over Bluetooth Classic (firmware 4.x).
pub const PID_ELITE2_BT_CLASSIC: u16 = 0x0B05;

/// Elite 2 over BLE (firmware 5.x and later).
pub const PID_ELITE2_BLE: u16 = 0x0B22;

/// Elite 2 over USB.
pub const PID_ELITE2_USB: u16 = 0x0B00;

/// Xbox 360 product ID reported by the Bluetooth HID layer.
pub const PID_XBOX360_SPOOFED: u16 = 0x028E;

/// Maximum number of profiles.
pub const MAX_PROFILES: usize = 8;

/// Maximum remap entries per profile.
pub const MAX_REMAPS: usize = 32;

/// Number of points of a stick curve.
pub const CURVE_POINTS: usize = 16;

/// Linux event type of keys and buttons.
pub const EV_KEY: u16 = 0x01;

/// Linux event type of absolute axes.
pub const EV_ABS: u16 = 0x03;

pub const BTN_A: u16 = 0x130;

pub const BTN_B: u16 = 0x131;

pub const BTN_X: u16 = 0x133;

pub const BTN_Y: u16 = 0x134;

/// LB.
pub const BTN_TL: u16 = 0x136;

/// RB.
pub const BTN_TR: u16 = 0x137;

/// View / Back.
pub const BTN_SELECT: u16 = 0x13A;

/// Menu.
pub const BTN_START: u16 = 0x13B;

/// Xbox button.
pub const BTN_MODE: u16 = 0x13C;

/// Left stick click.
pub const BTN_THUMBL: u16 = 0x13D;

/// Right stick click.
pub const BTN_THUMBR: u16 = 0x13E;

/// Paddle codes (kernel 6.17 and later).
pub const BTN_GRIPL: u16 = 0x224;

pub const BTN_GRIPR: u16 = 0x225;

pub const BTN_GRIPL2: u16 = 0x226;

pub const BTN_GRIPR2: u16 = 0x227;

/// Fallback paddle codes for older kernels.
pub const BTN_TRIGGER_HAPPY5: u16 = 0x2C4;

pub const BTN_TRIGGER_HAPPY6: u16 = 0x2C5;

pub const BTN_TRIGGER_HAPPY7: u16 = 0x2C6;

pub const BTN_TRIGGER_HAPPY8: u16 = 0x2C7;

/// D-pad as hat axes.
pub const ABS_HAT0X: u16 = 0x10;

pub const ABS_HAT0Y: u16 = 0x11;

/// Left stick X.
pub const ABS_X: u16 = 0x00;

/// Left stick Y.
pub const ABS_Y: u16 = 0x01;

/// Left trigger.
pub const ABS_Z: u16 = 0x02;

/// Right stick X.
pub const ABS_RX: u16 = 0x03;

/// Right stick Y.
pub const ABS_RY: u16 = 0x04;

/// Right trigger.
pub const ABS_RZ: u16 = 0x05;

/// Firmware report format variant.
#[derive(Debug, Clone, Copy, PartialEq, Eq, Structural)]
pub enum ReportFormat {
    /// Firmware 4.x over Bluetooth Classic.
    V4,
    /// Firmware 5.0 to 5.10 over BLE.
    V5Early,
    /// Firmware 5.11 and later over BLE, paddles in the extended report.
    V5Late,
}

/// Gamepad state decoded from one report.
#[derive(Debug, Clone, Copy, PartialEq, Eq, Structural)]
pub struct GamepadState {
    pub btn_a: bool,
    pub btn_b: bool,
    pub btn_x: bool,
    pub btn_y: bool,
    pub btn_lb: bool,
    pub btn_rb: bool,
    pub btn_view: bool,
    pub btn_menu: bool,
    pub btn_xbox: bool,
    pub btn_lstick: bool,
    pub btn_rstick: bool,
    pub dpad_up: bool,
    pub dpad_down: bool,
    pub dpad_left: bool,
    pub dpad_right: bool,
    /// Upper right paddle (P1).
    pub paddle_ur: bool,
    /// Lower right paddle (P2).
    pub paddle_lr: bool,
    /// Upper left paddle (P3).
    pub paddle_ul: bool,
    /// Lower left paddle (P4).
    pub paddle_ll: bool,
    pub left_stick_x: i16,
    pub left_stick_y: i16,
    pub right_stick_x: i16,
    pub right_stick_y: i16,
    /// 0-1023.
    pub left_trigger: u16,
    /// 0-1023.
    pub right_trigger: u16,
    /// Profile reported by the controller (0-3).
    pub hw_profile: u8,
}

/// The idle state: nothing pressed, sticks centered, triggers released, profile 0.
pub open spec fn idle_state() -> GamepadState {
    GamepadState {
        btn_a: false,
        btn_b: false,
        btn_x: false,
        btn_y: false,
        btn_lb: false,
        btn_rb: false,
        btn_view: false,
        btn_menu: false,
        btn_xbox: false,
        btn_lstick: false,
        btn_rstick: false,
        dpad_up: false,
        dpad_down: false,
        dpad_left: false,
        dpad_right: false,
        paddle_ur: false,
        paddle_lr: false,
        paddle_ul: false,
        paddle_ll: false,
        left_stick_x: 0,
        left_stick_y: 0,
        right_stick_x: 0,
        right_stick_y: 0,
        left_trigger: 0,
        right_trigger: 0,
        hw_profile: 0,
    }
}

impl Default for GamepadState {
    fn default() -> (res: Self)
        ensures
            res == idle_state(),
    {
        GamepadState {
            btn_a: false,
            btn_b: false,
            btn_x: false,
            btn_y: false,
            btn_lb: false,
            btn_rb: false,
            btn_view: false,
            btn_menu: false,
            btn_xbox: false,
            btn_lstick: false,
            btn_rstick: false,
            dpad_up: false,
            dpad_down: false,
            dpad_left: false,
            dpad_right: false,
            paddle_ur: false,
            paddle_lr: false,
            paddle_ul: false,
            paddle_ll: false,
            left_stick_x: 0,
            left_stick_y: 0,
            right_stick_x: 0,
            right_stick_y: 0,
            left_trigger: 0,
            right_trigger: 0,
            hw_profile: 0,
        }
    }
}

/// An input identifier: event type and code.
#[derive(Debug, Clone, Copy, PartialEq, Eq, Hash, Structural)]
pub struct InputId {
    pub ev_type: u16,
    pub code: u16,
}

impl InputId {
    /// A key (button) identifier.
    pub fn key(code: u16) -> (res: InputId)
        ensures
            res == (InputId { ev_type: EV_KEY, code }),
    {
        InputId { ev_type: EV_KEY, code }
    }

    /// An absolute axis identifier.
    pub fn abs(code: u16) -> (res: InputId)
        ensures
            res == (InputId { ev_type: EV_ABS, code }),
    {
        InputId { ev_type: EV_ABS, code }
    }
}

/// A remap rule: events of `src` are emitted as `dst`. For an axis source
/// the value is also multiplied by a scale factor, a 32-bit float held here
/// by its IEEE-754 bits; the multiplication is left to the program that
/// emits the events.
#[derive(Debug, Clone, Copy, PartialEq, Eq, Structural)]
pub struct RemapEntry {
    pub src: InputId,
    pub dst: InputId,
    pub scale_bits: u32,
}

/// Rust's integer division, which truncates toward zero (`d > 0`).
pub open spec fn tdiv(n: int, d: int) -> int {
    if n >= 0 {
        n / d
    } else {
        -((-n) / d)
    }
}

/// Clamp into `[lo, hi]`.
pub open spec fn clamp(v: int, lo: int, hi: int) -> int {
    if v < lo {
        lo
    } else if v > hi {
        hi
    } else {
        v
    }
}

/// Piecewise-linear response curve for a stick axis: 16 points evenly
/// spaced over the input range [0, 32767], applied to the magnitude of the
/// value with its sign kept.
#[derive(Debug, Clone, Copy)]
pub struct StickCurve {
    pub points: [i16; 16],
}

/// The value of curve `pts` at raw stick value `raw`.
pub open spec fn spec_curve_eval(pts: Seq<i16>, raw: i16) -> i16 {
    if raw == 0 {
        0
    } else {
        let sign: int = if raw < 0 {
            -1
        } else {
            1
        };
        let abs_val: int = if raw < 0 {
            if -(raw as int) > 32767 {
                32767
            } else {
                -(raw as int)
            }
        } else {
            raw as int
        };
        let scaled = abs_val * 15;
        let idx = scaled / 32767;
        let frac = scaled % 32767;
        let result: int = if idx >= 15 {
            pts[15] as int
        } else {
            let a = pts[idx] as int;
            let b = pts[idx + 1] as int;
            a + tdiv((b - a) * frac, 32767)
        };
        clamp(result * sign, -32767, 32767) as i16
    }
}

/// The linear identity curve: point `i` is `i * 32767 / 15`.
pub open spec fn linear_point(i: int) -> i16 {
    (i * 32767 / 15) as i16
}

impl Default for StickCurve {
    fn default() -> (res: Self)
        ensures
            forall|i: int| 0 <= i < 16 ==> #[trigger] res.points@[i] == linear_point(i),
    {
        let mut points = [0i16; 16];
        let mut i: usize = 0;
        while i < 16
            invariant
                i <= 16,
                forall|j: int| 0 <= j < i ==> #[trigger] points@[j] == linear_point(j),
            decreases 16 - i,
        {
            assert(i * 32767 / 15 <= 32767) by (nonlinear_arith)
                requires
                    i < 16,
            ;
            points[i] = ((i as i32 * 32767) / 15) as i16;
            i = i + 1;
        }
        StickCurve { points }
    }
}

/// Division that truncates toward zero, for a positive divisor.
fn trunc_div(n: i64, d: i64) -> (res: i64)
    requires
        d > 0,
        n > i64::MIN,
    ensures
        res == tdiv(n as int, d as int),
{
    if n >= 0 {
        n / d
    } else {
        -((-n) / d)
    }
}

impl StickCurve {
    /// Evaluate the curve for a raw stick value.
    pub fn evaluate(&self, raw: i16) -> (res: i16)
        ensures
            res == spec_curve_eval(self.points@, raw),
    {
        if raw == 0 {
            return 0;
        }
        let sign: i64 = if raw < 0 {
            -1
        } else {
            1
        };
        let abs_val: i64 = if raw < 0 {
            if -(raw as i64) > 32767 {
                32767
            } else {
                -(raw as i64)
            }
        } else {
            raw as i64
        };
        let scaled = abs_val * 15;
        let idx = scaled / 32767;
        let frac = scaled % 32767;
        let result: i64 = if idx >= 15 {
            self.points[15] as i64
        } else {
            let a = self.points[idx as usize] as i64;
            let b = self.points[idx as usize + 1] as i64;
            assert(-65535 <= b - a <= 65535);
            assert(-65535 * 32767 <= (b - a) * frac <= 65535 * 32767) by (nonlinear_arith)
                requires
                    -65535 <= b - a <= 65535,
                    0 <= frac < 32767,
            ;
            a + trunc_div((b - a) * frac, 32767)
        };
        assert(-4294967296 <= result <= 4294967296) by {
            if idx < 15 {
                let a = self.points@[idx as int] as int;
                let b = self.points@[idx + 1] as int;
                assert(-65535 * 32767 <= (b - a) * frac <= 65535 * 32767) by (nonlinear_arith)
                    requires
                        -65535 <= b - a <= 65535,
                        0 <= frac < 32767,
                ;
            }
        }
        let v = result * sign;
        let c: i64 = if v < -32767 {
            -32767
        } else if v > 32767 {
            32767
        } else {
            v
        };
        c as i16
    }
}

/// Trigger dead zone: raw values at or below `dead_min` read 0, at or above
/// `dead_max` read 1023, and values between are stretched linearly.
#[derive(Debug, Clone, Copy, PartialEq, Eq, Structural)]
pub struct TriggerZone {
    pub dead_min: u16,
    pub dead_max: u16,
}

/// The value of dead zone `(lo, hi)` at raw trigger value `raw`.
pub open spec fn spec_zone_apply(lo: u16, hi: u16, raw: u16) -> u16 {
    if raw <= lo {
        0
    } else if raw >= hi {
        1023
    } else {
        (((raw - lo) * 1023) / ((hi - lo) as int)) as u16
    }
}

impl Default for TriggerZone {
    fn default() -> (res: Self)
        ensures
            res == (TriggerZone { dead_min: 0, dead_max: 1023 }),
    {
        TriggerZone { dead_min: 0, dead_max: 1023 }
    }
}

impl TriggerZone {
    /// Apply the dead zone to a raw trigger value.
    pub fn apply(&self, raw: u16) -> (res: u16)
        ensures
            res == spec_zone_apply(self.dead_min, self.dead_max, raw),
            res <= 1023,
    {
        if raw <= self.dead_min {
            return 0;
        }
        if raw >= self.dead_max {
            return 1023;
        }
        let range = self.dead_max - self.dead_min;
        let num = (raw - self.dead_min) as u32 * 1023;
        assert(num / (range as u32) <= 1023) by (nonlinear_arith)
            requires
                num == (raw - self.dead_min) * 1023,
                0 < raw - self.dead_min < range,
        ;
        (num / range as u32) as u16
    }
}

/// Per-motor vibration intensity (0-100).
#[derive(Debug, Clone, Copy, PartialEq, Eq, Structural)]
pub struct VibrationConfig {
    pub main_motor: u8,
    pub weak_motor: u8,
    pub left_trigger: u8,
    pub right_trigger: u8,
}

impl Default for VibrationConfig {
    fn default() -> (res: Self)
        ensures
            res == (VibrationConfig {
                main_motor: 100,
                weak_motor: 100,
                left_trigger: 100,
                right_trigger: 100,
            }),
    {
        VibrationConfig { main_motor: 100, weak_motor: 100, left_trigger: 100, right_trigger: 100 }
    }
}

/// A complete software profile.
#[derive(Debug)]
pub struct Profile {
    pub name: String,
    pub remaps: Vec<RemapEntry>,
    /// LX, LY, RX, RY.
    pub stick_curves: [Option<StickCurve>; 4],
    /// Left, right.
    pub trigger_zones: [Option<TriggerZone>; 2],
    pub vibration: VibrationConfig,
}

/// Whether a profile changes nothing: no remaps, no curves, no dead zones.
pub open spec fn is_identity_profile(p: Profile) -> bool {
    &&& p.remaps@.len() == 0
    &&& forall|i: int| 0 <= i < 4 ==> (#[trigger] p.stick_curves[i]) is None
    &&& forall|i: int| 0 <= i < 2 ==> (#[trigger] p.trigger_zones[i]) is None
}

impl Default for Profile {
    fn default() -> (res: Self)
        ensures
            is_identity_profile(res),
            res.name@ == seq!['D', 'e', 'f', 'a', 'u', 'l', 't'],
            res.vibration == (VibrationConfig {
                main_motor: 100,
                weak_motor: 100,
                left_trigger: 100,
                right_trigger: 100,
            }),
    {
        proof {
            reveal_strlit("Default");
        }
        Profile {
            name: "Default".to_string(),
            remaps: Vec::new(),
            stick_curves: [None, None, None, None],
            trigger_zones: [None, None],
            vibration: VibrationConfig::default(),
        }
    }
}

/// Two profiles with the same contents.
pub open spec fn same_profile(a: Profile, b: Profile) -> bool {
    &&& a.name@ == b.name@
    &&& a.remaps@ == b.remaps@
    &&& a.stick_curves == b.stick_curves
    &&& a.trigger_zones == b.trigger_zones
    &&& a.vibration == b.vibration
}

impl Clone for Profile {
    fn clone(&self) -> (res: Self)
        ensures
            same_profile(res, *self),
    {
        Profile {
            name: self.name.clone(),
            remaps: self.remaps.clone(),
            stick_curves: self.stick_curves,
            trigger_zones: self.trigger_zones,
            vibration: self.vibration,
        }
    }
}

/// Configuration mapping hardware profiles to software profiles.
#[derive(Debug)]
pub struct DeviceConfig {
    /// Profiles by slot.
    pub profiles: Vec<Profile>,
    /// Software profile index for each hardware profile (0-3).
    pub hw_profile_map: [usize; 4],
    /// Software profile chosen by the user, overriding the hardware map.
    pub active_override: Option<usize>,
}

/// Two configurations with the same contents.
pub open spec fn same_config(a: DeviceConfig, b: DeviceConfig) -> bool {
    &&& a.profiles@.len() == b.profiles@.len()
    &&& forall|i: int| 0 <= i < a.profiles@.len() ==> same_profile(#[trigger] a.profiles@[i], b.profiles@[i])
    &&& a.hw_profile_map == b.hw_profile_map
    &&& a.active_override == b.active_override
}

impl Clone for DeviceConfig {
    fn clone(&self) -> (res: Self)
        ensures
            same_config(res, *self),
    {
        let mut profiles: Vec<Profile> = Vec::new();
        let mut i: usize = 0;
        while i < self.profiles.len()
            invariant
                i <= self.profiles@.len(),
                profiles@.len() == i,
                forall|j: int| 0 <= j < i ==> same_profile(#[trigger] profiles@[j], self.profiles@[j]),
            decreases self.profiles@.len() - i,
        {
            profiles.push(self.profiles[i].clone());
            i = i + 1;
        }
        DeviceConfig {
            profiles,
            hw_profile_map: self.hw_profile_map,
            active_override: self.active_override,
        }
    }
}

impl Default for DeviceConfig {
    fn default() -> (res: Self)
        ensures
            res.profiles@.len() == 1,
            is_identity_profile(res.profiles@[0]),
            res.hw_profile_map@ == seq![0usize, 0, 0, 0],
            res.active_override is None,
    {
        let mut profiles: Vec<Profile> = Vec::new();
        profiles.push(Profile::default());
        let map: [usize; 4] = [0, 0, 0, 0];
        proof {
            assert(map@ =~= seq![0usize, 0, 0, 0]);
        }
        DeviceConfig { profiles, hw_profile_map: map, active_override: None }
    }
}

/// Whether the curve's control points never decrease.
pub open spec fn points_nondecreasing(pts: Seq<i16>) -> bool {
    forall|k: int| 0 <= k < 15 ==> #[trigger] pts[k] <= pts[k + 1]
}

/// The interpolated value of a curve at a positive input, before clamping.
spec fn curve_result(pts: Seq<i16>, v: int) -> int {
    let idx = v * 15 / 32767;
    let frac = v * 15 % 32767;
    if idx >= 15 {
        pts[15] as int
    } else {
        pts[idx] as int + tdiv((pts[idx + 1] - pts[idx]) * frac, 32767)
    }
}

proof fn lemma_points_sorted(pts: Seq<i16>, i: int, j: int)
    requires
        pts.len() == 16,
        points_nondecreasing(pts),
        0 <= i <= j < 16,
    ensures
        pts[i] <= pts[j],
    decreases j - i,
{
    if i < j {
        lemma_points_sorted(pts, i, j - 1);
        assert(pts[j - 1] <= pts[j]);
    }
}

proof fn lemma_curve_segment(pts: Seq<i16>, v: int)
    requires
        pts.len() == 16,
        points_nondecreasing(pts),
        0 < v <= 32767,
    ensures
        0 <= v * 15 / 32767 <= 15,
        pts[v * 15 / 32767] <= curve_result(pts, v),
        v * 15 / 32767 < 15 ==> curve_result(pts, v) <= pts[v * 15 / 32767 + 1],
{
    let idx = v * 15 / 32767;
    let frac = v * 15 % 32767;
    assert(0 <= idx <= 15) by (nonlinear_arith)
        requires
            0 < v <= 32767,
            idx == v * 15 / 32767,
    ;
    if idx < 15 {
        let d = pts[idx + 1] - pts[idx];
        assert(d >= 0);
        assert(0 <= frac < 32767);
        assert(0 <= d * frac / 32767 <= d) by (nonlinear_arith)
            requires
                d >= 0,
                0 <= frac < 32767,
        ;
    }
}

proof fn lemma_curve_result_monotone(pts: Seq<i16>, a: int, b: int)
    requires
        pts.len() == 16,
        points_nondecreasing(pts),
        0 < a <= b <= 32767,
    ensures
        curve_result(pts, a) <= curve_result(pts, b),
{
    let ia = a * 15 / 32767;
    let ib = b * 15 / 32767;
    assert(ia <= ib) by (nonlinear_arith)
        requires
            0 < a <= b,
            ia == a * 15 / 32767,
            ib == b * 15 / 32767,
    ;
    lemma_curve_segment(pts, a);
    lemma_curve_segment(pts, b);
    if ia == ib {
        if ia < 15 {
            let d = pts[ia + 1] - pts[ia];
            let fa = a * 15 % 32767;
            let fb = b * 15 % 32767;
            assert(fa <= fb) by (nonlinear_arith)
                requires
                    0 < a <= b,
                    a * 15 / 32767 == b * 15 / 32767,
                    fa == a * 15 % 32767,
                    fb == b * 15 % 32767,
            ;
            assert(d >= 0);
            assert(d * fa / 32767 <= d * fb / 32767) by (nonlinear_arith)
                requires
                    d >= 0,
                    0 <= fa <= fb,
            ;
        }
    } else {
        lemma_points_sorted(pts, ia + 1, ib);
    }
}

/// A curve whose control points start at zero or above and never decrease
/// is monotone on non-negative inputs.
pub proof fn lemma_curve_monotone(pts: Seq<i16>, a: i16, b: i16)
    requires
        pts.len() == 16,
        pts[0] >= 0,
        points_nondecreasing(pts),
        0 <= a <= b,
    ensures
        spec_curve_eval(pts, a) <= spec_curve_eval(pts, b),
{
    if b > 0 {
        lemma_curve_segment(pts, b as int);
        lemma_points_sorted(pts, 0, b * 15 / 32767);
        assert(spec_curve_eval(pts, b) as int == clamp(curve_result(pts, b as int), -32767, 32767));
        if a > 0 {
            lemma_curve_result_monotone(pts, a as int, b as int);
            assert(spec_curve_eval(pts, a) as int == clamp(curve_result(pts, a as int), -32767, 32767));
        }
    }
}

/// A curve keeps the sign of its input: the value at `-x` is minus the value at `x`.
pub proof fn lemma_curve_odd(pts: Seq<i16>, x: i16)
    requires
        pts.len() == 16,
        x > i16::MIN,
    ensures
        spec_curve_eval(pts, (-x) as i16) as int == -(spec_curve_eval(pts, x) as int),
{
    let y = (-x) as i16;
    assert(y as int == -(x as int));
    if x != 0 {
        let abs_val: int = if x < 0 {
            -(x as int)
        } else {
            x as int
        };
        let scaled = abs_val * 15;
        let idx = scaled / 32767;
        let frac = scaled % 32767;
        let result: int = if idx >= 15 {
            pts[15] as int
        } else {
            let a = pts[idx] as int;
            let b = pts[idx + 1] as int;
            a + tdiv((b - a) * frac, 32767)
        };
        let sx: int = if x < 0 {
            -1
        } else {
            1
        };
        if x < 0 {
            assert(result * (-sx) == result);
            assert(result * sx == -result);
        } else {
            assert(result * (-sx) == -result);
            assert(result * sx == result);
        }
        assert(clamp(result * (-sx), -32767, 32767) == -clamp(result * sx, -32767, 32767));
    }
}

/// A dead zone maps every raw value into 0..=1023, reads 0 at or below its
/// lower bound and 1023 at or above its upper bound.
pub proof fn lemma_zone_range(lo: u16, hi: u16, raw: u16)
    ensures
        spec_zone_apply(lo, hi, raw) <= 1023,
        raw <= lo ==> spec_zone_apply(lo, hi, raw) == 0,
        lo < raw && raw >= hi ==> spec_zone_apply(lo, hi, raw) == 1023,
{
    if lo < raw && raw < hi {
        let n = ((raw - lo) * 1023) as int;
        let d = (hi - lo) as int;
        assert(n / d <= 1023) by (nonlinear_arith)
            requires
                n == (raw - lo) * 1023,
                0 < raw - lo < d,
        ;
    }
}

} // verus!
