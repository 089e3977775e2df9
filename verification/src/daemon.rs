//! The daemon's decisions, apart from its I/O.
//!
//! Each attached controller keeps its configuration and the last decoded
//! state. A raw report, a length-prefixed frame of the kernel module or an
//! evdev event goes in; the events for the virtual gamepad come out. The
//! control socket's requests are answered from the same state, and the
//! rumble reports that a request or a force-feedback event calls for are
//! built here for the caller to write.

use vstd::prelude::*;

use crate::paths::{join_path, path_join};
use crate::hid::{
    apply_evdev_event, pack_buttons, pack_paddles, parse_hidraw_report, spec_button_bits,
    spec_evdev_event, spec_hidraw_report, spec_paddle_bits, InputEvent,
};
use crate::transform::{
    abs_event, axis_deltas, button_deltas, key_event, lemma_unchanged_state_is_silent, spec_axes,
    spec_buttons, spec_transform, transform, OutputEvent,
};
use crate::gip_types::default_face;
use crate::hw_profile::{HwProfile, HwProfileCache};
use crate::types::{
    idle_state, is_identity_profile, same_config, DeviceConfig, GamepadState, InputId, Profile,
};

verus! {

/// Where a controller's input comes from.
#[derive(Debug, Clone, Copy, PartialEq, Eq, Structural)]
pub enum SourceKind {
    /// A hidraw node (Bluetooth HID).
    Hidraw,
    /// The kernel module's Bluetooth character device.
    Misc,
    /// An evdev node of the stock driver (USB fallback).
    Evdev,
}

/// One attached controller, as the daemon tracks it.
#[derive(Debug)]
pub struct Controller {
    pub device_id: String,
    pub source: SourceKind,
    /// The name the evdev node reports (used for evdev sources).
    pub evdev_name: String,
    pub config: DeviceConfig,
    pub prev_state: GamepadState,
    /// The controller's hardware profiles as last read over USB, if known.
    /// On a raw report, a paddle that the active hardware profile remaps is
    /// dropped: the controller already sends the button it is mapped to.
    pub paddle_cache: Option<HwProfileCache>,
}

/// The profile slot used for a requested index: the index itself when it
/// is in range, else the first slot, else none.
pub open spec fn pick_profile(len: int, idx: int) -> Option<int> {
    if 0 <= idx < len {
        Some(idx)
    } else if len > 0 {
        Some(0)
    } else {
        None
    }
}

/// The profile slot for an index, falling back to the first slot.
pub fn pick_profile_index(len: usize, idx: usize) -> (res: Option<usize>)
    ensures
        res matches Some(i) ==> pick_profile(len as int, idx as int) == Some(i as int),
        res is None ==> pick_profile(len as int, idx as int) is None,
{
    if idx < len {
        Some(idx)
    } else if len > 0 {
        Some(0)
    } else {
        None
    }
}

/// The events of a transformation through a profile without remaps, curves
/// or dead zones.
pub open spec fn passthrough(cur: GamepadState, prev: GamepadState) -> Seq<OutputEvent> {
    spec_transform(cur, prev, choose|p: Profile| is_identity_profile(p))
}

/// Two profiles with the same remap rules, curves and dead zones emit the
/// same events for every pair of states.
pub proof fn lemma_transform_same_mapping(cur: GamepadState, prev: GamepadState, p: Profile, q: Profile)
    requires
        p.remaps@ == q.remaps@,
        forall|i: int| 0 <= i < 4 ==> p.stick_curves[i] == q.stick_curves[i],
        forall|i: int| 0 <= i < 2 ==> p.trigger_zones[i] == q.trigger_zones[i],
    ensures
        spec_transform(cur, prev, p) == spec_transform(cur, prev, q),
{
    assert(spec_axes(cur, p) =~= spec_axes(cur, q));
    assert(spec_axes(prev, p) =~= spec_axes(prev, q));
    lemma_button_deltas_same(spec_buttons(cur), spec_buttons(prev), p, q, 15);
    lemma_axis_deltas_same(spec_axes(cur, p), spec_axes(prev, p), p, q, 8);
}

proof fn lemma_button_deltas_same(
    c: Seq<(InputId, bool)>,
    d: Seq<(InputId, bool)>,
    p: Profile,
    q: Profile,
    n: int,
)
    requires
        p.remaps@ == q.remaps@,
    ensures
        button_deltas(c, d, p, n) == button_deltas(c, d, q, n),
    decreases n,
{
    if n > 0 {
        lemma_button_deltas_same(c, d, p, q, n - 1);
        assert(key_event(p, c[n - 1].0, 0) == key_event(q, c[n - 1].0, 0));
        assert(key_event(p, c[n - 1].0, 1) == key_event(q, c[n - 1].0, 1));
    }
}

proof fn lemma_axis_deltas_same(
    c: Seq<(InputId, i32)>,
    d: Seq<(InputId, i32)>,
    p: Profile,
    q: Profile,
    n: int,
)
    requires
        p.remaps@ == q.remaps@,
    ensures
        axis_deltas(c, d, p, n) == axis_deltas(c, d, q, n),
    decreases n,
{
    if n > 0 {
        lemma_axis_deltas_same(c, d, p, q, n - 1);
        assert(abs_event(p, c[n - 1].0, c[n - 1].1) == abs_event(q, c[n - 1].0, c[n - 1].1));
    }
}

/// Every profile without remaps, curves or dead zones emits `passthrough`.
pub proof fn lemma_identity_is_passthrough(cur: GamepadState, prev: GamepadState, p: Profile)
    requires
        is_identity_profile(p),
    ensures
        spec_transform(cur, prev, p) == passthrough(cur, prev),
{
    let q = choose|q: Profile| is_identity_profile(q);
    assert(is_identity_profile(q));
    assert(p.remaps@ =~= q.remaps@);
    lemma_transform_same_mapping(cur, prev, p, q);
}

/// The events for a decoded report: profile 0 passes the input through,
/// profiles 1 to 3 use software profile `hw - 1` (or the first one), and
/// without any software profile nothing is emitted.
pub open spec fn report_events(config: DeviceConfig, cur: GamepadState, prev: GamepadState) -> Seq<
    OutputEvent,
> {
    if cur.hw_profile == 0 {
        passthrough(cur, prev)
    } else {
        match pick_profile(config.profiles@.len() as int, cur.hw_profile - 1) {
            Some(i) => spec_transform(cur, prev, config.profiles@[i]),
            None => Seq::empty(),
        }
    }
}

/// Whether a raw report is a gamepad input report: report ID 1, at least
/// 15 bytes.
pub open spec fn is_input_report(data: Seq<u8>) -> bool {
    data.len() >= 15 && data[0] == 0x01
}

/// The state a gamepad input report decodes to.
pub open spec fn decoded_report(data: Seq<u8>) -> GamepadState {
    if data.len() < 16 {
        idle_state()
    } else {
        spec_hidraw_report(data)
    }
}

fn events_for_report(config: &DeviceConfig, cur: &GamepadState, prev: &GamepadState) -> (res: Vec<
    OutputEvent,
>)
    ensures
        res@ == report_events(*config, *cur, *prev),
{
    if cur.hw_profile == 0 {
        let identity = Profile::default();
        let events = transform(cur, prev, &identity);
        proof {
            lemma_identity_is_passthrough(*cur, *prev, identity);
        }
        events
    } else {
        match pick_profile_index(config.profiles.len(), (cur.hw_profile - 1) as usize) {
            Some(i) => transform(cur, prev, &config.profiles[i]),
            None => Vec::new(),
        }
    }
}

/// Whether paddle `i` (P1 to P4) is remapped in hardware profile `hw`
/// (1 to 3) of the cache: its output differs from the default.
pub open spec fn paddle_remapped(cache: HwProfileCache, hw: u8, i: int) -> bool {
    1 <= hw <= 3 && cache.profiles[hw - 1].paddles@[i] != default_face()[i]
}

/// A state without the paddles that the cache shows remapped in the
/// state's hardware profile; without a cache, the state itself.
pub open spec fn without_remapped_paddles(s: GamepadState, cache: Option<HwProfileCache>) -> GamepadState {
    match cache {
        None => s,
        Some(c) => GamepadState {
            paddle_ur: s.paddle_ur && !paddle_remapped(c, s.hw_profile, 0),
            paddle_lr: s.paddle_lr && !paddle_remapped(c, s.hw_profile, 1),
            paddle_ul: s.paddle_ul && !paddle_remapped(c, s.hw_profile, 2),
            paddle_ll: s.paddle_ll && !paddle_remapped(c, s.hw_profile, 3),
            ..s
        },
    }
}

/// Release the paddles that the cache shows remapped in the state's
/// hardware profile.
/// Which of the four paddles a hardware profile remaps.
fn remapped_paddles(p: &HwProfile) -> (r: [bool; 4])
    ensures
        forall|i: int| 0 <= i < 4 ==> r[i] == (p.paddles@[i] != default_face()[i]),
{
    let r: [bool; 4] = [p.paddles[0] != 0x04, p.paddles[1] != 0x05, p.paddles[2] != 0x06, p.paddles[3] != 0x07];
    r
}

/// Release the paddles that the cache shows remapped in the state's
/// hardware profile.
pub fn suppress_remapped_paddles(state: &mut GamepadState, cache: &Option<HwProfileCache>)
    ensures
        *final(state) == without_remapped_paddles(*old(state), *cache),
        final(state).paddle_ur == (old(state).paddle_ur && !(cache matches Some(c) && 1 <= old(state).hw_profile <= 3
            && c.profiles[old(state).hw_profile - 1].paddles[0] != 0x04)),
        final(state).paddle_lr == (old(state).paddle_lr && !(cache matches Some(c) && 1 <= old(state).hw_profile <= 3
            && c.profiles[old(state).hw_profile - 1].paddles[1] != 0x05)),
        final(state).paddle_ul == (old(state).paddle_ul && !(cache matches Some(c) && 1 <= old(state).hw_profile <= 3
            && c.profiles[old(state).hw_profile - 1].paddles[2] != 0x06)),
        final(state).paddle_ll == (old(state).paddle_ll && !(cache matches Some(c) && 1 <= old(state).hw_profile <= 3
            && c.profiles[old(state).hw_profile - 1].paddles[3] != 0x07)),
        *final(state) == (GamepadState {
            paddle_ur: final(state).paddle_ur,
            paddle_lr: final(state).paddle_lr,
            paddle_ul: final(state).paddle_ul,
            paddle_ll: final(state).paddle_ll,
            ..*old(state)
        }),
{
    if let Some(c) = cache {
        let hw = state.hw_profile;
        if 1 <= hw && hw <= 3 {
            let r = remapped_paddles(&c.profiles[(hw - 1) as usize]);
            let s = *state;
            *state = GamepadState {
                paddle_ur: s.paddle_ur && !r[0],
                paddle_lr: s.paddle_lr && !r[1],
                paddle_ul: s.paddle_ul && !r[2],
                paddle_ll: s.paddle_ll && !r[3],
                ..s
            };
            proof {
                assert(*state == without_remapped_paddles(*old(state), *cache));
            }
        } else {
            proof {
                assert(*state == without_remapped_paddles(*old(state), *cache));
            }
        }
    }
}

/// In a report with paddles (more than 19 bytes), paddle P1 (bit 0x01 of
/// byte 19, `paddle_ur`), P2 (0x02, `paddle_lr`), P3 (0x04, `paddle_ul`) and
/// P4 (0x08, `paddle_ll`) stays pressed exactly when its bit is set and the
/// report's hardware profile (byte 17, 1 to 3) keeps that paddle's slot
/// (0 to 3) at its default output (0x04, 0x05, 0x06, 0x07).
pub proof fn lemma_report_paddles(data: Seq<u8>, c: HwProfileCache)
    requires
        data.len() > 19,
    ensures
        ({
            let h = data[17] & 0x03;
            let keeps = |i: int, d: u8| !(1 <= h <= 3 && c.profiles[h - 1].paddles[i] != d);
            &&& report_state(data, Some(c)).paddle_ur == (data[19] & 0x01 != 0 && keeps(0, 0x04))
            &&& report_state(data, Some(c)).paddle_lr == (data[19] & 0x02 != 0 && keeps(1, 0x05))
            &&& report_state(data, Some(c)).paddle_ul == (data[19] & 0x04 != 0 && keeps(2, 0x06))
            &&& report_state(data, Some(c)).paddle_ll == (data[19] & 0x08 != 0 && keeps(3, 0x07))
        }),
{
    let b = data[19];
    assert(b & 0x0F & 0x01 == b & 0x01) by (bit_vector);
    assert(b & 0x0F & 0x02 == b & 0x02) by (bit_vector);
    assert(b & 0x0F & 0x04 == b & 0x04) by (bit_vector);
    assert(b & 0x0F & 0x08 == b & 0x08) by (bit_vector);
}

/// The state a raw report leaves for a controller: the decoded report
/// without the paddles its hardware profile remaps.
pub open spec fn report_state(data: Seq<u8>, cache: Option<HwProfileCache>) -> GamepadState {
    without_remapped_paddles(decoded_report(data), cache)
}

/// Process one raw report read from a hidraw node or the kernel module's
/// device: a gamepad input report, without the paddles the hardware
/// profile remaps, replaces the previous state and yields the events for
/// the virtual gamepad; any other report changes nothing.
pub fn process_report(ctrl: &mut Controller, data: &[u8]) -> (res: Vec<OutputEvent>)
    ensures
        final(ctrl).device_id@ == old(ctrl).device_id@,
        final(ctrl).source == old(ctrl).source,
        final(ctrl).evdev_name@ == old(ctrl).evdev_name@,
        final(ctrl).config == old(ctrl).config,
        final(ctrl).paddle_cache == old(ctrl).paddle_cache,
        !is_input_report(data@) ==> res@.len() == 0 && final(ctrl).prev_state == old(
            ctrl,
        ).prev_state,
        is_input_report(data@) ==> ({
            let cur = report_state(data@, old(ctrl).paddle_cache);
            final(ctrl).prev_state == cur && res@ == report_events(
                old(ctrl).config,
                cur,
                old(ctrl).prev_state,
            )
        }),
{
    if data.len() < 15 || data[0] != 0x01 {
        return Vec::new();
    }
    let mut current = parse_hidraw_report(data);
    suppress_remapped_paddles(&mut current, &ctrl.paddle_cache);
    let events = events_for_report(&ctrl.config, &current, &ctrl.prev_state);
    ctrl.prev_state = current;
    events
}

/// The payload length of a frame of the kernel module's device, from its
/// two-byte little-endian prefix; `None` for an empty frame or one longer
/// than the 128-byte read buffer, which is skipped.
pub fn misc_frame_len(prefix: [u8; 2]) -> (res: Option<usize>)
    ensures
        ({
            let n = prefix[0] as int + 256 * prefix[1] as int;
            &&& (n == 0 || n > 128) ==> res is None
            &&& (0 < n <= 128) ==> res == Some(n as usize)
        }),
{
    let n: usize = prefix[0] as usize + 256 * (prefix[1] as usize);
    if n == 0 || n > 128 {
        None
    } else {
        Some(n)
    }
}

/// The events emitted at an evdev synchronisation event: the last state,
/// compared with the idle state, through the chosen software profile.
pub open spec fn sync_events(config: DeviceConfig, state: GamepadState) -> Seq<OutputEvent> {
    let idx = match config.active_override {
        Some(i) => i as int,
        None => 0,
    };
    match pick_profile(config.profiles@.len() as int, idx) {
        Some(i) => spec_transform(state, idle_state(), config.profiles@[i]),
        None => Seq::empty(),
    }
}

/// Process one event of an evdev source: a synchronisation event emits the
/// accumulated state, any other event updates it.
pub fn process_evdev_event(ctrl: &mut Controller, ev: &InputEvent) -> (res: Vec<OutputEvent>)
    ensures
        final(ctrl).device_id@ == old(ctrl).device_id@,
        final(ctrl).source == old(ctrl).source,
        final(ctrl).evdev_name@ == old(ctrl).evdev_name@,
        final(ctrl).config == old(ctrl).config,
        final(ctrl).paddle_cache == old(ctrl).paddle_cache,
        ev.ev_type == 0 && ev.code == 0 ==> final(ctrl).prev_state == old(ctrl).prev_state && res@
            == sync_events(old(ctrl).config, old(ctrl).prev_state),
        ev.ev_type == 0 && ev.code != 0 ==> final(ctrl).prev_state == old(ctrl).prev_state
            && res@.len() == 0,
        ev.ev_type != 0 ==> res@.len() == 0 && final(ctrl).prev_state == spec_evdev_event(
            old(ctrl).prev_state,
            ev.ev_type,
            ev.code,
            ev.value,
        ),
{
    if ev.ev_type == 0 && ev.code == 0 {
        let idx: usize = match ctrl.config.active_override {
            Some(i) => i,
            None => 0,
        };
        let idle = GamepadState::default();
        match pick_profile_index(ctrl.config.profiles.len(), idx) {
            Some(i) => transform(&ctrl.prev_state, &idle, &ctrl.config.profiles[i]),
            None => Vec::new(),
        }
    } else {
        if ev.ev_type != 0 {
            apply_evdev_event(&mut ctrl.prev_state, ev);
        }
        Vec::new()
    }
}

/// The output report that stops all four motors.
pub open spec fn stop_report() -> Seq<u8> {
    seq![0x03u8, 0x0F, 0, 0, 0, 0, 0, 0, 0]
}

/// The output report that runs one motor (0 main, 1 weak, 2 left trigger,
/// 3 right trigger) at an intensity capped at 100 for 320 ms; another
/// motor number runs none.
pub open spec fn motor_report(motor: u8, intensity: u8) -> Seq<u8> {
    let v: u8 = if intensity > 100 {
        100
    } else {
        intensity
    };
    let base = seq![0x03u8, 0x0F, 0, 0, 0, 0, 0x20, 0, 0];
    if motor == 0 {
        base.update(4, v)
    } else if motor == 1 {
        base.update(5, v)
    } else if motor == 2 {
        base.update(2, v)
    } else if motor == 3 {
        base.update(3, v)
    } else {
        base
    }
}

/// The report that stops all motors.
pub fn rumble_stop_report() -> (res: [u8; 9])
    ensures
        res@ == stop_report(),
{
    let r: [u8; 9] = [0x03, 0x0F, 0, 0, 0, 0, 0, 0, 0];
    proof {
        assert(r@ =~= stop_report());
    }
    r
}

/// The report that tests one motor.
pub fn motor_test_report(motor: u8, intensity: u8) -> (res: [u8; 9])
    ensures
        res@ == motor_report(motor, intensity),
{
    let v: u8 = if intensity > 100 {
        100
    } else {
        intensity
    };
    let mut r: [u8; 9] = [0x03, 0x0F, 0, 0, 0, 0, 0x20, 0, 0];
    if motor == 0 {
        r[4] = v;
    } else if motor == 1 {
        r[5] = v;
    } else if motor == 2 {
        r[2] = v;
    } else if motor == 3 {
        r[3] = v;
    }
    proof {
        assert(r@ =~= motor_report(motor, intensity));
    }
    r
}

/// What the virtual gamepad's force-feedback channel asks for.
#[derive(Debug, Clone, Copy)]
pub enum FfRequest {
    /// An effect upload to acknowledge.
    Upload,
    /// An effect erase to acknowledge.
    Erase,
    /// A report to send to the controller.
    Play { report: [u8; 9] },
    /// Nothing to do.
    Ignore,
}

/// The uinput event type of upload and erase requests.
pub const EV_UINPUT: u16 = 0x0101;

/// The uinput code of an effect upload.
pub const UI_FF_UPLOAD: u16 = 1;

/// The uinput code of an effect erase.
pub const UI_FF_ERASE: u16 = 2;

/// The force-feedback event type.
pub const EV_FF: u16 = 0x15;

/// The report a played effect sends: a moderate rumble on all motors while
/// `value` is positive (Steam's "ping"), a stop otherwise.
pub open spec fn ff_play_report(value: i32) -> Seq<u8> {
    if value > 0 {
        seq![0x03u8, 0x0F, 0x20, 0x20, 0x40, 0x40, 0x20, 0, 0]
    } else {
        stop_report()
    }
}

/// Classify an event read back from the virtual gamepad.
pub fn ff_request(ev_type: u16, code: u16, value: i32) -> (res: FfRequest)
    ensures
        ev_type == EV_UINPUT && code == UI_FF_UPLOAD ==> res is Upload,
        ev_type == EV_UINPUT && code == UI_FF_ERASE ==> res is Erase,
        ev_type == EV_UINPUT && code != UI_FF_UPLOAD && code != UI_FF_ERASE ==> res is Ignore,
        ev_type == EV_FF ==> (res matches FfRequest::Play { report } && report@ == ff_play_report(
            value,
        )),
        ev_type != EV_UINPUT && ev_type != EV_FF ==> res is Ignore,
{
    if ev_type == EV_UINPUT {
        if code == UI_FF_UPLOAD {
            FfRequest::Upload
        } else if code == UI_FF_ERASE {
            FfRequest::Erase
        } else {
            FfRequest::Ignore
        }
    } else if ev_type == EV_FF {
        let report: [u8; 9] = if value > 0 {
            [0x03, 0x0F, 0x20, 0x20, 0x40, 0x40, 0x20, 0, 0]
        } else {
            [0x03, 0x0F, 0, 0, 0, 0, 0, 0, 0]
        };
        proof {
            assert(report@ =~= ff_play_report(value));
        }
        FfRequest::Play { report }
    } else {
        FfRequest::Ignore
    }
}

/// The default brightness of a profile LED, in percent.
pub fn default_brightness() -> (res: u8)
    ensures
        res == 100,
{
    100
}

/// The control socket's path.
pub fn socket_path() -> (res: String)
    ensures
        res@ == "/run/xbelite2.sock"@,
{
    String::from_str("/run/xbelite2.sock")
}

/// The control socket's path for a session: `xbelite2.sock` in the runtime
/// directory when one is set, the system path otherwise.
pub fn socket_path_in(runtime_dir: Option<&str>) -> (res: String)
    ensures
        runtime_dir matches Some(d) ==> res@ == path_join(d@, "xbelite2.sock"@),
        runtime_dir is None ==> res@ == "/run/xbelite2.sock"@,
{
    match runtime_dir {
        Some(d) => join_path(d, "xbelite2.sock"),
        None => socket_path(),
    }
}

/// One device's entry in the status answer.
#[derive(Debug)]
pub struct DeviceStatus {
    pub device_id: String,
    pub name: String,
    pub hw_profile: u8,
    pub active_profile: usize,
    pub connected: bool,
    pub is_usb: bool,
    /// `#rrggbb`, or empty where the daemon does not know it.
    pub profile_color: String,
    /// 0-100.
    pub profile_brightness: u8,
    /// A, B, X, Y, LB, RB, View, Menu, Xbox, LS, RS, then d-pad up, down,
    /// left, right in bits 0 to 14.
    pub buttons: u16,
    /// P1 to P4 in bits 0 to 3.
    pub paddles: u8,
    pub left_stick_x: i16,
    pub left_stick_y: i16,
    pub right_stick_x: i16,
    pub right_stick_y: i16,
    pub left_trigger: u16,
    pub right_trigger: u16,
}

/// A request on the control socket.
#[derive(Debug)]
pub enum IpcRequest {
    /// Connected devices and their live state.
    GetStatus,
    /// The configuration of a device.
    GetConfig { device_id: String },
    /// Replace the configuration of a device.
    SetConfig { device_id: String, config: DeviceConfig },
    /// Set or clear the software profile override of a device.
    SetActiveProfile { device_id: String, profile_index: Option<usize> },
    /// The names of all software profiles.
    ListProfiles,
    /// Run one motor (0 main, 1 weak, 2 left trigger, 3 right trigger) at an
    /// intensity of 0-100.
    TestVibration { device_id: String, motor: u8, intensity: u8 },
    /// Run the four motors one after the other.
    TestAllVibration { device_id: String, intensities: [u8; 4] },
}

/// An answer on the control socket.
#[derive(Debug)]
pub enum IpcResponse {
    Status { devices: Vec<DeviceStatus> },
    Config { config: DeviceConfig },
    /// The request was carried out (`Ok` on the wire).
    Success,
    Error { message: String },
    ProfileList { profiles: Vec<String> },
}

/// The output work a request leaves for the caller.
#[derive(Debug)]
pub enum IpcAction {
    /// Nothing to write.
    Nothing,
    /// Write `report` to controller `index`, then the stop report 500 ms later.
    MotorTest { index: usize, report: [u8; 9] },
    /// For each report in turn: write it to controller `index`, wait 500 ms,
    /// write the stop report, wait 100 ms.
    MotorSweep { index: usize, reports: [[u8; 9]; 4] },
}

/// The attached controllers, at most one per device identifier.
#[derive(Debug)]
pub struct ControllerTable {
    pub controllers: Vec<Controller>,
}

/// Whether no two controllers share an identifier.
pub open spec fn ids_distinct(cs: Seq<Controller>) -> bool {
    forall|i: int, j: int|
        0 <= i < cs.len() && 0 <= j < cs.len() && i != j ==> (#[trigger] cs[i]).device_id@ != (
        #[trigger] cs[j]).device_id@
}

/// Whether a controller has identifier `id`.
pub open spec fn has_id(cs: Seq<Controller>, id: Seq<char>) -> bool {
    exists|i: int| 0 <= i < cs.len() && (#[trigger] cs[i]).device_id@ == id
}

/// The position of the controller with identifier `id`.
pub open spec fn index_of(cs: Seq<Controller>, id: Seq<char>) -> int {
    choose|i: int| 0 <= i < cs.len() && (#[trigger] cs[i]).device_id@ == id
}

/// The name reported for a controller.
pub open spec fn status_name(c: Controller) -> Seq<char> {
    match c.source {
        SourceKind::Hidraw => "Elite 2 (hidraw)"@,
        SourceKind::Misc => "Elite 2 (BT)"@,
        SourceKind::Evdev => c.evdev_name@,
    }
}

/// Whether `d` is the status entry of controller `c`.
pub open spec fn status_of(d: DeviceStatus, c: Controller) -> bool {
    let s = c.prev_state;
    &&& d.device_id@ == c.device_id@
    &&& d.name@ == status_name(c)
    &&& d.hw_profile == s.hw_profile
    &&& d.active_profile == (match c.config.active_override {
        Some(i) => i,
        None => 0usize,
    })
    &&& d.connected
    &&& d.is_usb == (c.source == SourceKind::Evdev)
    &&& d.profile_color@.len() == 0
    &&& d.profile_brightness == 100
    &&& d.buttons as int == spec_button_bits(s)
    &&& d.paddles as int == spec_paddle_bits(s)
    &&& d.left_stick_x == s.left_stick_x
    &&& d.left_stick_y == s.left_stick_y
    &&& d.right_stick_x == s.right_stick_x
    &&& d.right_stick_y == s.right_stick_y
    &&& d.left_trigger == s.left_trigger
    &&& d.right_trigger == s.right_trigger
}

/// The profile names of the controllers, in order, repeats included.
pub open spec fn all_profile_names(cs: Seq<Controller>) -> Seq<Seq<char>>
    decreases cs.len(),
{
    if cs.len() == 0 {
        Seq::empty()
    } else {
        all_profile_names(cs.drop_last()) + cs.last().config.profiles@.map_values(
            |p: Profile| p.name@,
        )
    }
}

/// A sequence with each repeated element kept at its first place only.
pub open spec fn first_occurrences(s: Seq<Seq<char>>) -> Seq<Seq<char>>
    decreases s.len(),
{
    if s.len() == 0 {
        Seq::empty()
    } else {
        let d = first_occurrences(s.drop_last());
        if d.contains(s.last()) {
            d
        } else {
            d.push(s.last())
        }
    }
}

/// The error message for an unknown device.
pub open spec fn not_found_message(id: Seq<char>) -> Seq<char> {
    "Device "@ + id + " not found"@
}

fn not_found(id: &String) -> (res: IpcResponse)
    ensures
        res matches IpcResponse::Error { message } && message@ == not_found_message(id@),
{
    let mut m = String::from_str("Device ");
    m.append(id.as_str());
    m.append(" not found");
    IpcResponse::Error { message: m }
}

/// The answer to a single motor test once its report was written, or
/// could not be.
pub fn motor_test_outcome(written: bool) -> (res: IpcResponse)
    ensures
        written ==> res is Success,
        !written ==> (res matches IpcResponse::Error { message } && message@
            == "Rumble failed: write rumble"@),
{
    if written {
        IpcResponse::Success
    } else {
        IpcResponse::Error { message: String::from_str("Rumble failed: write rumble") }
    }
}

fn device_status(c: &Controller) -> (res: DeviceStatus)
    ensures
        status_of(res, *c),
{
    let s = &c.prev_state;
    let name = match c.source {
        SourceKind::Hidraw => String::from_str("Elite 2 (hidraw)"),
        SourceKind::Misc => String::from_str("Elite 2 (BT)"),
        SourceKind::Evdev => c.evdev_name.clone(),
    };
    let active: usize = match c.config.active_override {
        Some(i) => i,
        None => 0,
    };
    DeviceStatus {
        device_id: c.device_id.clone(),
        name,
        hw_profile: s.hw_profile,
        active_profile: active,
        connected: true,
        is_usb: c.source == SourceKind::Evdev,
        profile_color: String::new(),
        profile_brightness: default_brightness(),
        buttons: pack_buttons(s),
        paddles: pack_paddles(s),
        left_stick_x: s.left_stick_x,
        left_stick_y: s.left_stick_y,
        right_stick_x: s.right_stick_x,
        right_stick_y: s.right_stick_y,
        left_trigger: s.left_trigger,
        right_trigger: s.right_trigger,
    }
}

impl ControllerTable {
    /// Whether identifiers are unique.
    pub open spec fn wf(&self) -> bool {
        ids_distinct(self.controllers@)
    }

    /// An empty table.
    pub fn new() -> (res: Self)
        ensures
            res.wf(),
            res.controllers@.len() == 0,
    {
        ControllerTable { controllers: Vec::new() }
    }

    /// The position of the controller with identifier `id`.
    pub fn find(&self, id: &String) -> (res: Option<usize>)
        requires
            self.wf(),
        ensures
            res is None <==> !has_id(self.controllers@, id@),
            res matches Some(i) ==> i == index_of(self.controllers@, id@) && i
                < self.controllers@.len() && self.controllers@[i as int].device_id@ == id@,
    {
        let mut i: usize = 0;
        while i < self.controllers.len()
            invariant
                i <= self.controllers@.len(),
                ids_distinct(self.controllers@),
                forall|j: int| 0 <= j < i ==> (#[trigger] self.controllers@[j]).device_id@ != id@,
            decreases self.controllers@.len() - i,
        {
            if self.controllers[i].device_id == *id {
                proof {
                    let k = index_of(self.controllers@, id@);
                    assert(self.controllers@[i as int].device_id@ == id@);
                    assert(0 <= k < self.controllers@.len() && self.controllers@[k].device_id@
                        == id@);
                    if k != i {
                        assert(self.controllers@[k].device_id@ != self.controllers@[i as int].device_id@);
                    }
                }
                return Some(i);
            }
            i = i + 1;
        }
        None
    }

    /// Whether a controller with identifier `id` is attached.
    pub fn contains(&self, id: &String) -> (res: bool)
        requires
            self.wf(),
        ensures
            res == has_id(self.controllers@, id@),
    {
        self.find(id).is_some()
    }

    /// Whether a hidraw or kernel-module source is attached (an evdev node
    /// is then not needed).
    pub fn has_raw_source(&self) -> (res: bool)
        ensures
            res == exists|i: int|
                0 <= i < self.controllers@.len() && (#[trigger] self.controllers@[i]).source
                    != SourceKind::Evdev,
    {
        let mut i: usize = 0;
        while i < self.controllers.len()
            invariant
                i <= self.controllers@.len(),
                forall|j: int| 0 <= j < i ==> (#[trigger] self.controllers@[j]).source == SourceKind::Evdev,
            decreases self.controllers@.len() - i,
        {
            if self.controllers[i].source != SourceKind::Evdev {
                return true;
            }
            i = i + 1;
        }
        false
    }

    /// Attach a controller, replacing one with the same identifier.
    pub fn attach(&mut self, ctrl: Controller)
        requires
            old(self).wf(),
        ensures
            final(self).wf(),
            has_id(old(self).controllers@, ctrl.device_id@) ==> final(self).controllers@ == old(
                self,
            ).controllers@.update(index_of(old(self).controllers@, ctrl.device_id@), ctrl),
            !has_id(old(self).controllers@, ctrl.device_id@) ==> final(self).controllers@ == old(
                self,
            ).controllers@.push(ctrl),
    {
        match self.find(&ctrl.device_id) {
            Some(i) => {
                self.controllers.set(i, ctrl);
            },
            None => {
                self.controllers.push(ctrl);
            },
        }
    }

    /// Detach the controller with identifier `id`, if any.
    pub fn detach(&mut self, id: &String)
        requires
            old(self).wf(),
        ensures
            final(self).wf(),
            !has_id(final(self).controllers@, id@),
            has_id(old(self).controllers@, id@) ==> final(self).controllers@ == old(
                self,
            ).controllers@.remove(index_of(old(self).controllers@, id@)),
            !has_id(old(self).controllers@, id@) ==> final(self).controllers@ == old(
                self,
            ).controllers@,
    {
        match self.find(id) {
            Some(i) => {
                self.controllers.remove(i);
                proof {
                    assert forall|j: int| 0 <= j < self.controllers@.len() implies (
                    #[trigger] self.controllers@[j]).device_id@ != id@ by {
                        if j < i {
                            assert(old(self).controllers@[j] == self.controllers@[j]);
                        } else {
                            assert(old(self).controllers@[j + 1] == self.controllers@[j]);
                        }
                    }
                }
            },
            None => {},
        }
    }
}

/// The views of a sequence of strings.
pub open spec fn string_views(v: Seq<String>) -> Seq<Seq<char>> {
    v.map_values(|s: String| s@)
}

fn contains_name(names: &Vec<String>, x: &String) -> (res: bool)
    ensures
        res == string_views(names@).contains(x@),
{
    let mut i: usize = 0;
    while i < names.len()
        invariant
            i <= names@.len(),
            forall|j: int| 0 <= j < i ==> (#[trigger] names@[j])@ != x@,
        decreases names@.len() - i,
    {
        if names[i] == *x {
            proof {
                assert(string_views(names@)[i as int] == x@);
            }
            return true;
        }
        i = i + 1;
    }
    proof {
        if string_views(names@).contains(x@) {
            let k = choose|k: int| 0 <= k < string_views(names@).len() && string_views(names@)[k] == x@;
            assert(names@[k]@ != x@);
        }
    }
    false
}

/// A controller with another configuration.
pub open spec fn with_config(c: Controller, config: DeviceConfig) -> Controller {
    Controller { config, ..c }
}

/// A controller with another profile override.
pub open spec fn with_override(c: Controller, profile_index: Option<usize>) -> Controller {
    Controller { config: DeviceConfig { active_override: profile_index, ..c.config }, ..c }
}

impl ControllerTable {
    /// The status entries of all controllers, in table order.
    pub fn status(&self) -> (res: Vec<DeviceStatus>)
        ensures
            res@.len() == self.controllers@.len(),
            forall|i: int| 0 <= i < res@.len() ==> status_of(#[trigger] res@[i], self.controllers@[i]),
    {
        let mut devices: Vec<DeviceStatus> = Vec::new();
        let mut i: usize = 0;
        while i < self.controllers.len()
            invariant
                i <= self.controllers@.len(),
                devices@.len() == i,
                forall|j: int| 0 <= j < i ==> status_of(#[trigger] devices@[j], self.controllers@[j]),
            decreases self.controllers@.len() - i,
        {
            devices.push(device_status(&self.controllers[i]));
            i = i + 1;
        }
        devices
    }

    /// The names of all software profiles of all controllers, each name once,
    /// in order of first appearance.
    pub fn profile_names(&self) -> (res: Vec<String>)
        ensures
            string_views(res@) == first_occurrences(all_profile_names(self.controllers@)),
    {
        let ghost cs = self.controllers@;
        let mut names: Vec<String> = Vec::new();
        let mut i: usize = 0;
        proof {
            assert(cs.take(0) =~= Seq::<Controller>::empty());
            assert(string_views(names@) =~= first_occurrences(all_profile_names(cs.take(0))));
        }
        while i < self.controllers.len()
            invariant
                cs == self.controllers@,
                i <= cs.len(),
                string_views(names@) == first_occurrences(all_profile_names(cs.take(i as int))),
            decreases cs.len() - i,
        {
            let profiles = &self.controllers[i].config.profiles;
            let ghost base = all_profile_names(cs.take(i as int));
            let ghost pnames = profiles@.map_values(|p: Profile| p.name@);
            let mut j: usize = 0;
            proof {
                assert(base + pnames.take(0) =~= base);
            }
            while j < profiles.len()
                invariant
                    j <= profiles@.len(),
                    pnames == profiles@.map_values(|p: Profile| p.name@),
                    string_views(names@) == first_occurrences(base + pnames.take(j as int)),
                decreases profiles@.len() - j,
            {
                let ghost before = base + pnames.take(j as int);
                let ghost after = base + pnames.take(j + 1);
                proof {
                    assert(after.drop_last() =~= before);
                    assert(after.last() == profiles@[j as int].name@);
                }
                let ghost names_before = names@;
                if !contains_name(&names, &profiles[j].name) {
                    names.push(profiles[j].name.clone());
                    proof {
                        assert(string_views(names@) =~= string_views(names_before).push(
                            profiles@[j as int].name@,
                        ));
                    }
                }
                proof {
                    assert(string_views(names@) == first_occurrences(after));
                }
                j = j + 1;
            }
            proof {
                assert(pnames.take(profiles@.len() as int) =~= pnames);
                assert(cs.take(i + 1).drop_last() =~= cs.take(i as int));
                assert(cs.take(i + 1).last() == cs[i as int]);
            }
            i = i + 1;
        }
        proof {
            assert(cs.take(cs.len() as int) =~= cs);
        }
        names
    }
}

/// The message for a vibration test on an evdev source.
pub open spec fn evdev_rumble_message() -> Seq<char> {
    "Rumble failed: Vibration test not supported over evdev (USB) yet"@
}

/// The message for a motor sweep on an evdev source.
pub open spec fn evdev_sweep_message() -> Seq<char> {
    "Not supported over evdev"@
}

/// Whether `r` is an error with message `m`.
pub open spec fn is_error(r: IpcResponse, m: Seq<char>) -> bool {
    r matches IpcResponse::Error { message } && message@ == m
}

impl ControllerTable {
    /// Answer a request of the control socket. The table changes only for
    /// `SetConfig` and `SetActiveProfile` on a known device; a vibration
    /// test on a known hidraw or kernel-module source returns the reports
    /// to write.
    #[verifier::rlimit(30)]
    pub fn handle_request(&mut self, request: IpcRequest) -> (res: (IpcResponse, IpcAction))
        requires
            old(self).wf(),
        ensures
            final(self).wf(),
            !(request is SetConfig || request is SetActiveProfile) ==> final(self).controllers@
                == old(self).controllers@,
            !(request is TestVibration || request is TestAllVibration) ==> res.1 is Nothing,
            request is GetStatus ==> (res.0 matches IpcResponse::Status { devices } && devices@.len()
                == old(self).controllers@.len() && forall|i: int|
                0 <= i < devices@.len() ==> status_of(
                #[trigger] devices@[i],
                old(self).controllers@[i],
            )),
            request is ListProfiles ==> (res.0 matches IpcResponse::ProfileList { profiles }
                && string_views(profiles@) == first_occurrences(
                all_profile_names(old(self).controllers@),
            )),
            request matches IpcRequest::GetConfig { device_id } ==> ({
                let cs = old(self).controllers@;
                &&& !has_id(cs, device_id@) ==> is_error(res.0, not_found_message(device_id@))
                &&& has_id(cs, device_id@) ==> (res.0 matches IpcResponse::Config { config }
                    && same_config(config, cs[index_of(cs, device_id@)].config))
            }),
            request matches IpcRequest::SetConfig { device_id, config } ==> ({
                let cs = old(self).controllers@;
                &&& !has_id(cs, device_id@) ==> is_error(res.0, not_found_message(device_id@))
                    && final(self).controllers@ == cs
                &&& has_id(cs, device_id@) ==> res.0 is Success && final(self).controllers@
                    == cs.update(
                    index_of(cs, device_id@),
                    with_config(cs[index_of(cs, device_id@)], config),
                )
            }),
            request matches IpcRequest::SetActiveProfile { device_id, profile_index } ==> ({
                let cs = old(self).controllers@;
                &&& !has_id(cs, device_id@) ==> is_error(res.0, not_found_message(device_id@))
                    && final(self).controllers@ == cs
                &&& has_id(cs, device_id@) ==> res.0 is Success && final(self).controllers@
                    == cs.update(
                    index_of(cs, device_id@),
                    with_override(cs[index_of(cs, device_id@)], profile_index),
                )
            }),
            request matches IpcRequest::TestVibration { device_id, motor, intensity } ==> ({
                let cs = old(self).controllers@;
                let k = index_of(cs, device_id@);
                &&& !has_id(cs, device_id@) ==> is_error(res.0, not_found_message(device_id@))
                    && res.1 is Nothing
                &&& has_id(cs, device_id@) && cs[k].source == SourceKind::Evdev ==> is_error(
                    res.0,
                    evdev_rumble_message(),
                ) && res.1 is Nothing
                &&& has_id(cs, device_id@) && cs[k].source != SourceKind::Evdev ==> res.0 is Success
                    && (res.1 matches IpcAction::MotorTest { index, report } && index == k
                    && report@ == motor_report(motor, intensity))
            }),
            request matches IpcRequest::TestAllVibration { device_id, intensities } ==> ({
                let cs = old(self).controllers@;
                let k = index_of(cs, device_id@);
                &&& !has_id(cs, device_id@) ==> is_error(res.0, not_found_message(device_id@))
                    && res.1 is Nothing
                &&& has_id(cs, device_id@) && cs[k].source == SourceKind::Evdev ==> is_error(
                    res.0,
                    evdev_sweep_message(),
                ) && res.1 is Nothing
                &&& has_id(cs, device_id@) && cs[k].source != SourceKind::Evdev ==> res.0 is Success
                    && (res.1 matches IpcAction::MotorSweep { index, reports } && index == k
                    && forall|m: int|
                    0 <= m < 4 ==> (#[trigger] reports[m])@ == motor_report(
                        m as u8,
                        intensities[m],
                    ))
            }),
    {
        match request {
            IpcRequest::GetStatus => (IpcResponse::Status { devices: self.status() }, IpcAction::Nothing),
            IpcRequest::ListProfiles => (
                IpcResponse::ProfileList { profiles: self.profile_names() },
                IpcAction::Nothing,
            ),
            IpcRequest::GetConfig { device_id } => match self.find(&device_id) {
                Some(i) => (
                    IpcResponse::Config { config: self.controllers[i].config.clone() },
                    IpcAction::Nothing,
                ),
                None => (not_found(&device_id), IpcAction::Nothing),
            },
            IpcRequest::SetConfig { device_id, config } => match self.find(&device_id) {
                Some(i) => {
                    self.set_config_at(i, config);
                    (IpcResponse::Success, IpcAction::Nothing)
                },
                None => (not_found(&device_id), IpcAction::Nothing),
            },
            IpcRequest::SetActiveProfile { device_id, profile_index } => match self.find(
                &device_id,
            ) {
                Some(i) => {
                    self.set_override_at(i, profile_index);
                    (IpcResponse::Success, IpcAction::Nothing)
                },
                None => (not_found(&device_id), IpcAction::Nothing),
            },
            IpcRequest::TestVibration { device_id, motor, intensity } => match self.find(
                &device_id,
            ) {
                Some(i) => {
                    if self.controllers[i].source == SourceKind::Evdev {
                        (
                            IpcResponse::Error {
                                message: String::from_str(
                                    "Rumble failed: Vibration test not supported over evdev (USB) yet",
                                ),
                            },
                            IpcAction::Nothing,
                        )
                    } else {
                        (
                            IpcResponse::Success,
                            IpcAction::MotorTest { index: i, report: motor_test_report(motor, intensity) },
                        )
                    }
                },
                None => (not_found(&device_id), IpcAction::Nothing),
            },
            IpcRequest::TestAllVibration { device_id, intensities } => match self.find(
                &device_id,
            ) {
                Some(i) => {
                    if self.controllers[i].source == SourceKind::Evdev {
                        (
                            IpcResponse::Error {
                                message: String::from_str("Not supported over evdev"),
                            },
                            IpcAction::Nothing,
                        )
                    } else {
                        let reports: [[u8; 9]; 4] = [
                            motor_test_report(0, intensities[0]),
                            motor_test_report(1, intensities[1]),
                            motor_test_report(2, intensities[2]),
                            motor_test_report(3, intensities[3]),
                        ];
                        proof {
                            assert forall|m: int| 0 <= m < 4 implies (#[trigger] reports[m])@
                                == motor_report(m as u8, intensities[m]) by {
                                if m == 0 {
                                } else if m == 1 {
                                } else if m == 2 {
                                } else {
                                }
                            }
                        }
                        (IpcResponse::Success, IpcAction::MotorSweep { index: i, reports })
                    }
                },
                None => (not_found(&device_id), IpcAction::Nothing),
            },
        }
    }

    fn set_config_at(&mut self, i: usize, config: DeviceConfig)
        requires
            old(self).wf(),
            i < old(self).controllers@.len(),
        ensures
            final(self).wf(),
            final(self).controllers@ == old(self).controllers@.update(
                i as int,
                with_config(old(self).controllers@[i as int], config),
            ),
    {
        let mut c = self.controllers.remove(i);
        c.config = config;
        self.controllers.insert(i, c);
        proof {
            assert(self.controllers@ =~= old(self).controllers@.update(
                i as int,
                with_config(old(self).controllers@[i as int], config),
            ));
        }
    }

    fn set_override_at(&mut self, i: usize, profile_index: Option<usize>)
        requires
            old(self).wf(),
            i < old(self).controllers@.len(),
        ensures
            final(self).wf(),
            final(self).controllers@ == old(self).controllers@.update(
                i as int,
                with_override(old(self).controllers@[i as int], profile_index),
            ),
    {
        let mut c = self.controllers.remove(i);
        c.config.active_override = profile_index;
        self.controllers.insert(i, c);
        proof {
            assert(self.controllers@ =~= old(self).controllers@.update(
                i as int,
                with_override(old(self).controllers@[i as int], profile_index),
            ));
        }
    }
}

/// The identifier prefix of a source kind.
pub open spec fn id_prefix(source: SourceKind) -> Seq<char> {
    match source {
        SourceKind::Hidraw => "hidraw:"@,
        SourceKind::Misc => "misc:"@,
        SourceKind::Evdev => "evdev:"@,
    }
}

/// The identifier of a controller: its source kind and device path.
pub fn device_id(source: SourceKind, path: &str) -> (res: String)
    ensures
        res@ == id_prefix(source) + path@,
{
    let mut id = match source {
        SourceKind::Hidraw => String::from_str("hidraw:"),
        SourceKind::Misc => String::from_str("misc:"),
        SourceKind::Evdev => String::from_str("evdev:"),
    };
    id.append(path);
    id
}

/// Whether to look for controllers again: none is attached and the last
/// scan is at least five seconds old.
pub fn should_rescan(attached: usize, elapsed_ms: u64) -> (res: bool)
    ensures
        res == (attached == 0 && elapsed_ms >= 5000),
{
    attached == 0 && elapsed_ms >= 5000
}

/// Whether a polled descriptor has data (`POLLIN`).
pub fn poll_readable(revents: i16) -> (res: bool)
    ensures
        res == (revents & 0x0001 != 0),
{
    revents & 0x0001 != 0
}

/// Whether a polled descriptor hung up or failed (`POLLHUP` or `POLLERR`).
pub fn poll_hung_up(revents: i16) -> (res: bool)
    ensures
        res == (revents & 0x0018 != 0),
{
    revents & 0x0018 != 0
}

/// A report that repeats the previous state emits no event, whatever the
/// configuration.
pub proof fn lemma_repeated_report_is_silent(config: DeviceConfig, s: GamepadState)
    ensures
        report_events(config, s, s) == Seq::<OutputEvent>::empty(),
{
    if s.hw_profile == 0 {
        let q = choose|q: Profile| is_identity_profile(q);
        lemma_unchanged_state_is_silent(s, q);
    } else {
        match pick_profile(config.profiles@.len() as int, s.hw_profile - 1) {
            Some(i) => lemma_unchanged_state_is_silent(s, config.profiles@[i]),
            None => {},
        }
    }
}

/// After a configuration is set for a device, the device is still found at
/// the same place, holds exactly that configuration, and identifiers stay
/// unique: a following `GetConfig` answers with it.
pub proof fn lemma_config_write_read(cs: Seq<Controller>, id: Seq<char>, config: DeviceConfig)
    requires
        ids_distinct(cs),
        has_id(cs, id),
    ensures
        ({
            let k = index_of(cs, id);
            let next = cs.update(k, with_config(cs[k], config));
            &&& ids_distinct(next)
            &&& has_id(next, id)
            &&& index_of(next, id) == k
            &&& next[index_of(next, id)].config == config
        }),
{
    let k = index_of(cs, id);
    let next = cs.update(k, with_config(cs[k], config));
    assert(next[k].device_id@ == id);
    let k2 = index_of(next, id);
    assert(0 <= k2 < next.len() && next[k2].device_id@ == id);
    if k2 != k {
        assert(next[k2] == cs[k2]);
        assert(cs[k2].device_id@ != cs[k].device_id@);
    }
    assert forall|i: int, j: int|
        0 <= i < next.len() && 0 <= j < next.len() && i != j implies (#[trigger] next[i]).device_id@
        != (#[trigger] next[j]).device_id@ by {
        assert(cs[i].device_id@ != cs[j].device_id@);
    }
}

/// An attached controller is found afterwards, under its identifier.
pub proof fn lemma_attach_then_found(cs: Seq<Controller>, ctrl: Controller)
    requires
        ids_distinct(cs),
    ensures
        has_id(cs, ctrl.device_id@) ==> ({
            let next = cs.update(index_of(cs, ctrl.device_id@), ctrl);
            has_id(next, ctrl.device_id@) && next[index_of(next, ctrl.device_id@)].device_id@
                == ctrl.device_id@
        }),
        !has_id(cs, ctrl.device_id@) ==> ({
            let next = cs.push(ctrl);
            has_id(next, ctrl.device_id@) && index_of(next, ctrl.device_id@) == cs.len()
        }),
{
    let id = ctrl.device_id@;
    if has_id(cs, id) {
        let k = index_of(cs, id);
        let next = cs.update(k, ctrl);
        assert(next[k].device_id@ == id);
    } else {
        let next = cs.push(ctrl);
        assert(next[cs.len() as int].device_id@ == id);
        let k2 = index_of(next, id);
        if k2 < cs.len() {
            assert(next[k2] == cs[k2]);
        }
    }
}

} // verus!
