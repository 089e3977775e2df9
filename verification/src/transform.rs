//! Input transformation engine.
//!
//! Takes a decoded gamepad state, compares it with the previous one and
//! emits an event for every button and axis that changed, after the active
//! profile's stick curves, trigger dead zones and remaps.

use vstd::prelude::*;

use crate::types::{
    spec_curve_eval, spec_zone_apply, GamepadState, InputId, Profile, RemapEntry, ABS_HAT0X,
    ABS_HAT0Y, ABS_RX, ABS_RY, ABS_RZ, ABS_X, ABS_Y, ABS_Z, BTN_A, BTN_B, BTN_GRIPL, BTN_GRIPL2,
    BTN_GRIPR, BTN_GRIPR2, BTN_MODE, BTN_SELECT, BTN_START, BTN_THUMBL, BTN_THUMBR, BTN_TL,
    BTN_TR, BTN_X, BTN_Y, EV_ABS, EV_KEY,
};

verus! {

/// An output event ready to be written to the virtual gamepad. When
/// `scale_bits` is set, the event comes from an axis remap whose scale
/// factor (a 32-bit float, by its bits) still has to be applied to `value`.
#[derive(Debug, Clone, Copy, PartialEq, Eq, Structural)]
pub struct OutputEvent {
    pub ev_type: u16,
    pub code: u16,
    pub value: i32,
    pub scale_bits: Option<u32>,
}

pub open spec fn key_id(code: u16) -> InputId {
    InputId { ev_type: EV_KEY, code }
}

pub open spec fn abs_id(code: u16) -> InputId {
    InputId { ev_type: EV_ABS, code }
}

/// The fifteen buttons of a state, in emission order.
pub open spec fn spec_buttons(s: GamepadState) -> Seq<(InputId, bool)> {
    seq![
        (key_id(BTN_A), s.btn_a),
        (key_id(BTN_B), s.btn_b),
        (key_id(BTN_X), s.btn_x),
        (key_id(BTN_Y), s.btn_y),
        (key_id(BTN_TL), s.btn_lb),
        (key_id(BTN_TR), s.btn_rb),
        (key_id(BTN_SELECT), s.btn_view),
        (key_id(BTN_START), s.btn_menu),
        (key_id(BTN_MODE), s.btn_xbox),
        (key_id(BTN_THUMBL), s.btn_lstick),
        (key_id(BTN_THUMBR), s.btn_rstick),
        (key_id(BTN_GRIPL), s.paddle_ul),
        (key_id(BTN_GRIPR), s.paddle_ur),
        (key_id(BTN_GRIPL2), s.paddle_ll),
        (key_id(BTN_GRIPR2), s.paddle_lr),
    ]
}

/// A stick value after the profile's curve for axis `i`, if any.
pub open spec fn spec_stick(p: Profile, i: int, raw: i16) -> i16 {
    match p.stick_curves[i] {
        Some(c) => spec_curve_eval(c.points@, raw),
        None => raw,
    }
}

/// A trigger value after the profile's dead zone for trigger `i`, if any.
pub open spec fn spec_trigger(p: Profile, i: int, raw: u16) -> u16 {
    match p.trigger_zones[i] {
        Some(z) => spec_zone_apply(z.dead_min, z.dead_max, raw),
        None => raw,
    }
}

/// D-pad as a hat value: -1 for the first direction alone, 1 for the second alone, else 0.
pub open spec fn hat(neg: bool, pos: bool) -> i32 {
    if neg && !pos {
        -1i32
    } else if !neg && pos {
        1i32
    } else {
        0i32
    }
}

/// The eight axes of a state after curves and dead zones, in emission order.
pub open spec fn spec_axes(s: GamepadState, p: Profile) -> Seq<(InputId, i32)> {
    seq![
        (abs_id(ABS_X), spec_stick(p, 0, s.left_stick_x) as i32),
        (abs_id(ABS_Y), spec_stick(p, 1, s.left_stick_y) as i32),
        (abs_id(ABS_RX), spec_stick(p, 2, s.right_stick_x) as i32),
        (abs_id(ABS_RY), spec_stick(p, 3, s.right_stick_y) as i32),
        (abs_id(ABS_Z), spec_trigger(p, 0, s.left_trigger) as i32),
        (abs_id(ABS_RZ), spec_trigger(p, 1, s.right_trigger) as i32),
        (abs_id(ABS_HAT0X), hat(s.dpad_left, s.dpad_right)),
        (abs_id(ABS_HAT0Y), hat(s.dpad_up, s.dpad_down)),
    ]
}

/// The first remap rule for `src`, if any.
pub open spec fn first_remap(remaps: Seq<RemapEntry>, src: InputId) -> Option<RemapEntry>
    decreases remaps.len(),
{
    if remaps.len() == 0 {
        None
    } else if remaps[0].src == src {
        Some(remaps[0])
    } else {
        first_remap(remaps.drop_first(), src)
    }
}

/// The event for a button change: routed by the first matching remap rule,
/// passed through otherwise.
pub open spec fn key_event(p: Profile, src: InputId, value: i32) -> OutputEvent {
    match first_remap(p.remaps@, src) {
        Some(r) => OutputEvent { ev_type: r.dst.ev_type, code: r.dst.code, value, scale_bits: None },
        None => OutputEvent { ev_type: src.ev_type, code: src.code, value, scale_bits: None },
    }
}

/// The event for an axis change: routed and marked for scaling by the first
/// matching remap rule, passed through otherwise.
pub open spec fn abs_event(p: Profile, src: InputId, value: i32) -> OutputEvent {
    match first_remap(p.remaps@, src) {
        Some(r) => OutputEvent {
            ev_type: r.dst.ev_type,
            code: r.dst.code,
            value,
            scale_bits: Some(r.scale_bits),
        },
        None => OutputEvent { ev_type: src.ev_type, code: src.code, value, scale_bits: None },
    }
}

/// The events for the first `n` buttons that changed.
pub open spec fn button_deltas(
    cur: Seq<(InputId, bool)>,
    prev: Seq<(InputId, bool)>,
    p: Profile,
    n: int,
) -> Seq<OutputEvent>
    decreases n,
{
    if n <= 0 {
        Seq::empty()
    } else {
        button_deltas(cur, prev, p, n - 1) + if cur[n - 1].1 != prev[n - 1].1 {
            seq![
                key_event(
                    p,
                    cur[n - 1].0,
                    if cur[n - 1].1 {
                        1i32
                    } else {
                        0i32
                    },
                ),
            ]
        } else {
            Seq::empty()
        }
    }
}

/// The events for the first `n` axes that changed.
pub open spec fn axis_deltas(
    cur: Seq<(InputId, i32)>,
    prev: Seq<(InputId, i32)>,
    p: Profile,
    n: int,
) -> Seq<OutputEvent>
    decreases n,
{
    if n <= 0 {
        Seq::empty()
    } else {
        axis_deltas(cur, prev, p, n - 1) + if cur[n - 1].1 != prev[n - 1].1 {
            seq![abs_event(p, cur[n - 1].0, cur[n - 1].1)]
        } else {
            Seq::empty()
        }
    }
}

/// The events `transform` emits: button changes first, then axis changes.
pub open spec fn spec_transform(cur: GamepadState, prev: GamepadState, p: Profile) -> Seq<
    OutputEvent,
> {
    button_deltas(spec_buttons(cur), spec_buttons(prev), p, 15) + axis_deltas(
        spec_axes(cur, p),
        spec_axes(prev, p),
        p,
        8,
    )
}

/// Each stick axis goes through its own curve (0 left X, 1 left Y, 2 right
/// X, 3 right Y) and each trigger through its own dead zone (0 left, 1
/// right), in the event order X, Y, RX, RY, Z, RZ; the hat axes follow,
/// each the second direction minus the first (right minus left, down minus
/// up).
pub proof fn lemma_axes_use_own_curves(s: GamepadState, p: Profile)
    ensures
        spec_axes(s, p)[0] == (abs_id(ABS_X), (match p.stick_curves[0] {
            Some(c) => spec_curve_eval(c.points@, s.left_stick_x),
            None => s.left_stick_x,
        }) as i32),
        spec_axes(s, p)[1] == (abs_id(ABS_Y), (match p.stick_curves[1] {
            Some(c) => spec_curve_eval(c.points@, s.left_stick_y),
            None => s.left_stick_y,
        }) as i32),
        spec_axes(s, p)[2] == (abs_id(ABS_RX), (match p.stick_curves[2] {
            Some(c) => spec_curve_eval(c.points@, s.right_stick_x),
            None => s.right_stick_x,
        }) as i32),
        spec_axes(s, p)[3] == (abs_id(ABS_RY), (match p.stick_curves[3] {
            Some(c) => spec_curve_eval(c.points@, s.right_stick_y),
            None => s.right_stick_y,
        }) as i32),
        spec_axes(s, p)[4] == (abs_id(ABS_Z), (match p.trigger_zones[0] {
            Some(z) => spec_zone_apply(z.dead_min, z.dead_max, s.left_trigger),
            None => s.left_trigger,
        }) as i32),
        spec_axes(s, p)[5] == (abs_id(ABS_RZ), (match p.trigger_zones[1] {
            Some(z) => spec_zone_apply(z.dead_min, z.dead_max, s.right_trigger),
            None => s.right_trigger,
        }) as i32),
        spec_axes(s, p).len() == 8,
        spec_axes(s, p)[6] == (abs_id(ABS_HAT0X), ((if s.dpad_right { 1int } else { 0int }) - (if s.dpad_left { 1int } else { 0int })) as i32),
        spec_axes(s, p)[7] == (abs_id(ABS_HAT0Y), ((if s.dpad_down { 1int } else { 0int }) - (if s.dpad_up { 1int } else { 0int })) as i32),
{
}

/// Gather all button states as (InputId, pressed) pairs.
pub fn gather_buttons(state: &GamepadState) -> (res: Vec<(InputId, bool)>)
    ensures
        res@ == spec_buttons(*state),
{
    let v = vec![
        (InputId::key(BTN_A), state.btn_a),
        (InputId::key(BTN_B), state.btn_b),
        (InputId::key(BTN_X), state.btn_x),
        (InputId::key(BTN_Y), state.btn_y),
        (InputId::key(BTN_TL), state.btn_lb),
        (InputId::key(BTN_TR), state.btn_rb),
        (InputId::key(BTN_SELECT), state.btn_view),
        (InputId::key(BTN_START), state.btn_menu),
        (InputId::key(BTN_MODE), state.btn_xbox),
        (InputId::key(BTN_THUMBL), state.btn_lstick),
        (InputId::key(BTN_THUMBR), state.btn_rstick),
        (InputId::key(BTN_GRIPL), state.paddle_ul),
        (InputId::key(BTN_GRIPR), state.paddle_ur),
        (InputId::key(BTN_GRIPL2), state.paddle_ll),
        (InputId::key(BTN_GRIPR2), state.paddle_lr),
    ];
    proof {
        assert(v@ =~= spec_buttons(*state));
    }
    v
}

/// Apply the stick curve of axis `axis_idx`, if the profile has one.
pub fn apply_stick_curve(profile: &Profile, axis_idx: usize, raw: i16) -> (res: i16)
    requires
        axis_idx < 4,
    ensures
        res == spec_stick(*profile, axis_idx as int, raw),
{
    match &profile.stick_curves[axis_idx] {
        Some(curve) => curve.evaluate(raw),
        None => raw,
    }
}

/// Apply the dead zone of trigger `trigger_idx`, if the profile has one.
pub fn apply_trigger_zone(profile: &Profile, trigger_idx: usize, raw: u16) -> (res: u16)
    requires
        trigger_idx < 2,
    ensures
        res == spec_trigger(*profile, trigger_idx as int, raw),
{
    match &profile.trigger_zones[trigger_idx] {
        Some(zone) => zone.apply(raw),
        None => raw,
    }
}

fn hat_value(neg: bool, pos: bool) -> (res: i32)
    ensures
        res == hat(neg, pos),
{
    if neg && !pos {
        -1
    } else if !neg && pos {
        1
    } else {
        0
    }
}

/// Gather all axis values, after stick curves and trigger dead zones.
pub fn gather_axes(state: &GamepadState, profile: &Profile) -> (res: Vec<(InputId, i32)>)
    ensures
        res@ == spec_axes(*state, *profile),
        res@[0] == (abs_id(ABS_X), (match profile.stick_curves[0] {
            Some(c) => spec_curve_eval(c.points@, state.left_stick_x),
            None => state.left_stick_x,
        }) as i32),
        res@[1] == (abs_id(ABS_Y), (match profile.stick_curves[1] {
            Some(c) => spec_curve_eval(c.points@, state.left_stick_y),
            None => state.left_stick_y,
        }) as i32),
        res@[2] == (abs_id(ABS_RX), (match profile.stick_curves[2] {
            Some(c) => spec_curve_eval(c.points@, state.right_stick_x),
            None => state.right_stick_x,
        }) as i32),
        res@[3] == (abs_id(ABS_RY), (match profile.stick_curves[3] {
            Some(c) => spec_curve_eval(c.points@, state.right_stick_y),
            None => state.right_stick_y,
        }) as i32),
        res@[4] == (abs_id(ABS_Z), (match profile.trigger_zones[0] {
            Some(z) => spec_zone_apply(z.dead_min, z.dead_max, state.left_trigger),
            None => state.left_trigger,
        }) as i32),
        res@[5] == (abs_id(ABS_RZ), (match profile.trigger_zones[1] {
            Some(z) => spec_zone_apply(z.dead_min, z.dead_max, state.right_trigger),
            None => state.right_trigger,
        }) as i32),
        res@.len() == 8,
        res@[6] == (abs_id(ABS_HAT0X), ((if state.dpad_right { 1int } else { 0int }) - (if state.dpad_left { 1int } else { 0int })) as i32),
        res@[7] == (abs_id(ABS_HAT0Y), ((if state.dpad_down { 1int } else { 0int }) - (if state.dpad_up { 1int } else { 0int })) as i32),
{
    proof {
        lemma_axes_use_own_curves(*state, *profile);
    }
    let lx = apply_stick_curve(profile, 0, state.left_stick_x);
    let ly = apply_stick_curve(profile, 1, state.left_stick_y);
    let rx = apply_stick_curve(profile, 2, state.right_stick_x);
    let ry = apply_stick_curve(profile, 3, state.right_stick_y);
    let lt = apply_trigger_zone(profile, 0, state.left_trigger);
    let rt = apply_trigger_zone(profile, 1, state.right_trigger);
    let hat_x = hat_value(state.dpad_left, state.dpad_right);
    let hat_y = hat_value(state.dpad_up, state.dpad_down);
    let v = vec![
        (InputId::abs(ABS_X), lx as i32),
        (InputId::abs(ABS_Y), ly as i32),
        (InputId::abs(ABS_RX), rx as i32),
        (InputId::abs(ABS_RY), ry as i32),
        (InputId::abs(ABS_Z), lt as i32),
        (InputId::abs(ABS_RZ), rt as i32),
        (InputId::abs(ABS_HAT0X), hat_x),
        (InputId::abs(ABS_HAT0Y), hat_y),
    ];
    proof {
        assert(v@ =~= spec_axes(*state, *profile));
    }
    v
}

/// The first remap rule of the profile for `src`.
fn find_remap(profile: &Profile, src: InputId) -> (res: Option<RemapEntry>)
    ensures
        res == first_remap(profile.remaps@, src),
{
    let mut i: usize = 0;
    proof {
        assert(profile.remaps@.subrange(0, profile.remaps@.len() as int) =~= profile.remaps@);
    }
    while i < profile.remaps.len()
        invariant
            i <= profile.remaps@.len(),
            first_remap(profile.remaps@, src) == first_remap(
                profile.remaps@.subrange(i as int, profile.remaps@.len() as int),
                src,
            ),
        decreases profile.remaps.len() - i,
    {
        let r = profile.remaps[i];
        proof {
            let rest = profile.remaps@.subrange(i as int, profile.remaps@.len() as int);
            assert(rest[0] == r);
            assert(rest.drop_first() =~= profile.remaps@.subrange(
                i + 1,
                profile.remaps@.len() as int,
            ));
        }
        if r.src == src {
            return Some(r);
        }
        i = i + 1;
    }
    proof {
        assert(profile.remaps@.subrange(i as int, profile.remaps@.len() as int).len() == 0);
    }
    None
}

/// Route a button change through the profile's remap table.
pub fn apply_remap_key(profile: &Profile, src: InputId, value: i32) -> (res: OutputEvent)
    ensures
        res == key_event(*profile, src, value),
{
    match find_remap(profile, src) {
        Some(r) => OutputEvent { ev_type: r.dst.ev_type, code: r.dst.code, value, scale_bits: None },
        None => OutputEvent { ev_type: src.ev_type, code: src.code, value, scale_bits: None },
    }
}

/// Route an axis change through the profile's remap table.
pub fn apply_remap_abs(profile: &Profile, src: InputId, value: i32) -> (res: OutputEvent)
    ensures
        res == abs_event(*profile, src, value),
{
    match find_remap(profile, src) {
        Some(r) => OutputEvent {
            ev_type: r.dst.ev_type,
            code: r.dst.code,
            value,
            scale_bits: Some(r.scale_bits),
        },
        None => OutputEvent { ev_type: src.ev_type, code: src.code, value, scale_bits: None },
    }
}

/// Transform a state through a profile: one event for every button and
/// axis whose value differs from the previous state.
pub fn transform(current: &GamepadState, previous: &GamepadState, profile: &Profile) -> (res: Vec<
    OutputEvent,
>)
    ensures
        res@ == spec_transform(*current, *previous, *profile),
{
    let mut events: Vec<OutputEvent> = Vec::new();
    let raw_buttons = gather_buttons(current);
    let prev_buttons = gather_buttons(previous);
    let raw_axes = gather_axes(current, profile);
    let prev_axes = gather_axes(previous, profile);
    let mut i: usize = 0;
    while i < 15
        invariant
            i <= 15,
            raw_buttons@.len() == 15,
            prev_buttons@.len() == 15,
            events@ == button_deltas(raw_buttons@, prev_buttons@, *profile, i as int),
        decreases 15 - i,
    {
        let (id, pressed) = raw_buttons[i];
        let (_, prev_pressed) = prev_buttons[i];
        if pressed != prev_pressed {
            let value: i32 = if pressed {
                1
            } else {
                0
            };
            events.push(apply_remap_key(profile, id, value));
        }
        proof {
            assert(events@ =~= button_deltas(raw_buttons@, prev_buttons@, *profile, i + 1));
        }
        i = i + 1;
    }
    let ghost after_buttons = events@;
    let mut k: usize = 0;
    while k < 8
        invariant
            k <= 8,
            raw_axes@.len() == 8,
            prev_axes@.len() == 8,
            after_buttons == button_deltas(raw_buttons@, prev_buttons@, *profile, 15),
            events@ == after_buttons + axis_deltas(raw_axes@, prev_axes@, *profile, k as int),
        decreases 8 - k,
    {
        let (id, value) = raw_axes[k];
        let (_, prev_value) = prev_axes[k];
        if value != prev_value {
            events.push(apply_remap_abs(profile, id, value));
        }
        proof {
            assert(events@ =~= after_buttons + axis_deltas(
                raw_axes@,
                prev_axes@,
                *profile,
                k + 1,
            ));
        }
        k = k + 1;
    }
    events
}

proof fn lemma_no_button_deltas(b: Seq<(InputId, bool)>, p: Profile, n: int)
    requires
        n <= b.len(),
    ensures
        button_deltas(b, b, p, n) == Seq::<OutputEvent>::empty(),
    decreases n,
{
    if n > 0 {
        lemma_no_button_deltas(b, p, n - 1);
        assert(button_deltas(b, b, p, n) =~= Seq::<OutputEvent>::empty());
    }
}

proof fn lemma_no_axis_deltas(a: Seq<(InputId, i32)>, p: Profile, n: int)
    requires
        n <= a.len(),
    ensures
        axis_deltas(a, a, p, n) == Seq::<OutputEvent>::empty(),
    decreases n,
{
    if n > 0 {
        lemma_no_axis_deltas(a, p, n - 1);
        assert(axis_deltas(a, a, p, n) =~= Seq::<OutputEvent>::empty());
    }
}

/// An unchanged state emits no event.
pub proof fn lemma_unchanged_state_is_silent(s: GamepadState, p: Profile)
    ensures
        spec_transform(s, s, p) == Seq::<OutputEvent>::empty(),
{
    lemma_no_button_deltas(spec_buttons(s), p, 15);
    lemma_no_axis_deltas(spec_axes(s, p), p, 8);
    assert(spec_transform(s, s, p) =~= Seq::<OutputEvent>::empty());
}

proof fn lemma_button_deltas_len(c: Seq<(InputId, bool)>, q: Seq<(InputId, bool)>, p: Profile, n: int)
    requires
        n >= 0,
    ensures
        button_deltas(c, q, p, n).len() <= n,
    decreases n,
{
    if n > 0 {
        lemma_button_deltas_len(c, q, p, n - 1);
    }
}

proof fn lemma_axis_deltas_len(c: Seq<(InputId, i32)>, q: Seq<(InputId, i32)>, p: Profile, n: int)
    requires
        n >= 0,
    ensures
        axis_deltas(c, q, p, n).len() <= n,
    decreases n,
{
    if n > 0 {
        lemma_axis_deltas_len(c, q, p, n - 1);
    }
}

/// A transformation emits at most one event per button and axis: 23.
pub proof fn lemma_transform_bounded(cur: GamepadState, prev: GamepadState, p: Profile)
    ensures
        spec_transform(cur, prev, p).len() <= 23,
{
    lemma_button_deltas_len(spec_buttons(cur), spec_buttons(prev), p, 15);
    lemma_axis_deltas_len(spec_axes(cur, p), spec_axes(prev, p), p, 8);
}

/// A profile without remap rules passes events through unchanged: each
/// event keeps its source identifier and needs no scaling.
pub proof fn lemma_no_remap_passthrough(p: Profile, src: InputId, value: i32)
    requires
        p.remaps@.len() == 0,
    ensures
        key_event(p, src, value) == (OutputEvent {
            ev_type: src.ev_type,
            code: src.code,
            value,
            scale_bits: None,
        }),
        abs_event(p, src, value) == (OutputEvent {
            ev_type: src.ev_type,
            code: src.code,
            value,
            scale_bits: None,
        }),
{
}

} // verus!
