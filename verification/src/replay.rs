//! Replaying output events as input: the events that the identity profile
//! emits for a state change carry the whole change.

use vstd::prelude::*;

use crate::hid::spec_evdev_event;
use crate::transform::{
    abs_id, axis_deltas, button_deltas, hat, key_id, spec_axes, spec_buttons, spec_transform,
    OutputEvent,
};
use crate::types::{
    is_identity_profile, GamepadState, Profile, ABS_HAT0X, ABS_HAT0Y, ABS_RX, ABS_RY, ABS_RZ, ABS_X,
    ABS_Y, ABS_Z, BTN_A, BTN_B, BTN_GRIPL, BTN_GRIPL2, BTN_GRIPR, BTN_GRIPR2, BTN_MODE, BTN_SELECT,
    BTN_START, BTN_THUMBL, BTN_THUMBR, BTN_TL, BTN_TR, BTN_X, BTN_Y, EV_ABS, EV_KEY,
};

verus! {

/// The state after applying events in order, each as an evdev event.
#[verifier::opaque]
pub open spec fn apply_events(s: GamepadState, evs: Seq<OutputEvent>) -> GamepadState
    decreases evs.len(),
{
    if evs.len() == 0 {
        s
    } else {
        let e = evs.last();
        spec_evdev_event(apply_events(s, evs.drop_last()), e.ev_type, e.code, e.value)
    }
}

/// Whether the d-pad does not hold two opposite directions at once.
pub open spec fn dpad_consistent(s: GamepadState) -> bool {
    !(s.dpad_left && s.dpad_right) && !(s.dpad_up && s.dpad_down)
}

/// The state whose first `k` items (the fifteen buttons, then the six axes
/// and the two hat axes, in emission order) come from `cur` and the rest
/// from `prev`, with the hardware profile of `prev`.
#[verifier::opaque]
spec fn partial(cur: GamepadState, prev: GamepadState, k: int) -> GamepadState {
    GamepadState {
        btn_a: if k > 0 { cur.btn_a } else { prev.btn_a },
        btn_b: if k > 1 { cur.btn_b } else { prev.btn_b },
        btn_x: if k > 2 { cur.btn_x } else { prev.btn_x },
        btn_y: if k > 3 { cur.btn_y } else { prev.btn_y },
        btn_lb: if k > 4 { cur.btn_lb } else { prev.btn_lb },
        btn_rb: if k > 5 { cur.btn_rb } else { prev.btn_rb },
        btn_view: if k > 6 { cur.btn_view } else { prev.btn_view },
        btn_menu: if k > 7 { cur.btn_menu } else { prev.btn_menu },
        btn_xbox: if k > 8 { cur.btn_xbox } else { prev.btn_xbox },
        btn_lstick: if k > 9 { cur.btn_lstick } else { prev.btn_lstick },
        btn_rstick: if k > 10 { cur.btn_rstick } else { prev.btn_rstick },
        paddle_ul: if k > 11 { cur.paddle_ul } else { prev.paddle_ul },
        paddle_ur: if k > 12 { cur.paddle_ur } else { prev.paddle_ur },
        paddle_ll: if k > 13 { cur.paddle_ll } else { prev.paddle_ll },
        paddle_lr: if k > 14 { cur.paddle_lr } else { prev.paddle_lr },
        left_stick_x: if k > 15 { cur.left_stick_x } else { prev.left_stick_x },
        left_stick_y: if k > 16 { cur.left_stick_y } else { prev.left_stick_y },
        right_stick_x: if k > 17 { cur.right_stick_x } else { prev.right_stick_x },
        right_stick_y: if k > 18 { cur.right_stick_y } else { prev.right_stick_y },
        left_trigger: if k > 19 { cur.left_trigger } else { prev.left_trigger },
        right_trigger: if k > 20 { cur.right_trigger } else { prev.right_trigger },
        dpad_left: if k > 21 { cur.dpad_left } else { prev.dpad_left },
        dpad_right: if k > 21 { cur.dpad_right } else { prev.dpad_right },
        dpad_up: if k > 22 { cur.dpad_up } else { prev.dpad_up },
        dpad_down: if k > 22 { cur.dpad_down } else { prev.dpad_down },
        hw_profile: prev.hw_profile,
    }
}

/// The events for the first `k` buttons that changed.
spec fn bd(cur: GamepadState, prev: GamepadState, p: Profile, k: int) -> Seq<OutputEvent> {
    button_deltas(spec_buttons(cur), spec_buttons(prev), p, k)
}

/// The events for all buttons and the first `j` axes that changed.
spec fn ad(cur: GamepadState, prev: GamepadState, p: Profile, j: int) -> Seq<OutputEvent> {
    bd(cur, prev, p, 15) + axis_deltas(spec_axes(cur, p), spec_axes(prev, p), p, j)
}

proof fn lemma_apply_push(s: GamepadState, evs: Seq<OutputEvent>, e: OutputEvent)
    ensures
        apply_events(s, evs.push(e)) == spec_evdev_event(apply_events(s, evs), e.ev_type, e.code, e.value),
{
    reveal(apply_events);
    assert(evs.push(e).drop_last() =~= evs);
}

proof fn lemma_replay_step(
    prev: GamepadState,
    evs0: Seq<OutputEvent>,
    evs1: Seq<OutputEvent>,
    s0: GamepadState,
    s1: GamepadState,
    e: OutputEvent,
    changed: bool,
)
    requires
        apply_events(prev, evs0) == s0,
        changed ==> evs1 == evs0.push(e) && spec_evdev_event(s0, e.ev_type, e.code, e.value) == s1,
        !changed ==> evs1 == evs0 && s0 == s1,
    ensures
        apply_events(prev, evs1) == s1,
{
    if changed {
        lemma_apply_push(prev, evs0, e);
    }
}

proof fn lemma_button_events_0(cur: GamepadState, prev: GamepadState, p: Profile)
    requires
        p.remaps@.len() == 0,
    ensures
        cur.btn_a != prev.btn_a ==> bd(cur, prev, p, 1) == bd(cur, prev, p, 0).push(OutputEvent { ev_type: EV_KEY, code: BTN_A, value: if cur.btn_a { 1i32 } else { 0i32 }, scale_bits: None }),
        cur.btn_a == prev.btn_a ==> bd(cur, prev, p, 1) == bd(cur, prev, p, 0),
{
    assert(spec_buttons(cur)[0] == (key_id(BTN_A), cur.btn_a));
    assert(spec_buttons(prev)[0] == (key_id(BTN_A), prev.btn_a));
    if cur.btn_a != prev.btn_a {
        assert(bd(cur, prev, p, 1) =~= bd(cur, prev, p, 0).push(OutputEvent { ev_type: EV_KEY, code: BTN_A, value: if cur.btn_a { 1i32 } else { 0i32 }, scale_bits: None }));
    } else {
        assert(bd(cur, prev, p, 1) =~= bd(cur, prev, p, 0));
    }
}

#[verifier::spinoff_prover]
#[verifier::rlimit(100)]
proof fn lemma_first_button_item(cur: GamepadState, prev: GamepadState)
    ensures
        partial(cur, prev, 1) == (GamepadState { btn_a: cur.btn_a, ..partial(cur, prev, 0) }),
        partial(cur, prev, 0).btn_a == prev.btn_a,
{
    reveal(partial);
    let s0 = partial(cur, prev, 0);
    let s1 = partial(cur, prev, 1);
    assert(s0.btn_a == prev.btn_a);
    assert(s1 == (GamepadState { btn_a: cur.btn_a, ..s0 }));
}

proof fn lemma_first_button_event(s: GamepadState, b: bool)
    ensures
        spec_evdev_event(s, EV_KEY, BTN_A, if b { 1i32 } else { 0i32 }) == (GamepadState { btn_a: b, ..s }),
{
}

proof fn lemma_button_state_0(cur: GamepadState, prev: GamepadState)
    ensures
        cur.btn_a != prev.btn_a ==> spec_evdev_event(partial(cur, prev, 0), EV_KEY, BTN_A, if cur.btn_a { 1i32 } else { 0i32 }) == partial(cur, prev, 1),
        cur.btn_a == prev.btn_a ==> partial(cur, prev, 0) == partial(cur, prev, 1),
{
    lemma_first_button_item(cur, prev);
    lemma_first_button_event(partial(cur, prev, 0), cur.btn_a);
}

proof fn lemma_button_step_0(cur: GamepadState, prev: GamepadState, p: Profile)
    requires
        p.remaps@.len() == 0,
        apply_events(prev, bd(cur, prev, p, 0)) == partial(cur, prev, 0),
    ensures
        apply_events(prev, bd(cur, prev, p, 1)) == partial(cur, prev, 1),
{
    lemma_button_events_0(cur, prev, p);
    lemma_button_state_0(cur, prev);
    lemma_replay_step(
        prev,
        bd(cur, prev, p, 0),
        bd(cur, prev, p, 1),
        partial(cur, prev, 0),
        partial(cur, prev, 1),
        OutputEvent { ev_type: EV_KEY, code: BTN_A, value: if cur.btn_a { 1i32 } else { 0i32 }, scale_bits: None },
        cur.btn_a != prev.btn_a,
    );
}

proof fn lemma_button_events_1(cur: GamepadState, prev: GamepadState, p: Profile)
    requires
        p.remaps@.len() == 0,
    ensures
        cur.btn_b != prev.btn_b ==> bd(cur, prev, p, 2) == bd(cur, prev, p, 1).push(OutputEvent { ev_type: EV_KEY, code: BTN_B, value: if cur.btn_b { 1i32 } else { 0i32 }, scale_bits: None }),
        cur.btn_b == prev.btn_b ==> bd(cur, prev, p, 2) == bd(cur, prev, p, 1),
{
    assert(spec_buttons(cur)[1] == (key_id(BTN_B), cur.btn_b));
    assert(spec_buttons(prev)[1] == (key_id(BTN_B), prev.btn_b));
    if cur.btn_b != prev.btn_b {
        assert(bd(cur, prev, p, 2) =~= bd(cur, prev, p, 1).push(OutputEvent { ev_type: EV_KEY, code: BTN_B, value: if cur.btn_b { 1i32 } else { 0i32 }, scale_bits: None }));
    } else {
        assert(bd(cur, prev, p, 2) =~= bd(cur, prev, p, 1));
    }
}

#[verifier::spinoff_prover]
#[verifier::rlimit(50)]
proof fn lemma_button_state_1(cur: GamepadState, prev: GamepadState)
    ensures
        cur.btn_b != prev.btn_b ==> spec_evdev_event(partial(cur, prev, 1), EV_KEY, BTN_B, if cur.btn_b { 1i32 } else { 0i32 }) == partial(cur, prev, 2),
        cur.btn_b == prev.btn_b ==> partial(cur, prev, 1) == partial(cur, prev, 2),
{
    reveal(partial);
}

proof fn lemma_button_step_1(cur: GamepadState, prev: GamepadState, p: Profile)
    requires
        p.remaps@.len() == 0,
        apply_events(prev, bd(cur, prev, p, 1)) == partial(cur, prev, 1),
    ensures
        apply_events(prev, bd(cur, prev, p, 2)) == partial(cur, prev, 2),
{
    lemma_button_events_1(cur, prev, p);
    lemma_button_state_1(cur, prev);
    lemma_replay_step(
        prev,
        bd(cur, prev, p, 1),
        bd(cur, prev, p, 2),
        partial(cur, prev, 1),
        partial(cur, prev, 2),
        OutputEvent { ev_type: EV_KEY, code: BTN_B, value: if cur.btn_b { 1i32 } else { 0i32 }, scale_bits: None },
        cur.btn_b != prev.btn_b,
    );
}

proof fn lemma_button_events_2(cur: GamepadState, prev: GamepadState, p: Profile)
    requires
        p.remaps@.len() == 0,
    ensures
        cur.btn_x != prev.btn_x ==> bd(cur, prev, p, 3) == bd(cur, prev, p, 2).push(OutputEvent { ev_type: EV_KEY, code: BTN_X, value: if cur.btn_x { 1i32 } else { 0i32 }, scale_bits: None }),
        cur.btn_x == prev.btn_x ==> bd(cur, prev, p, 3) == bd(cur, prev, p, 2),
{
    assert(spec_buttons(cur)[2] == (key_id(BTN_X), cur.btn_x));
    assert(spec_buttons(prev)[2] == (key_id(BTN_X), prev.btn_x));
    if cur.btn_x != prev.btn_x {
        assert(bd(cur, prev, p, 3) =~= bd(cur, prev, p, 2).push(OutputEvent { ev_type: EV_KEY, code: BTN_X, value: if cur.btn_x { 1i32 } else { 0i32 }, scale_bits: None }));
    } else {
        assert(bd(cur, prev, p, 3) =~= bd(cur, prev, p, 2));
    }
}

#[verifier::spinoff_prover]
#[verifier::rlimit(50)]
proof fn lemma_button_state_2(cur: GamepadState, prev: GamepadState)
    ensures
        cur.btn_x != prev.btn_x ==> spec_evdev_event(partial(cur, prev, 2), EV_KEY, BTN_X, if cur.btn_x { 1i32 } else { 0i32 }) == partial(cur, prev, 3),
        cur.btn_x == prev.btn_x ==> partial(cur, prev, 2) == partial(cur, prev, 3),
{
    reveal(partial);
}

proof fn lemma_button_step_2(cur: GamepadState, prev: GamepadState, p: Profile)
    requires
        p.remaps@.len() == 0,
        apply_events(prev, bd(cur, prev, p, 2)) == partial(cur, prev, 2),
    ensures
        apply_events(prev, bd(cur, prev, p, 3)) == partial(cur, prev, 3),
{
    lemma_button_events_2(cur, prev, p);
    lemma_button_state_2(cur, prev);
    lemma_replay_step(
        prev,
        bd(cur, prev, p, 2),
        bd(cur, prev, p, 3),
        partial(cur, prev, 2),
        partial(cur, prev, 3),
        OutputEvent { ev_type: EV_KEY, code: BTN_X, value: if cur.btn_x { 1i32 } else { 0i32 }, scale_bits: None },
        cur.btn_x != prev.btn_x,
    );
}

proof fn lemma_button_events_3(cur: GamepadState, prev: GamepadState, p: Profile)
    requires
        p.remaps@.len() == 0,
    ensures
        cur.btn_y != prev.btn_y ==> bd(cur, prev, p, 4) == bd(cur, prev, p, 3).push(OutputEvent { ev_type: EV_KEY, code: BTN_Y, value: if cur.btn_y { 1i32 } else { 0i32 }, scale_bits: None }),
        cur.btn_y == prev.btn_y ==> bd(cur, prev, p, 4) == bd(cur, prev, p, 3),
{
    assert(spec_buttons(cur)[3] == (key_id(BTN_Y), cur.btn_y));
    assert(spec_buttons(prev)[3] == (key_id(BTN_Y), prev.btn_y));
    if cur.btn_y != prev.btn_y {
        assert(bd(cur, prev, p, 4) =~= bd(cur, prev, p, 3).push(OutputEvent { ev_type: EV_KEY, code: BTN_Y, value: if cur.btn_y { 1i32 } else { 0i32 }, scale_bits: None }));
    } else {
        assert(bd(cur, prev, p, 4) =~= bd(cur, prev, p, 3));
    }
}

#[verifier::spinoff_prover]
#[verifier::rlimit(50)]
proof fn lemma_button_state_3(cur: GamepadState, prev: GamepadState)
    ensures
        cur.btn_y != prev.btn_y ==> spec_evdev_event(partial(cur, prev, 3), EV_KEY, BTN_Y, if cur.btn_y { 1i32 } else { 0i32 }) == partial(cur, prev, 4),
        cur.btn_y == prev.btn_y ==> partial(cur, prev, 3) == partial(cur, prev, 4),
{
    reveal(partial);
}

proof fn lemma_button_step_3(cur: GamepadState, prev: GamepadState, p: Profile)
    requires
        p.remaps@.len() == 0,
        apply_events(prev, bd(cur, prev, p, 3)) == partial(cur, prev, 3),
    ensures
        apply_events(prev, bd(cur, prev, p, 4)) == partial(cur, prev, 4),
{
    lemma_button_events_3(cur, prev, p);
    lemma_button_state_3(cur, prev);
    lemma_replay_step(
        prev,
        bd(cur, prev, p, 3),
        bd(cur, prev, p, 4),
        partial(cur, prev, 3),
        partial(cur, prev, 4),
        OutputEvent { ev_type: EV_KEY, code: BTN_Y, value: if cur.btn_y { 1i32 } else { 0i32 }, scale_bits: None },
        cur.btn_y != prev.btn_y,
    );
}

proof fn lemma_button_events_4(cur: GamepadState, prev: GamepadState, p: Profile)
    requires
        p.remaps@.len() == 0,
    ensures
        cur.btn_lb != prev.btn_lb ==> bd(cur, prev, p, 5) == bd(cur, prev, p, 4).push(OutputEvent { ev_type: EV_KEY, code: BTN_TL, value: if cur.btn_lb { 1i32 } else { 0i32 }, scale_bits: None }),
        cur.btn_lb == prev.btn_lb ==> bd(cur, prev, p, 5) == bd(cur, prev, p, 4),
{
    assert(spec_buttons(cur)[4] == (key_id(BTN_TL), cur.btn_lb));
    assert(spec_buttons(prev)[4] == (key_id(BTN_TL), prev.btn_lb));
    if cur.btn_lb != prev.btn_lb {
        assert(bd(cur, prev, p, 5) =~= bd(cur, prev, p, 4).push(OutputEvent { ev_type: EV_KEY, code: BTN_TL, value: if cur.btn_lb { 1i32 } else { 0i32 }, scale_bits: None }));
    } else {
        assert(bd(cur, prev, p, 5) =~= bd(cur, prev, p, 4));
    }
}

#[verifier::spinoff_prover]
#[verifier::rlimit(50)]
proof fn lemma_button_state_4(cur: GamepadState, prev: GamepadState)
    ensures
        cur.btn_lb != prev.btn_lb ==> spec_evdev_event(partial(cur, prev, 4), EV_KEY, BTN_TL, if cur.btn_lb { 1i32 } else { 0i32 }) == partial(cur, prev, 5),
        cur.btn_lb == prev.btn_lb ==> partial(cur, prev, 4) == partial(cur, prev, 5),
{
    reveal(partial);
}

proof fn lemma_button_step_4(cur: GamepadState, prev: GamepadState, p: Profile)
    requires
        p.remaps@.len() == 0,
        apply_events(prev, bd(cur, prev, p, 4)) == partial(cur, prev, 4),
    ensures
        apply_events(prev, bd(cur, prev, p, 5)) == partial(cur, prev, 5),
{
    lemma_button_events_4(cur, prev, p);
    lemma_button_state_4(cur, prev);
    lemma_replay_step(
        prev,
        bd(cur, prev, p, 4),
        bd(cur, prev, p, 5),
        partial(cur, prev, 4),
        partial(cur, prev, 5),
        OutputEvent { ev_type: EV_KEY, code: BTN_TL, value: if cur.btn_lb { 1i32 } else { 0i32 }, scale_bits: None },
        cur.btn_lb != prev.btn_lb,
    );
}

proof fn lemma_button_events_5(cur: GamepadState, prev: GamepadState, p: Profile)
    requires
        p.remaps@.len() == 0,
    ensures
        cur.btn_rb != prev.btn_rb ==> bd(cur, prev, p, 6) == bd(cur, prev, p, 5).push(OutputEvent { ev_type: EV_KEY, code: BTN_TR, value: if cur.btn_rb { 1i32 } else { 0i32 }, scale_bits: None }),
        cur.btn_rb == prev.btn_rb ==> bd(cur, prev, p, 6) == bd(cur, prev, p, 5),
{
    assert(spec_buttons(cur)[5] == (key_id(BTN_TR), cur.btn_rb));
    assert(spec_buttons(prev)[5] == (key_id(BTN_TR), prev.btn_rb));
    if cur.btn_rb != prev.btn_rb {
        assert(bd(cur, prev, p, 6) =~= bd(cur, prev, p, 5).push(OutputEvent { ev_type: EV_KEY, code: BTN_TR, value: if cur.btn_rb { 1i32 } else { 0i32 }, scale_bits: None }));
    } else {
        assert(bd(cur, prev, p, 6) =~= bd(cur, prev, p, 5));
    }
}

#[verifier::spinoff_prover]
#[verifier::rlimit(50)]
proof fn lemma_button_state_5(cur: GamepadState, prev: GamepadState)
    ensures
        cur.btn_rb != prev.btn_rb ==> spec_evdev_event(partial(cur, prev, 5), EV_KEY, BTN_TR, if cur.btn_rb { 1i32 } else { 0i32 }) == partial(cur, prev, 6),
        cur.btn_rb == prev.btn_rb ==> partial(cur, prev, 5) == partial(cur, prev, 6),
{
    reveal(partial);
}

proof fn lemma_button_step_5(cur: GamepadState, prev: GamepadState, p: Profile)
    requires
        p.remaps@.len() == 0,
        apply_events(prev, bd(cur, prev, p, 5)) == partial(cur, prev, 5),
    ensures
        apply_events(prev, bd(cur, prev, p, 6)) == partial(cur, prev, 6),
{
    lemma_button_events_5(cur, prev, p);
    lemma_button_state_5(cur, prev);
    lemma_replay_step(
        prev,
        bd(cur, prev, p, 5),
        bd(cur, prev, p, 6),
        partial(cur, prev, 5),
        partial(cur, prev, 6),
        OutputEvent { ev_type: EV_KEY, code: BTN_TR, value: if cur.btn_rb { 1i32 } else { 0i32 }, scale_bits: None },
        cur.btn_rb != prev.btn_rb,
    );
}

proof fn lemma_button_events_6(cur: GamepadState, prev: GamepadState, p: Profile)
    requires
        p.remaps@.len() == 0,
    ensures
        cur.btn_view != prev.btn_view ==> bd(cur, prev, p, 7) == bd(cur, prev, p, 6).push(OutputEvent { ev_type: EV_KEY, code: BTN_SELECT, value: if cur.btn_view { 1i32 } else { 0i32 }, scale_bits: None }),
        cur.btn_view == prev.btn_view ==> bd(cur, prev, p, 7) == bd(cur, prev, p, 6),
{
    assert(spec_buttons(cur)[6] == (key_id(BTN_SELECT), cur.btn_view));
    assert(spec_buttons(prev)[6] == (key_id(BTN_SELECT), prev.btn_view));
    if cur.btn_view != prev.btn_view {
        assert(bd(cur, prev, p, 7) =~= bd(cur, prev, p, 6).push(OutputEvent { ev_type: EV_KEY, code: BTN_SELECT, value: if cur.btn_view { 1i32 } else { 0i32 }, scale_bits: None }));
    } else {
        assert(bd(cur, prev, p, 7) =~= bd(cur, prev, p, 6));
    }
}

#[verifier::spinoff_prover]
#[verifier::rlimit(50)]
proof fn lemma_button_state_6(cur: GamepadState, prev: GamepadState)
    ensures
        cur.btn_view != prev.btn_view ==> spec_evdev_event(partial(cur, prev, 6), EV_KEY, BTN_SELECT, if cur.btn_view { 1i32 } else { 0i32 }) == partial(cur, prev, 7),
        cur.btn_view == prev.btn_view ==> partial(cur, prev, 6) == partial(cur, prev, 7),
{
    reveal(partial);
}

proof fn lemma_button_step_6(cur: GamepadState, prev: GamepadState, p: Profile)
    requires
        p.remaps@.len() == 0,
        apply_events(prev, bd(cur, prev, p, 6)) == partial(cur, prev, 6),
    ensures
        apply_events(prev, bd(cur, prev, p, 7)) == partial(cur, prev, 7),
{
    lemma_button_events_6(cur, prev, p);
    lemma_button_state_6(cur, prev);
    lemma_replay_step(
        prev,
        bd(cur, prev, p, 6),
        bd(cur, prev, p, 7),
        partial(cur, prev, 6),
        partial(cur, prev, 7),
        OutputEvent { ev_type: EV_KEY, code: BTN_SELECT, value: if cur.btn_view { 1i32 } else { 0i32 }, scale_bits: None },
        cur.btn_view != prev.btn_view,
    );
}

proof fn lemma_button_events_7(cur: GamepadState, prev: GamepadState, p: Profile)
    requires
        p.remaps@.len() == 0,
    ensures
        cur.btn_menu != prev.btn_menu ==> bd(cur, prev, p, 8) == bd(cur, prev, p, 7).push(OutputEvent { ev_type: EV_KEY, code: BTN_START, value: if cur.btn_menu { 1i32 } else { 0i32 }, scale_bits: None }),
        cur.btn_menu == prev.btn_menu ==> bd(cur, prev, p, 8) == bd(cur, prev, p, 7),
{
    assert(spec_buttons(cur)[7] == (key_id(BTN_START), cur.btn_menu));
    assert(spec_buttons(prev)[7] == (key_id(BTN_START), prev.btn_menu));
    if cur.btn_menu != prev.btn_menu {
        assert(bd(cur, prev, p, 8) =~= bd(cur, prev, p, 7).push(OutputEvent { ev_type: EV_KEY, code: BTN_START, value: if cur.btn_menu { 1i32 } else { 0i32 }, scale_bits: None }));
    } else {
        assert(bd(cur, prev, p, 8) =~= bd(cur, prev, p, 7));
    }
}

#[verifier::spinoff_prover]
#[verifier::rlimit(50)]
proof fn lemma_button_state_7(cur: GamepadState, prev: GamepadState)
    ensures
        cur.btn_menu != prev.btn_menu ==> spec_evdev_event(partial(cur, prev, 7), EV_KEY, BTN_START, if cur.btn_menu { 1i32 } else { 0i32 }) == partial(cur, prev, 8),
        cur.btn_menu == prev.btn_menu ==> partial(cur, prev, 7) == partial(cur, prev, 8),
{
    reveal(partial);
}

proof fn lemma_button_step_7(cur: GamepadState, prev: GamepadState, p: Profile)
    requires
        p.remaps@.len() == 0,
        apply_events(prev, bd(cur, prev, p, 7)) == partial(cur, prev, 7),
    ensures
        apply_events(prev, bd(cur, prev, p, 8)) == partial(cur, prev, 8),
{
    lemma_button_events_7(cur, prev, p);
    lemma_button_state_7(cur, prev);
    lemma_replay_step(
        prev,
        bd(cur, prev, p, 7),
        bd(cur, prev, p, 8),
        partial(cur, prev, 7),
        partial(cur, prev, 8),
        OutputEvent { ev_type: EV_KEY, code: BTN_START, value: if cur.btn_menu { 1i32 } else { 0i32 }, scale_bits: None },
        cur.btn_menu != prev.btn_menu,
    );
}

proof fn lemma_button_events_8(cur: GamepadState, prev: GamepadState, p: Profile)
    requires
        p.remaps@.len() == 0,
    ensures
        cur.btn_xbox != prev.btn_xbox ==> bd(cur, prev, p, 9) == bd(cur, prev, p, 8).push(OutputEvent { ev_type: EV_KEY, code: BTN_MODE, value: if cur.btn_xbox { 1i32 } else { 0i32 }, scale_bits: None }),
        cur.btn_xbox == prev.btn_xbox ==> bd(cur, prev, p, 9) == bd(cur, prev, p, 8),
{
    assert(spec_buttons(cur)[8] == (key_id(BTN_MODE), cur.btn_xbox));
    assert(spec_buttons(prev)[8] == (key_id(BTN_MODE), prev.btn_xbox));
    if cur.btn_xbox != prev.btn_xbox {
        assert(bd(cur, prev, p, 9) =~= bd(cur, prev, p, 8).push(OutputEvent { ev_type: EV_KEY, code: BTN_MODE, value: if cur.btn_xbox { 1i32 } else { 0i32 }, scale_bits: None }));
    } else {
        assert(bd(cur, prev, p, 9) =~= bd(cur, prev, p, 8));
    }
}

#[verifier::spinoff_prover]
#[verifier::rlimit(50)]
proof fn lemma_button_state_8(cur: GamepadState, prev: GamepadState)
    ensures
        cur.btn_xbox != prev.btn_xbox ==> spec_evdev_event(partial(cur, prev, 8), EV_KEY, BTN_MODE, if cur.btn_xbox { 1i32 } else { 0i32 }) == partial(cur, prev, 9),
        cur.btn_xbox == prev.btn_xbox ==> partial(cur, prev, 8) == partial(cur, prev, 9),
{
    reveal(partial);
}

proof fn lemma_button_step_8(cur: GamepadState, prev: GamepadState, p: Profile)
    requires
        p.remaps@.len() == 0,
        apply_events(prev, bd(cur, prev, p, 8)) == partial(cur, prev, 8),
    ensures
        apply_events(prev, bd(cur, prev, p, 9)) == partial(cur, prev, 9),
{
    lemma_button_events_8(cur, prev, p);
    lemma_button_state_8(cur, prev);
    lemma_replay_step(
        prev,
        bd(cur, prev, p, 8),
        bd(cur, prev, p, 9),
        partial(cur, prev, 8),
        partial(cur, prev, 9),
        OutputEvent { ev_type: EV_KEY, code: BTN_MODE, value: if cur.btn_xbox { 1i32 } else { 0i32 }, scale_bits: None },
        cur.btn_xbox != prev.btn_xbox,
    );
}

proof fn lemma_button_events_9(cur: GamepadState, prev: GamepadState, p: Profile)
    requires
        p.remaps@.len() == 0,
    ensures
        cur.btn_lstick != prev.btn_lstick ==> bd(cur, prev, p, 10) == bd(cur, prev, p, 9).push(OutputEvent { ev_type: EV_KEY, code: BTN_THUMBL, value: if cur.btn_lstick { 1i32 } else { 0i32 }, scale_bits: None }),
        cur.btn_lstick == prev.btn_lstick ==> bd(cur, prev, p, 10) == bd(cur, prev, p, 9),
{
    assert(spec_buttons(cur)[9] == (key_id(BTN_THUMBL), cur.btn_lstick));
    assert(spec_buttons(prev)[9] == (key_id(BTN_THUMBL), prev.btn_lstick));
    if cur.btn_lstick != prev.btn_lstick {
        assert(bd(cur, prev, p, 10) =~= bd(cur, prev, p, 9).push(OutputEvent { ev_type: EV_KEY, code: BTN_THUMBL, value: if cur.btn_lstick { 1i32 } else { 0i32 }, scale_bits: None }));
    } else {
        assert(bd(cur, prev, p, 10) =~= bd(cur, prev, p, 9));
    }
}

#[verifier::spinoff_prover]
#[verifier::rlimit(50)]
proof fn lemma_button_state_9(cur: GamepadState, prev: GamepadState)
    ensures
        cur.btn_lstick != prev.btn_lstick ==> spec_evdev_event(partial(cur, prev, 9), EV_KEY, BTN_THUMBL, if cur.btn_lstick { 1i32 } else { 0i32 }) == partial(cur, prev, 10),
        cur.btn_lstick == prev.btn_lstick ==> partial(cur, prev, 9) == partial(cur, prev, 10),
{
    reveal(partial);
}

proof fn lemma_button_step_9(cur: GamepadState, prev: GamepadState, p: Profile)
    requires
        p.remaps@.len() == 0,
        apply_events(prev, bd(cur, prev, p, 9)) == partial(cur, prev, 9),
    ensures
        apply_events(prev, bd(cur, prev, p, 10)) == partial(cur, prev, 10),
{
    lemma_button_events_9(cur, prev, p);
    lemma_button_state_9(cur, prev);
    lemma_replay_step(
        prev,
        bd(cur, prev, p, 9),
        bd(cur, prev, p, 10),
        partial(cur, prev, 9),
        partial(cur, prev, 10),
        OutputEvent { ev_type: EV_KEY, code: BTN_THUMBL, value: if cur.btn_lstick { 1i32 } else { 0i32 }, scale_bits: None },
        cur.btn_lstick != prev.btn_lstick,
    );
}

proof fn lemma_button_events_10(cur: GamepadState, prev: GamepadState, p: Profile)
    requires
        p.remaps@.len() == 0,
    ensures
        cur.btn_rstick != prev.btn_rstick ==> bd(cur, prev, p, 11) == bd(cur, prev, p, 10).push(OutputEvent { ev_type: EV_KEY, code: BTN_THUMBR, value: if cur.btn_rstick { 1i32 } else { 0i32 }, scale_bits: None }),
        cur.btn_rstick == prev.btn_rstick ==> bd(cur, prev, p, 11) == bd(cur, prev, p, 10),
{
    assert(spec_buttons(cur)[10] == (key_id(BTN_THUMBR), cur.btn_rstick));
    assert(spec_buttons(prev)[10] == (key_id(BTN_THUMBR), prev.btn_rstick));
    if cur.btn_rstick != prev.btn_rstick {
        assert(bd(cur, prev, p, 11) =~= bd(cur, prev, p, 10).push(OutputEvent { ev_type: EV_KEY, code: BTN_THUMBR, value: if cur.btn_rstick { 1i32 } else { 0i32 }, scale_bits: None }));
    } else {
        assert(bd(cur, prev, p, 11) =~= bd(cur, prev, p, 10));
    }
}

#[verifier::spinoff_prover]
#[verifier::rlimit(50)]
proof fn lemma_button_state_10(cur: GamepadState, prev: GamepadState)
    ensures
        cur.btn_rstick != prev.btn_rstick ==> spec_evdev_event(partial(cur, prev, 10), EV_KEY, BTN_THUMBR, if cur.btn_rstick { 1i32 } else { 0i32 }) == partial(cur, prev, 11),
        cur.btn_rstick == prev.btn_rstick ==> partial(cur, prev, 10) == partial(cur, prev, 11),
{
    reveal(partial);
}

proof fn lemma_button_step_10(cur: GamepadState, prev: GamepadState, p: Profile)
    requires
        p.remaps@.len() == 0,
        apply_events(prev, bd(cur, prev, p, 10)) == partial(cur, prev, 10),
    ensures
        apply_events(prev, bd(cur, prev, p, 11)) == partial(cur, prev, 11),
{
    lemma_button_events_10(cur, prev, p);
    lemma_button_state_10(cur, prev);
    lemma_replay_step(
        prev,
        bd(cur, prev, p, 10),
        bd(cur, prev, p, 11),
        partial(cur, prev, 10),
        partial(cur, prev, 11),
        OutputEvent { ev_type: EV_KEY, code: BTN_THUMBR, value: if cur.btn_rstick { 1i32 } else { 0i32 }, scale_bits: None },
        cur.btn_rstick != prev.btn_rstick,
    );
}

proof fn lemma_button_events_11(cur: GamepadState, prev: GamepadState, p: Profile)
    requires
        p.remaps@.len() == 0,
    ensures
        cur.paddle_ul != prev.paddle_ul ==> bd(cur, prev, p, 12) == bd(cur, prev, p, 11).push(OutputEvent { ev_type: EV_KEY, code: BTN_GRIPL, value: if cur.paddle_ul { 1i32 } else { 0i32 }, scale_bits: None }),
        cur.paddle_ul == prev.paddle_ul ==> bd(cur, prev, p, 12) == bd(cur, prev, p, 11),
{
    assert(spec_buttons(cur)[11] == (key_id(BTN_GRIPL), cur.paddle_ul));
    assert(spec_buttons(prev)[11] == (key_id(BTN_GRIPL), prev.paddle_ul));
    if cur.paddle_ul != prev.paddle_ul {
        assert(bd(cur, prev, p, 12) =~= bd(cur, prev, p, 11).push(OutputEvent { ev_type: EV_KEY, code: BTN_GRIPL, value: if cur.paddle_ul { 1i32 } else { 0i32 }, scale_bits: None }));
    } else {
        assert(bd(cur, prev, p, 12) =~= bd(cur, prev, p, 11));
    }
}

#[verifier::spinoff_prover]
#[verifier::rlimit(50)]
proof fn lemma_button_state_11(cur: GamepadState, prev: GamepadState)
    ensures
        cur.paddle_ul != prev.paddle_ul ==> spec_evdev_event(partial(cur, prev, 11), EV_KEY, BTN_GRIPL, if cur.paddle_ul { 1i32 } else { 0i32 }) == partial(cur, prev, 12),
        cur.paddle_ul == prev.paddle_ul ==> partial(cur, prev, 11) == partial(cur, prev, 12),
{
    reveal(partial);
}

proof fn lemma_button_step_11(cur: GamepadState, prev: GamepadState, p: Profile)
    requires
        p.remaps@.len() == 0,
        apply_events(prev, bd(cur, prev, p, 11)) == partial(cur, prev, 11),
    ensures
        apply_events(prev, bd(cur, prev, p, 12)) == partial(cur, prev, 12),
{
    lemma_button_events_11(cur, prev, p);
    lemma_button_state_11(cur, prev);
    lemma_replay_step(
        prev,
        bd(cur, prev, p, 11),
        bd(cur, prev, p, 12),
        partial(cur, prev, 11),
        partial(cur, prev, 12),
        OutputEvent { ev_type: EV_KEY, code: BTN_GRIPL, value: if cur.paddle_ul { 1i32 } else { 0i32 }, scale_bits: None },
        cur.paddle_ul != prev.paddle_ul,
    );
}

proof fn lemma_button_events_12(cur: GamepadState, prev: GamepadState, p: Profile)
    requires
        p.remaps@.len() == 0,
    ensures
        cur.paddle_ur != prev.paddle_ur ==> bd(cur, prev, p, 13) == bd(cur, prev, p, 12).push(OutputEvent { ev_type: EV_KEY, code: BTN_GRIPR, value: if cur.paddle_ur { 1i32 } else { 0i32 }, scale_bits: None }),
        cur.paddle_ur == prev.paddle_ur ==> bd(cur, prev, p, 13) == bd(cur, prev, p, 12),
{
    assert(spec_buttons(cur)[12] == (key_id(BTN_GRIPR), cur.paddle_ur));
    assert(spec_buttons(prev)[12] == (key_id(BTN_GRIPR), prev.paddle_ur));
    if cur.paddle_ur != prev.paddle_ur {
        assert(bd(cur, prev, p, 13) =~= bd(cur, prev, p, 12).push(OutputEvent { ev_type: EV_KEY, code: BTN_GRIPR, value: if cur.paddle_ur { 1i32 } else { 0i32 }, scale_bits: None }));
    } else {
        assert(bd(cur, prev, p, 13) =~= bd(cur, prev, p, 12));
    }
}

#[verifier::spinoff_prover]
#[verifier::rlimit(50)]
proof fn lemma_button_state_12(cur: GamepadState, prev: GamepadState)
    ensures
        cur.paddle_ur != prev.paddle_ur ==> spec_evdev_event(partial(cur, prev, 12), EV_KEY, BTN_GRIPR, if cur.paddle_ur { 1i32 } else { 0i32 }) == partial(cur, prev, 13),
        cur.paddle_ur == prev.paddle_ur ==> partial(cur, prev, 12) == partial(cur, prev, 13),
{
    reveal(partial);
}

proof fn lemma_button_step_12(cur: GamepadState, prev: GamepadState, p: Profile)
    requires
        p.remaps@.len() == 0,
        apply_events(prev, bd(cur, prev, p, 12)) == partial(cur, prev, 12),
    ensures
        apply_events(prev, bd(cur, prev, p, 13)) == partial(cur, prev, 13),
{
    lemma_button_events_12(cur, prev, p);
    lemma_button_state_12(cur, prev);
    lemma_replay_step(
        prev,
        bd(cur, prev, p, 12),
        bd(cur, prev, p, 13),
        partial(cur, prev, 12),
        partial(cur, prev, 13),
        OutputEvent { ev_type: EV_KEY, code: BTN_GRIPR, value: if cur.paddle_ur { 1i32 } else { 0i32 }, scale_bits: None },
        cur.paddle_ur != prev.paddle_ur,
    );
}

proof fn lemma_button_events_13(cur: GamepadState, prev: GamepadState, p: Profile)
    requires
        p.remaps@.len() == 0,
    ensures
        cur.paddle_ll != prev.paddle_ll ==> bd(cur, prev, p, 14) == bd(cur, prev, p, 13).push(OutputEvent { ev_type: EV_KEY, code: BTN_GRIPL2, value: if cur.paddle_ll { 1i32 } else { 0i32 }, scale_bits: None }),
        cur.paddle_ll == prev.paddle_ll ==> bd(cur, prev, p, 14) == bd(cur, prev, p, 13),
{
    assert(spec_buttons(cur)[13] == (key_id(BTN_GRIPL2), cur.paddle_ll));
    assert(spec_buttons(prev)[13] == (key_id(BTN_GRIPL2), prev.paddle_ll));
    if cur.paddle_ll != prev.paddle_ll {
        assert(bd(cur, prev, p, 14) =~= bd(cur, prev, p, 13).push(OutputEvent { ev_type: EV_KEY, code: BTN_GRIPL2, value: if cur.paddle_ll { 1i32 } else { 0i32 }, scale_bits: None }));
    } else {
        assert(bd(cur, prev, p, 14) =~= bd(cur, prev, p, 13));
    }
}

#[verifier::spinoff_prover]
#[verifier::rlimit(50)]
proof fn lemma_button_state_13(cur: GamepadState, prev: GamepadState)
    ensures
        cur.paddle_ll != prev.paddle_ll ==> spec_evdev_event(partial(cur, prev, 13), EV_KEY, BTN_GRIPL2, if cur.paddle_ll { 1i32 } else { 0i32 }) == partial(cur, prev, 14),
        cur.paddle_ll == prev.paddle_ll ==> partial(cur, prev, 13) == partial(cur, prev, 14),
{
    reveal(partial);
}

proof fn lemma_button_step_13(cur: GamepadState, prev: GamepadState, p: Profile)
    requires
        p.remaps@.len() == 0,
        apply_events(prev, bd(cur, prev, p, 13)) == partial(cur, prev, 13),
    ensures
        apply_events(prev, bd(cur, prev, p, 14)) == partial(cur, prev, 14),
{
    lemma_button_events_13(cur, prev, p);
    lemma_button_state_13(cur, prev);
    lemma_replay_step(
        prev,
        bd(cur, prev, p, 13),
        bd(cur, prev, p, 14),
        partial(cur, prev, 13),
        partial(cur, prev, 14),
        OutputEvent { ev_type: EV_KEY, code: BTN_GRIPL2, value: if cur.paddle_ll { 1i32 } else { 0i32 }, scale_bits: None },
        cur.paddle_ll != prev.paddle_ll,
    );
}

proof fn lemma_button_events_14(cur: GamepadState, prev: GamepadState, p: Profile)
    requires
        p.remaps@.len() == 0,
    ensures
        cur.paddle_lr != prev.paddle_lr ==> bd(cur, prev, p, 15) == bd(cur, prev, p, 14).push(OutputEvent { ev_type: EV_KEY, code: BTN_GRIPR2, value: if cur.paddle_lr { 1i32 } else { 0i32 }, scale_bits: None }),
        cur.paddle_lr == prev.paddle_lr ==> bd(cur, prev, p, 15) == bd(cur, prev, p, 14),
{
    assert(spec_buttons(cur)[14] == (key_id(BTN_GRIPR2), cur.paddle_lr));
    assert(spec_buttons(prev)[14] == (key_id(BTN_GRIPR2), prev.paddle_lr));
    if cur.paddle_lr != prev.paddle_lr {
        assert(bd(cur, prev, p, 15) =~= bd(cur, prev, p, 14).push(OutputEvent { ev_type: EV_KEY, code: BTN_GRIPR2, value: if cur.paddle_lr { 1i32 } else { 0i32 }, scale_bits: None }));
    } else {
        assert(bd(cur, prev, p, 15) =~= bd(cur, prev, p, 14));
    }
}

#[verifier::spinoff_prover]
#[verifier::rlimit(50)]
proof fn lemma_button_state_14(cur: GamepadState, prev: GamepadState)
    ensures
        cur.paddle_lr != prev.paddle_lr ==> spec_evdev_event(partial(cur, prev, 14), EV_KEY, BTN_GRIPR2, if cur.paddle_lr { 1i32 } else { 0i32 }) == partial(cur, prev, 15),
        cur.paddle_lr == prev.paddle_lr ==> partial(cur, prev, 14) == partial(cur, prev, 15),
{
    reveal(partial);
}

proof fn lemma_button_step_14(cur: GamepadState, prev: GamepadState, p: Profile)
    requires
        p.remaps@.len() == 0,
        apply_events(prev, bd(cur, prev, p, 14)) == partial(cur, prev, 14),
    ensures
        apply_events(prev, bd(cur, prev, p, 15)) == partial(cur, prev, 15),
{
    lemma_button_events_14(cur, prev, p);
    lemma_button_state_14(cur, prev);
    lemma_replay_step(
        prev,
        bd(cur, prev, p, 14),
        bd(cur, prev, p, 15),
        partial(cur, prev, 14),
        partial(cur, prev, 15),
        OutputEvent { ev_type: EV_KEY, code: BTN_GRIPR2, value: if cur.paddle_lr { 1i32 } else { 0i32 }, scale_bits: None },
        cur.paddle_lr != prev.paddle_lr,
    );
}

proof fn lemma_axis_events_0(cur: GamepadState, prev: GamepadState, p: Profile)
    requires
        is_identity_profile(p),
    ensures
        cur.left_stick_x as i32 != prev.left_stick_x as i32 ==> ad(cur, prev, p, 1) == ad(cur, prev, p, 0).push(OutputEvent { ev_type: EV_ABS, code: ABS_X, value: cur.left_stick_x as i32, scale_bits: None }),
        cur.left_stick_x as i32 == prev.left_stick_x as i32 ==> ad(cur, prev, p, 1) == ad(cur, prev, p, 0),
{
    assert(p.stick_curves[0] is None && p.stick_curves[1] is None);
    assert(p.stick_curves[2] is None && p.stick_curves[3] is None);
    assert(p.trigger_zones[0] is None && p.trigger_zones[1] is None);
    assert(spec_axes(cur, p)[0] == (abs_id(ABS_X), cur.left_stick_x as i32));
    assert(spec_axes(prev, p)[0] == (abs_id(ABS_X), prev.left_stick_x as i32));
    if cur.left_stick_x as i32 != prev.left_stick_x as i32 {
        assert(ad(cur, prev, p, 1) =~= ad(cur, prev, p, 0).push(OutputEvent { ev_type: EV_ABS, code: ABS_X, value: cur.left_stick_x as i32, scale_bits: None }));
    } else {
        assert(ad(cur, prev, p, 1) =~= ad(cur, prev, p, 0));
    }
}

#[verifier::spinoff_prover]
#[verifier::rlimit(50)]
proof fn lemma_axis_state_0(cur: GamepadState, prev: GamepadState)
    ensures
        cur.left_stick_x as i32 != prev.left_stick_x as i32 ==> spec_evdev_event(partial(cur, prev, 15), EV_ABS, ABS_X, cur.left_stick_x as i32) == partial(cur, prev, 16),
        cur.left_stick_x as i32 == prev.left_stick_x as i32 ==> partial(cur, prev, 15) == partial(cur, prev, 16),
{
    reveal(partial);
}

proof fn lemma_axis_step_0(cur: GamepadState, prev: GamepadState, p: Profile)
    requires
        is_identity_profile(p),
        apply_events(prev, ad(cur, prev, p, 0)) == partial(cur, prev, 15),
    ensures
        apply_events(prev, ad(cur, prev, p, 1)) == partial(cur, prev, 16),
{
    lemma_axis_events_0(cur, prev, p);
    lemma_axis_state_0(cur, prev);
    lemma_replay_step(
        prev,
        ad(cur, prev, p, 0),
        ad(cur, prev, p, 1),
        partial(cur, prev, 15),
        partial(cur, prev, 16),
        OutputEvent { ev_type: EV_ABS, code: ABS_X, value: cur.left_stick_x as i32, scale_bits: None },
        cur.left_stick_x as i32 != prev.left_stick_x as i32,
    );
}

proof fn lemma_axis_events_1(cur: GamepadState, prev: GamepadState, p: Profile)
    requires
        is_identity_profile(p),
    ensures
        cur.left_stick_y as i32 != prev.left_stick_y as i32 ==> ad(cur, prev, p, 2) == ad(cur, prev, p, 1).push(OutputEvent { ev_type: EV_ABS, code: ABS_Y, value: cur.left_stick_y as i32, scale_bits: None }),
        cur.left_stick_y as i32 == prev.left_stick_y as i32 ==> ad(cur, prev, p, 2) == ad(cur, prev, p, 1),
{
    assert(p.stick_curves[0] is None && p.stick_curves[1] is None);
    assert(p.stick_curves[2] is None && p.stick_curves[3] is None);
    assert(p.trigger_zones[0] is None && p.trigger_zones[1] is None);
    assert(spec_axes(cur, p)[1] == (abs_id(ABS_Y), cur.left_stick_y as i32));
    assert(spec_axes(prev, p)[1] == (abs_id(ABS_Y), prev.left_stick_y as i32));
    if cur.left_stick_y as i32 != prev.left_stick_y as i32 {
        assert(ad(cur, prev, p, 2) =~= ad(cur, prev, p, 1).push(OutputEvent { ev_type: EV_ABS, code: ABS_Y, value: cur.left_stick_y as i32, scale_bits: None }));
    } else {
        assert(ad(cur, prev, p, 2) =~= ad(cur, prev, p, 1));
    }
}

#[verifier::spinoff_prover]
#[verifier::rlimit(50)]
proof fn lemma_axis_state_1(cur: GamepadState, prev: GamepadState)
    ensures
        cur.left_stick_y as i32 != prev.left_stick_y as i32 ==> spec_evdev_event(partial(cur, prev, 16), EV_ABS, ABS_Y, cur.left_stick_y as i32) == partial(cur, prev, 17),
        cur.left_stick_y as i32 == prev.left_stick_y as i32 ==> partial(cur, prev, 16) == partial(cur, prev, 17),
{
    reveal(partial);
}

proof fn lemma_axis_step_1(cur: GamepadState, prev: GamepadState, p: Profile)
    requires
        is_identity_profile(p),
        apply_events(prev, ad(cur, prev, p, 1)) == partial(cur, prev, 16),
    ensures
        apply_events(prev, ad(cur, prev, p, 2)) == partial(cur, prev, 17),
{
    lemma_axis_events_1(cur, prev, p);
    lemma_axis_state_1(cur, prev);
    lemma_replay_step(
        prev,
        ad(cur, prev, p, 1),
        ad(cur, prev, p, 2),
        partial(cur, prev, 16),
        partial(cur, prev, 17),
        OutputEvent { ev_type: EV_ABS, code: ABS_Y, value: cur.left_stick_y as i32, scale_bits: None },
        cur.left_stick_y as i32 != prev.left_stick_y as i32,
    );
}

proof fn lemma_axis_events_2(cur: GamepadState, prev: GamepadState, p: Profile)
    requires
        is_identity_profile(p),
    ensures
        cur.right_stick_x as i32 != prev.right_stick_x as i32 ==> ad(cur, prev, p, 3) == ad(cur, prev, p, 2).push(OutputEvent { ev_type: EV_ABS, code: ABS_RX, value: cur.right_stick_x as i32, scale_bits: None }),
        cur.right_stick_x as i32 == prev.right_stick_x as i32 ==> ad(cur, prev, p, 3) == ad(cur, prev, p, 2),
{
    assert(p.stick_curves[0] is None && p.stick_curves[1] is None);
    assert(p.stick_curves[2] is None && p.stick_curves[3] is None);
    assert(p.trigger_zones[0] is None && p.trigger_zones[1] is None);
    assert(spec_axes(cur, p)[2] == (abs_id(ABS_RX), cur.right_stick_x as i32));
    assert(spec_axes(prev, p)[2] == (abs_id(ABS_RX), prev.right_stick_x as i32));
    if cur.right_stick_x as i32 != prev.right_stick_x as i32 {
        assert(ad(cur, prev, p, 3) =~= ad(cur, prev, p, 2).push(OutputEvent { ev_type: EV_ABS, code: ABS_RX, value: cur.right_stick_x as i32, scale_bits: None }));
    } else {
        assert(ad(cur, prev, p, 3) =~= ad(cur, prev, p, 2));
    }
}

#[verifier::spinoff_prover]
#[verifier::rlimit(50)]
proof fn lemma_axis_state_2(cur: GamepadState, prev: GamepadState)
    ensures
        cur.right_stick_x as i32 != prev.right_stick_x as i32 ==> spec_evdev_event(partial(cur, prev, 17), EV_ABS, ABS_RX, cur.right_stick_x as i32) == partial(cur, prev, 18),
        cur.right_stick_x as i32 == prev.right_stick_x as i32 ==> partial(cur, prev, 17) == partial(cur, prev, 18),
{
    reveal(partial);
}

proof fn lemma_axis_step_2(cur: GamepadState, prev: GamepadState, p: Profile)
    requires
        is_identity_profile(p),
        apply_events(prev, ad(cur, prev, p, 2)) == partial(cur, prev, 17),
    ensures
        apply_events(prev, ad(cur, prev, p, 3)) == partial(cur, prev, 18),
{
    lemma_axis_events_2(cur, prev, p);
    lemma_axis_state_2(cur, prev);
    lemma_replay_step(
        prev,
        ad(cur, prev, p, 2),
        ad(cur, prev, p, 3),
        partial(cur, prev, 17),
        partial(cur, prev, 18),
        OutputEvent { ev_type: EV_ABS, code: ABS_RX, value: cur.right_stick_x as i32, scale_bits: None },
        cur.right_stick_x as i32 != prev.right_stick_x as i32,
    );
}

proof fn lemma_axis_events_3(cur: GamepadState, prev: GamepadState, p: Profile)
    requires
        is_identity_profile(p),
    ensures
        cur.right_stick_y as i32 != prev.right_stick_y as i32 ==> ad(cur, prev, p, 4) == ad(cur, prev, p, 3).push(OutputEvent { ev_type: EV_ABS, code: ABS_RY, value: cur.right_stick_y as i32, scale_bits: None }),
        cur.right_stick_y as i32 == prev.right_stick_y as i32 ==> ad(cur, prev, p, 4) == ad(cur, prev, p, 3),
{
    assert(p.stick_curves[0] is None && p.stick_curves[1] is None);
    assert(p.stick_curves[2] is None && p.stick_curves[3] is None);
    assert(p.trigger_zones[0] is None && p.trigger_zones[1] is None);
    assert(spec_axes(cur, p)[3] == (abs_id(ABS_RY), cur.right_stick_y as i32));
    assert(spec_axes(prev, p)[3] == (abs_id(ABS_RY), prev.right_stick_y as i32));
    if cur.right_stick_y as i32 != prev.right_stick_y as i32 {
        assert(ad(cur, prev, p, 4) =~= ad(cur, prev, p, 3).push(OutputEvent { ev_type: EV_ABS, code: ABS_RY, value: cur.right_stick_y as i32, scale_bits: None }));
    } else {
        assert(ad(cur, prev, p, 4) =~= ad(cur, prev, p, 3));
    }
}

#[verifier::spinoff_prover]
#[verifier::rlimit(50)]
proof fn lemma_axis_state_3(cur: GamepadState, prev: GamepadState)
    ensures
        cur.right_stick_y as i32 != prev.right_stick_y as i32 ==> spec_evdev_event(partial(cur, prev, 18), EV_ABS, ABS_RY, cur.right_stick_y as i32) == partial(cur, prev, 19),
        cur.right_stick_y as i32 == prev.right_stick_y as i32 ==> partial(cur, prev, 18) == partial(cur, prev, 19),
{
    reveal(partial);
}

proof fn lemma_axis_step_3(cur: GamepadState, prev: GamepadState, p: Profile)
    requires
        is_identity_profile(p),
        apply_events(prev, ad(cur, prev, p, 3)) == partial(cur, prev, 18),
    ensures
        apply_events(prev, ad(cur, prev, p, 4)) == partial(cur, prev, 19),
{
    lemma_axis_events_3(cur, prev, p);
    lemma_axis_state_3(cur, prev);
    lemma_replay_step(
        prev,
        ad(cur, prev, p, 3),
        ad(cur, prev, p, 4),
        partial(cur, prev, 18),
        partial(cur, prev, 19),
        OutputEvent { ev_type: EV_ABS, code: ABS_RY, value: cur.right_stick_y as i32, scale_bits: None },
        cur.right_stick_y as i32 != prev.right_stick_y as i32,
    );
}

proof fn lemma_axis_events_4(cur: GamepadState, prev: GamepadState, p: Profile)
    requires
        is_identity_profile(p),
    ensures
        cur.left_trigger as i32 != prev.left_trigger as i32 ==> ad(cur, prev, p, 5) == ad(cur, prev, p, 4).push(OutputEvent { ev_type: EV_ABS, code: ABS_Z, value: cur.left_trigger as i32, scale_bits: None }),
        cur.left_trigger as i32 == prev.left_trigger as i32 ==> ad(cur, prev, p, 5) == ad(cur, prev, p, 4),
{
    assert(p.stick_curves[0] is None && p.stick_curves[1] is None);
    assert(p.stick_curves[2] is None && p.stick_curves[3] is None);
    assert(p.trigger_zones[0] is None && p.trigger_zones[1] is None);
    assert(spec_axes(cur, p)[4] == (abs_id(ABS_Z), cur.left_trigger as i32));
    assert(spec_axes(prev, p)[4] == (abs_id(ABS_Z), prev.left_trigger as i32));
    if cur.left_trigger as i32 != prev.left_trigger as i32 {
        assert(ad(cur, prev, p, 5) =~= ad(cur, prev, p, 4).push(OutputEvent { ev_type: EV_ABS, code: ABS_Z, value: cur.left_trigger as i32, scale_bits: None }));
    } else {
        assert(ad(cur, prev, p, 5) =~= ad(cur, prev, p, 4));
    }
}

#[verifier::spinoff_prover]
#[verifier::rlimit(50)]
proof fn lemma_axis_state_4(cur: GamepadState, prev: GamepadState)
    ensures
        cur.left_trigger as i32 != prev.left_trigger as i32 ==> spec_evdev_event(partial(cur, prev, 19), EV_ABS, ABS_Z, cur.left_trigger as i32) == partial(cur, prev, 20),
        cur.left_trigger as i32 == prev.left_trigger as i32 ==> partial(cur, prev, 19) == partial(cur, prev, 20),
{
    reveal(partial);
}

proof fn lemma_axis_step_4(cur: GamepadState, prev: GamepadState, p: Profile)
    requires
        is_identity_profile(p),
        apply_events(prev, ad(cur, prev, p, 4)) == partial(cur, prev, 19),
    ensures
        apply_events(prev, ad(cur, prev, p, 5)) == partial(cur, prev, 20),
{
    lemma_axis_events_4(cur, prev, p);
    lemma_axis_state_4(cur, prev);
    lemma_replay_step(
        prev,
        ad(cur, prev, p, 4),
        ad(cur, prev, p, 5),
        partial(cur, prev, 19),
        partial(cur, prev, 20),
        OutputEvent { ev_type: EV_ABS, code: ABS_Z, value: cur.left_trigger as i32, scale_bits: None },
        cur.left_trigger as i32 != prev.left_trigger as i32,
    );
}

proof fn lemma_axis_events_5(cur: GamepadState, prev: GamepadState, p: Profile)
    requires
        is_identity_profile(p),
    ensures
        cur.right_trigger as i32 != prev.right_trigger as i32 ==> ad(cur, prev, p, 6) == ad(cur, prev, p, 5).push(OutputEvent { ev_type: EV_ABS, code: ABS_RZ, value: cur.right_trigger as i32, scale_bits: None }),
        cur.right_trigger as i32 == prev.right_trigger as i32 ==> ad(cur, prev, p, 6) == ad(cur, prev, p, 5),
{
    assert(p.stick_curves[0] is None && p.stick_curves[1] is None);
    assert(p.stick_curves[2] is None && p.stick_curves[3] is None);
    assert(p.trigger_zones[0] is None && p.trigger_zones[1] is None);
    assert(spec_axes(cur, p)[5] == (abs_id(ABS_RZ), cur.right_trigger as i32));
    assert(spec_axes(prev, p)[5] == (abs_id(ABS_RZ), prev.right_trigger as i32));
    if cur.right_trigger as i32 != prev.right_trigger as i32 {
        assert(ad(cur, prev, p, 6) =~= ad(cur, prev, p, 5).push(OutputEvent { ev_type: EV_ABS, code: ABS_RZ, value: cur.right_trigger as i32, scale_bits: None }));
    } else {
        assert(ad(cur, prev, p, 6) =~= ad(cur, prev, p, 5));
    }
}

#[verifier::spinoff_prover]
#[verifier::rlimit(50)]
proof fn lemma_axis_state_5(cur: GamepadState, prev: GamepadState)
    ensures
        cur.right_trigger as i32 != prev.right_trigger as i32 ==> spec_evdev_event(partial(cur, prev, 20), EV_ABS, ABS_RZ, cur.right_trigger as i32) == partial(cur, prev, 21),
        cur.right_trigger as i32 == prev.right_trigger as i32 ==> partial(cur, prev, 20) == partial(cur, prev, 21),
{
    reveal(partial);
}

proof fn lemma_axis_step_5(cur: GamepadState, prev: GamepadState, p: Profile)
    requires
        is_identity_profile(p),
        apply_events(prev, ad(cur, prev, p, 5)) == partial(cur, prev, 20),
    ensures
        apply_events(prev, ad(cur, prev, p, 6)) == partial(cur, prev, 21),
{
    lemma_axis_events_5(cur, prev, p);
    lemma_axis_state_5(cur, prev);
    lemma_replay_step(
        prev,
        ad(cur, prev, p, 5),
        ad(cur, prev, p, 6),
        partial(cur, prev, 20),
        partial(cur, prev, 21),
        OutputEvent { ev_type: EV_ABS, code: ABS_RZ, value: cur.right_trigger as i32, scale_bits: None },
        cur.right_trigger as i32 != prev.right_trigger as i32,
    );
}

proof fn lemma_axis_events_6(cur: GamepadState, prev: GamepadState, p: Profile)
    requires
        is_identity_profile(p),
    ensures
        hat(cur.dpad_left, cur.dpad_right) != hat(prev.dpad_left, prev.dpad_right) ==> ad(cur, prev, p, 7) == ad(cur, prev, p, 6).push(OutputEvent { ev_type: EV_ABS, code: ABS_HAT0X, value: hat(cur.dpad_left, cur.dpad_right), scale_bits: None }),
        hat(cur.dpad_left, cur.dpad_right) == hat(prev.dpad_left, prev.dpad_right) ==> ad(cur, prev, p, 7) == ad(cur, prev, p, 6),
{
    assert(p.stick_curves[0] is None && p.stick_curves[1] is None);
    assert(p.stick_curves[2] is None && p.stick_curves[3] is None);
    assert(p.trigger_zones[0] is None && p.trigger_zones[1] is None);
    assert(spec_axes(cur, p)[6] == (abs_id(ABS_HAT0X), hat(cur.dpad_left, cur.dpad_right)));
    assert(spec_axes(prev, p)[6] == (abs_id(ABS_HAT0X), hat(prev.dpad_left, prev.dpad_right)));
    if hat(cur.dpad_left, cur.dpad_right) != hat(prev.dpad_left, prev.dpad_right) {
        assert(ad(cur, prev, p, 7) =~= ad(cur, prev, p, 6).push(OutputEvent { ev_type: EV_ABS, code: ABS_HAT0X, value: hat(cur.dpad_left, cur.dpad_right), scale_bits: None }));
    } else {
        assert(ad(cur, prev, p, 7) =~= ad(cur, prev, p, 6));
    }
}

#[verifier::spinoff_prover]
#[verifier::rlimit(50)]
proof fn lemma_axis_state_6(cur: GamepadState, prev: GamepadState)
    requires
        dpad_consistent(cur),
        dpad_consistent(prev),
    ensures
        hat(cur.dpad_left, cur.dpad_right) != hat(prev.dpad_left, prev.dpad_right) ==> spec_evdev_event(partial(cur, prev, 21), EV_ABS, ABS_HAT0X, hat(cur.dpad_left, cur.dpad_right)) == partial(cur, prev, 22),
        hat(cur.dpad_left, cur.dpad_right) == hat(prev.dpad_left, prev.dpad_right) ==> partial(cur, prev, 21) == partial(cur, prev, 22),
{
    reveal(partial);
}

proof fn lemma_axis_step_6(cur: GamepadState, prev: GamepadState, p: Profile)
    requires
        is_identity_profile(p),
        dpad_consistent(cur),
        dpad_consistent(prev),
        apply_events(prev, ad(cur, prev, p, 6)) == partial(cur, prev, 21),
    ensures
        apply_events(prev, ad(cur, prev, p, 7)) == partial(cur, prev, 22),
{
    lemma_axis_events_6(cur, prev, p);
    lemma_axis_state_6(cur, prev);
    lemma_replay_step(
        prev,
        ad(cur, prev, p, 6),
        ad(cur, prev, p, 7),
        partial(cur, prev, 21),
        partial(cur, prev, 22),
        OutputEvent { ev_type: EV_ABS, code: ABS_HAT0X, value: hat(cur.dpad_left, cur.dpad_right), scale_bits: None },
        hat(cur.dpad_left, cur.dpad_right) != hat(prev.dpad_left, prev.dpad_right),
    );
}

proof fn lemma_axis_events_7(cur: GamepadState, prev: GamepadState, p: Profile)
    requires
        is_identity_profile(p),
    ensures
        hat(cur.dpad_up, cur.dpad_down) != hat(prev.dpad_up, prev.dpad_down) ==> ad(cur, prev, p, 8) == ad(cur, prev, p, 7).push(OutputEvent { ev_type: EV_ABS, code: ABS_HAT0Y, value: hat(cur.dpad_up, cur.dpad_down), scale_bits: None }),
        hat(cur.dpad_up, cur.dpad_down) == hat(prev.dpad_up, prev.dpad_down) ==> ad(cur, prev, p, 8) == ad(cur, prev, p, 7),
{
    assert(p.stick_curves[0] is None && p.stick_curves[1] is None);
    assert(p.stick_curves[2] is None && p.stick_curves[3] is None);
    assert(p.trigger_zones[0] is None && p.trigger_zones[1] is None);
    assert(spec_axes(cur, p)[7] == (abs_id(ABS_HAT0Y), hat(cur.dpad_up, cur.dpad_down)));
    assert(spec_axes(prev, p)[7] == (abs_id(ABS_HAT0Y), hat(prev.dpad_up, prev.dpad_down)));
    if hat(cur.dpad_up, cur.dpad_down) != hat(prev.dpad_up, prev.dpad_down) {
        assert(ad(cur, prev, p, 8) =~= ad(cur, prev, p, 7).push(OutputEvent { ev_type: EV_ABS, code: ABS_HAT0Y, value: hat(cur.dpad_up, cur.dpad_down), scale_bits: None }));
    } else {
        assert(ad(cur, prev, p, 8) =~= ad(cur, prev, p, 7));
    }
}

#[verifier::spinoff_prover]
#[verifier::rlimit(50)]
proof fn lemma_axis_state_7(cur: GamepadState, prev: GamepadState)
    requires
        dpad_consistent(cur),
        dpad_consistent(prev),
    ensures
        hat(cur.dpad_up, cur.dpad_down) != hat(prev.dpad_up, prev.dpad_down) ==> spec_evdev_event(partial(cur, prev, 22), EV_ABS, ABS_HAT0Y, hat(cur.dpad_up, cur.dpad_down)) == partial(cur, prev, 23),
        hat(cur.dpad_up, cur.dpad_down) == hat(prev.dpad_up, prev.dpad_down) ==> partial(cur, prev, 22) == partial(cur, prev, 23),
{
    reveal(partial);
}

proof fn lemma_axis_step_7(cur: GamepadState, prev: GamepadState, p: Profile)
    requires
        is_identity_profile(p),
        dpad_consistent(cur),
        dpad_consistent(prev),
        apply_events(prev, ad(cur, prev, p, 7)) == partial(cur, prev, 22),
    ensures
        apply_events(prev, ad(cur, prev, p, 8)) == partial(cur, prev, 23),
{
    lemma_axis_events_7(cur, prev, p);
    lemma_axis_state_7(cur, prev);
    lemma_replay_step(
        prev,
        ad(cur, prev, p, 7),
        ad(cur, prev, p, 8),
        partial(cur, prev, 22),
        partial(cur, prev, 23),
        OutputEvent { ev_type: EV_ABS, code: ABS_HAT0Y, value: hat(cur.dpad_up, cur.dpad_down), scale_bits: None },
        hat(cur.dpad_up, cur.dpad_down) != hat(prev.dpad_up, prev.dpad_down),
    );
}

/// Replaying the events that the identity profile emits for a change from
/// `prev` to `cur`, each as an input event on `prev`, rebuilds `cur` in
/// every field but the hardware profile, which stays `prev`'s; this holds
/// when neither state holds two opposite d-pad directions at once.
pub proof fn lemma_identity_events_rebuild_state(cur: GamepadState, prev: GamepadState, p: Profile)
    requires
        is_identity_profile(p),
        dpad_consistent(cur),
        dpad_consistent(prev),
    ensures
        apply_events(prev, spec_transform(cur, prev, p)) == (GamepadState { hw_profile: prev.hw_profile, ..cur }),
{
    assert(bd(cur, prev, p, 0) =~= Seq::<OutputEvent>::empty());
    assert(partial(cur, prev, 0) == prev) by {
        reveal(partial);
    }
    assert(apply_events(prev, bd(cur, prev, p, 0)) == prev) by {
        reveal(apply_events);
    }
    lemma_button_step_0(cur, prev, p);
    lemma_button_step_1(cur, prev, p);
    lemma_button_step_2(cur, prev, p);
    lemma_button_step_3(cur, prev, p);
    lemma_button_step_4(cur, prev, p);
    lemma_button_step_5(cur, prev, p);
    lemma_button_step_6(cur, prev, p);
    lemma_button_step_7(cur, prev, p);
    lemma_button_step_8(cur, prev, p);
    lemma_button_step_9(cur, prev, p);
    lemma_button_step_10(cur, prev, p);
    lemma_button_step_11(cur, prev, p);
    lemma_button_step_12(cur, prev, p);
    lemma_button_step_13(cur, prev, p);
    lemma_button_step_14(cur, prev, p);
    assert(ad(cur, prev, p, 0) =~= bd(cur, prev, p, 15));
    lemma_axis_step_0(cur, prev, p);
    lemma_axis_step_1(cur, prev, p);
    lemma_axis_step_2(cur, prev, p);
    lemma_axis_step_3(cur, prev, p);
    lemma_axis_step_4(cur, prev, p);
    lemma_axis_step_5(cur, prev, p);
    lemma_axis_step_6(cur, prev, p);
    lemma_axis_step_7(cur, prev, p);
    assert(ad(cur, prev, p, 8) == spec_transform(cur, prev, p));
    assert(partial(cur, prev, 23) == (GamepadState { hw_profile: prev.hw_profile, ..cur })) by {
        reveal(partial);
    }
}

} // verus!
