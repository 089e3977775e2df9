//! The virtual gamepad: its capabilities, the bytes of its uinput setup
//! record and of the input events written to it, and the force-feedback
//! effects it stores.
//!
//! Byte images are those of the kernel structures on a little-endian
//! machine with 64-bit `struct timeval`.

use vstd::prelude::*;

use crate::text::{dec_digits, push_decimal};
use crate::transform::OutputEvent;
use crate::types::{
    ABS_HAT0X, ABS_HAT0Y, ABS_RX, ABS_RY, ABS_RZ, ABS_X, ABS_Y, ABS_Z, BTN_A, BTN_B, BTN_GRIPL,
    BTN_GRIPL2, BTN_GRIPR, BTN_GRIPR2, BTN_MODE, BTN_SELECT, BTN_START, BTN_THUMBL, BTN_THUMBR,
    BTN_TL, BTN_TR, BTN_X, BTN_Y,
};

verus! {

/// The force-feedback event type.
pub const EV_FF: u16 = 0x15;

/// The rumble effect type.
pub const FF_RUMBLE: u16 = 0x50;

/// Number of stored effects.
pub const FF_EFFECTS_MAX: u32 = 16;

/// The product ID the virtual gamepad reports.
pub const VIRTUAL_PRODUCT: u16 = 0xBE12;

/// Rumble magnitudes of an effect (`struct ff_rumble_effect`).
#[derive(Debug, Clone, Copy, PartialEq, Eq, Structural)]
pub struct FfRumble {
    pub strong_magnitude: u16,
    pub weak_magnitude: u16,
}

/// A force-feedback effect (`struct ff_effect`); `u` holds the effect's
/// parameters, for a rumble effect the two magnitudes first.
#[derive(Debug, Clone, Copy)]
pub struct FfEffect {
    pub effect_type: u16,
    pub id: i16,
    pub direction: u16,
    pub trigger_button: u16,
    pub trigger_interval: u16,
    pub replay_length: u16,
    pub replay_delay: u16,
    pub u: [u8; 52],
}

impl FfEffect {
    /// An all-zero effect.
    pub fn zeroed() -> (res: Self)
        ensures
            res.effect_type == 0 && res.id == 0 && res.direction == 0,
            res.trigger_button == 0 && res.trigger_interval == 0,
            res.replay_length == 0 && res.replay_delay == 0,
            forall|i: int| 0 <= i < 52 ==> res.u[i] == 0,
    {
        FfEffect {
            effect_type: 0,
            id: 0,
            direction: 0,
            trigger_button: 0,
            trigger_interval: 0,
            replay_length: 0,
            replay_delay: 0,
            u: [0u8; 52],
        }
    }

    /// The rumble magnitudes: the first two 16-bit values of the parameters.
    pub fn rumble(&self) -> (res: FfRumble)
        ensures
            res.strong_magnitude == self.u[0] + 256 * self.u[1],
            res.weak_magnitude == self.u[2] + 256 * self.u[3],
    {
        FfRumble {
            strong_magnitude: self.u[0] as u16 + 256 * (self.u[1] as u16),
            weak_magnitude: self.u[2] as u16 + 256 * (self.u[3] as u16),
        }
    }
}

/// The stored effects, by effect ID (0-15).
#[derive(Debug)]
pub struct EffectTable {
    pub effects: [Option<FfEffect>; 16],
}

/// A magnitude scaled from 0-65535 to 0-100.
pub open spec fn percent(m: u16) -> u8 {
    (m as int * 100 / 65535) as u8
}

impl EffectTable {
    /// No effect stored.
    pub fn new() -> (res: Self)
        ensures
            forall|i: int| 0 <= i < 16 ==> res.effects[i] is None,
    {
        EffectTable { effects: [None; 16] }
    }

    /// Store an uploaded effect under its ID, if the ID is 0 to 15.
    pub fn store_upload(&mut self, effect: FfEffect)
        ensures
            0 <= effect.id < 16 ==> final(self).effects@ == old(self).effects@.update(
                effect.id as int,
                Some(effect),
            ),
            !(0 <= effect.id < 16) ==> final(self).effects@ == old(self).effects@,
    {
        if effect.id >= 0 && effect.id < 16 {
            self.effects[effect.id as usize] = Some(effect);
        }
    }

    /// Forget an erased effect, if its ID is below 16.
    pub fn erase(&mut self, effect_id: u32)
        ensures
            effect_id < 16 ==> final(self).effects@ == old(self).effects@.update(
                effect_id as int,
                None,
            ),
            effect_id >= 16 ==> final(self).effects@ == old(self).effects@,
    {
        if effect_id < 16 {
            self.effects[effect_id as usize] = None;
        }
    }

    /// The (strong, weak) magnitudes of a stored effect in percent.
    pub fn get_ff_rumble(&self, effect_id: u16) -> (res: Option<(u8, u8)>)
        ensures
            effect_id >= 16 ==> res is None,
            effect_id < 16 ==> match self.effects[effect_id as int] {
                Some(e) => res == Some(
                    (
                        percent((e.u[0] + 256 * e.u[1]) as u16),
                        percent((e.u[2] + 256 * e.u[3]) as u16),
                    ),
                ),
                None => res is None,
            },
    {
        if effect_id >= 16 {
            return None;
        }
        match &self.effects[effect_id as usize] {
            Some(e) => {
                let r = e.rumble();
                let strong = (r.strong_magnitude as u32 * 100 / 65535) as u8;
                let weak = (r.weak_magnitude as u32 * 100 / 65535) as u8;
                Some((strong, weak))
            },
            None => None,
        }
    }
}

/// The bytes of a 16-bit value, little-endian.
pub open spec fn le_u16(v: u16) -> Seq<u8> {
    seq![(v % 256) as u8, (v / 256) as u8]
}

/// The bytes of a 32-bit value, little-endian.
pub open spec fn le_u32(v: u32) -> Seq<u8> {
    seq![(v % 256) as u8, (v / 256 % 256) as u8, (v / 65536 % 256) as u8, (v / 16777216) as u8]
}

/// The bytes of a signed 32-bit value (two's complement), little-endian.
pub open spec fn le_i32(v: i32) -> Seq<u8> {
    le_u32(v as u32)
}

/// The bytes of an input event with a zero timestamp (`struct input_event`).
pub open spec fn event_record(ev_type: u16, code: u16, value: i32) -> Seq<u8> {
    Seq::new(16, |i: int| 0u8) + le_u16(ev_type) + le_u16(code) + le_i32(value)
}

fn push_u16(out: &mut Vec<u8>, v: u16)
    ensures
        final(out)@ == old(out)@ + le_u16(v),
{
    out.push((v % 256) as u8);
    out.push((v / 256) as u8);
    proof {
        assert(final(out)@ =~= old(out)@ + le_u16(v));
    }
}

fn push_u32(out: &mut Vec<u8>, v: u32)
    ensures
        final(out)@ == old(out)@ + le_u32(v),
{
    out.push((v % 256) as u8);
    out.push((v / 256 % 256) as u8);
    out.push((v / 65536 % 256) as u8);
    out.push((v / 16777216) as u8);
    proof {
        assert(final(out)@ =~= old(out)@ + le_u32(v));
    }
}

fn push_event(out: &mut Vec<u8>, ev_type: u16, code: u16, value: i32)
    ensures
        final(out)@ == old(out)@ + event_record(ev_type, code, value),
{
    let mut k: usize = 0;
    while k < 16
        invariant
            k <= 16,
            out@ == old(out)@ + Seq::new(k as nat, |i: int| 0u8),
        decreases 16 - k,
    {
        out.push(0);
        proof {
            assert(out@ =~= old(out)@ + Seq::new((k + 1) as nat, |i: int| 0u8));
        }
        k = k + 1;
    }
    push_u16(out, ev_type);
    push_u16(out, code);
    push_u32(out, value as u32);
    proof {
        assert(out@ =~= old(out)@ + event_record(ev_type, code, value));
    }
}

/// The records of a batch of output events.
pub open spec fn events_records(evs: Seq<OutputEvent>) -> Seq<u8>
    decreases evs.len(),
{
    if evs.len() == 0 {
        Seq::empty()
    } else {
        events_records(evs.drop_last()) + event_record(
            evs.last().ev_type,
            evs.last().code,
            evs.last().value,
        )
    }
}

/// The bytes written for a batch of events: each event, then the
/// synchronisation event (`SYN_REPORT`).
pub fn event_stream(events: &[OutputEvent]) -> (res: Vec<u8>)
    ensures
        res@ == events_records(events@) + event_record(0, 0, 0),
{
    let mut out: Vec<u8> = Vec::new();
    let mut i: usize = 0;
    while i < events.len()
        invariant
            i <= events@.len(),
            out@ == events_records(events@.take(i as int)),
        decreases events@.len() - i,
    {
        let ev = events[i];
        push_event(&mut out, ev.ev_type, ev.code, ev.value);
        proof {
            assert(events@.take(i + 1).drop_last() =~= events@.take(i as int));
        }
        i = i + 1;
    }
    proof {
        assert(events@.take(events@.len() as int) =~= events@);
    }
    push_event(&mut out, 0, 0, 0);
    out
}

/// The (type, code, value) of an input event record.
pub open spec fn record_fields(b: Seq<u8>) -> (u16, u16, i32) {
    (
        (b[16] + 256 * b[17]) as u16,
        (b[18] + 256 * b[19]) as u16,
        (b[20] + 256 * b[21] + 65536 * b[22] + 16777216 * b[23]) as u32 as i32,
    )
}

/// Decode the type, code and value of an input event record.
pub fn decode_event(b: &[u8]) -> (res: (u16, u16, i32))
    requires
        b@.len() >= 24,
    ensures
        res == record_fields(b@),
{
    let t: u16 = b[16] as u16 + 256 * (b[17] as u16);
    let c: u16 = b[18] as u16 + 256 * (b[19] as u16);
    let v: u32 = b[20] as u32 + 256 * (b[21] as u32) + 65536 * (b[22] as u32) + 16777216 * (b[23] as u32);
    (t, c, v as i32)
}

/// The keys the virtual gamepad reports.
pub fn gamepad_keys() -> (res: [u16; 15])
    ensures
        res@ == seq![
            BTN_A,
            BTN_B,
            BTN_X,
            BTN_Y,
            BTN_TL,
            BTN_TR,
            BTN_SELECT,
            BTN_START,
            BTN_MODE,
            BTN_THUMBL,
            BTN_THUMBR,
            BTN_GRIPL,
            BTN_GRIPR,
            BTN_GRIPL2,
            BTN_GRIPR2,
        ],
{
    let k: [u16; 15] = [
        BTN_A,
        BTN_B,
        BTN_X,
        BTN_Y,
        BTN_TL,
        BTN_TR,
        BTN_SELECT,
        BTN_START,
        BTN_MODE,
        BTN_THUMBL,
        BTN_THUMBR,
        BTN_GRIPL,
        BTN_GRIPR,
        BTN_GRIPL2,
        BTN_GRIPR2,
    ];
    proof {
        assert(k@ =~= seq![
            BTN_A,
            BTN_B,
            BTN_X,
            BTN_Y,
            BTN_TL,
            BTN_TR,
            BTN_SELECT,
            BTN_START,
            BTN_MODE,
            BTN_THUMBL,
            BTN_THUMBR,
            BTN_GRIPL,
            BTN_GRIPR,
            BTN_GRIPL2,
            BTN_GRIPR2,
        ]);
    }
    k
}

/// The axes the virtual gamepad reports.
pub fn gamepad_axes() -> (res: [u16; 8])
    ensures
        res@ == seq![ABS_X, ABS_Y, ABS_RX, ABS_RY, ABS_Z, ABS_RZ, ABS_HAT0X, ABS_HAT0Y],
{
    let a: [u16; 8] = [ABS_X, ABS_Y, ABS_RX, ABS_RY, ABS_Z, ABS_RZ, ABS_HAT0X, ABS_HAT0Y];
    proof {
        assert(a@ =~= seq![ABS_X, ABS_Y, ABS_RX, ABS_RY, ABS_Z, ABS_RZ, ABS_HAT0X, ABS_HAT0Y]);
    }
    a
}

/// The (minimum, maximum, fuzz, flat) of an axis number: sticks span the
/// signed 16-bit range with fuzz 16 and flat 128, triggers 0-1023, the hat
/// -1 to 1; other axes are all zero.
pub open spec fn axis_setup(a: int) -> (i32, i32, i32, i32) {
    if a == 0 || a == 1 || a == 3 || a == 4 {
        (-32768i32, 32767i32, 16i32, 128i32)
    } else if a == 2 || a == 5 {
        (0i32, 1023i32, 0i32, 0i32)
    } else if a == 0x10 || a == 0x11 {
        (-1i32, 1i32, 0i32, 0i32)
    } else {
        (0i32, 0i32, 0i32, 0i32)
    }
}

fn axis_setup_of(a: usize) -> (res: (i32, i32, i32, i32))
    ensures
        res == axis_setup(a as int),
{
    if a == 0 || a == 1 || a == 3 || a == 4 {
        (-32768, 32767, 16, 128)
    } else if a == 2 || a == 5 {
        (0, 1023, 0, 0)
    } else if a == 0x10 || a == 0x11 {
        (-1, 1, 0, 0)
    } else {
        (0, 0, 0, 0)
    }
}

/// One field (0 maximum, 1 minimum, 2 fuzz, 3 flat) of an axis setup.
pub open spec fn axis_field(a: int, f: int) -> i32 {
    let s = axis_setup(a);
    if f == 0 {
        s.1
    } else if f == 1 {
        s.0
    } else if f == 2 {
        s.2
    } else {
        s.3
    }
}

/// The bytes of the first `n` entries of one 64-entry axis table.
pub open spec fn axis_table(f: int, n: int) -> Seq<u8>
    decreases n,
{
    if n <= 0 {
        Seq::empty()
    } else {
        axis_table(f, n - 1) + le_i32(axis_field(n - 1, f))
    }
}

/// The virtual gamepad's name for a device index.
pub open spec fn gamepad_name(dev_index: nat) -> Seq<char> {
    "Xbox Elite 2 (xbelite2 #"@ + dec_digits(dev_index) + ")"@
}

/// The bytes of a character sequence, each character taken as one byte.
pub open spec fn ascii_bytes(s: Seq<char>) -> Seq<u8> {
    s.map_values(|c: char| c as u8)
}

/// The `struct uinput_user_dev` record: the name in 80 bytes (zero
/// padded), Bluetooth bus, Microsoft vendor, product 0xBE12, version 1, 16
/// effects, then the maximum, minimum, fuzz and flat tables of 64 axes.
pub open spec fn setup_record(dev_index: nat) -> Seq<u8> {
    let name = ascii_bytes(gamepad_name(dev_index));
    name + Seq::new((80 - name.len()) as nat, |i: int| 0u8) + le_u16(0x05) + le_u16(0x045E)
        + le_u16(VIRTUAL_PRODUCT) + le_u16(1) + le_u32(FF_EFFECTS_MAX) + axis_table(0, 64)
        + axis_table(1, 64) + axis_table(2, 64) + axis_table(3, 64)
}

proof fn lemma_dec_len(n: nat)
    ensures
        n < pow10(20) ==> dec_digits(n).len() <= 20,
    decreases n,
{
    lemma_dec_len_k(n, 20);
}

proof fn lemma_dec_len_k(n: nat, k: nat)
    ensures
        k >= 1 && n < pow10(k) ==> dec_digits(n).len() <= k,
    decreases k,
{
    if k >= 1 && n < pow10(k) && n >= 10 {
        assert(k >= 2) by {
            if k == 1 {
                assert(pow10(1) == 10 * pow10(0));
            }
        }
        assert(n / 10 < pow10((k - 1) as nat)) by (nonlinear_arith)
            requires
                n < pow10(k),
                pow10(k) == 10 * pow10((k - 1) as nat),
        ;
        lemma_dec_len_k(n / 10, (k - 1) as nat);
    }
}

/// 10 to the power `k`.
pub open spec fn pow10(k: nat) -> nat
    decreases k,
{
    if k == 0 {
        1
    } else {
        10 * pow10((k - 1) as nat)
    }
}

/// The setup record of the virtual gamepad with index `dev_index`.
pub fn setup_bytes(dev_index: u64) -> (res: Vec<u8>)
    ensures
        res@ == setup_record(dev_index as nat),
{
    let mut name = String::from_str("Xbox Elite 2 (xbelite2 #");
    push_decimal(&mut name, dev_index);
    name.append(")");
    proof {
        reveal_strlit("Xbox Elite 2 (xbelite2 #");
        reveal_strlit(")");
        reveal_with_fuel(pow10, 21);
        lemma_dec_len(dev_index as nat);
        assert(name@ == gamepad_name(dev_index as nat));
        assert(name@.len() <= 45);
    }
    let n = name.unicode_len();
    let mut out: Vec<u8> = Vec::new();
    let mut i: usize = 0;
    while i < n
        invariant
            i <= n,
            n == name@.len(),
            n <= 45,
            name@ == gamepad_name(dev_index as nat),
            out@ == ascii_bytes(name@.take(i as int)),
        decreases n - i,
    {
        let c = name.get_char(i);
        out.push(c as u8);
        proof {
            assert(out@ =~= ascii_bytes(name@.take(i + 1)));
        }
        i = i + 1;
    }
    proof {
        assert(name@.take(n as int) =~= name@);
    }
    let ghost head = out@;
    assert(head == ascii_bytes(gamepad_name(dev_index as nat)));
    let mut z: usize = n;
    while z < 80
        invariant
            n <= z <= 80,
            head.len() == n,
            out@ == head + Seq::new((z - n) as nat, |j: int| 0u8),
        decreases 80 - z,
    {
        out.push(0);
        proof {
            assert(out@ =~= head + Seq::new((z + 1 - n) as nat, |j: int| 0u8));
        }
        z = z + 1;
    }
    push_u16(&mut out, 0x05);
    push_u16(&mut out, 0x045E);
    push_u16(&mut out, VIRTUAL_PRODUCT);
    push_u16(&mut out, 1);
    push_u32(&mut out, FF_EFFECTS_MAX);
    let mut f: usize = 0;
    let ghost base = out@;
    while f < 4
        invariant
            f <= 4,
            out@ == base + tables_upto(f as int),
        decreases 4 - f,
    {
        let ghost before = out@;
        let mut a: usize = 0;
        while a < 64
            invariant
                a <= 64,
                f < 4,
                out@ == before + axis_table(f as int, a as int),
            decreases 64 - a,
        {
            let (mn, mx, fz, fl) = axis_setup_of(a);
            let v: i32 = if f == 0 {
                mx
            } else if f == 1 {
                mn
            } else if f == 2 {
                fz
            } else {
                fl
            };
            push_u32(&mut out, v as u32);
            proof {
                assert(out@ =~= before + axis_table(f as int, a + 1));
            }
            a = a + 1;
        }
        proof {
            assert(out@ =~= base + tables_upto(f + 1));
        }
        f = f + 1;
    }
    proof {
        reveal_with_fuel(tables_upto, 5);
        assert(tables_upto(4) =~= axis_table(0, 64) + axis_table(1, 64) + axis_table(2, 64)
            + axis_table(3, 64));
        assert(head == ascii_bytes(gamepad_name(dev_index as nat)));
        assert(out@ =~= setup_record(dev_index as nat));
    }
    out
}

/// The first `f` axis tables.
pub open spec fn tables_upto(f: int) -> Seq<u8>
    decreases f,
{
    if f <= 0 {
        Seq::empty()
    } else {
        tables_upto(f - 1) + axis_table(f - 1, 64)
    }
}

/// Decoding an event record gives back the event that was encoded.
pub proof fn lemma_event_record_roundtrip(ev_type: u16, code: u16, value: i32)
    ensures
        record_fields(event_record(ev_type, code, value)) == (ev_type, code, value),
{
    let b = event_record(ev_type, code, value);
    let u = value as u32;
    assert(b[16] == (ev_type % 256) as u8 && b[17] == (ev_type / 256) as u8);
    assert(b[18] == (code % 256) as u8 && b[19] == (code / 256) as u8);
    assert(b[20] == (u % 256) as u8 && b[21] == (u / 256 % 256) as u8);
    assert(b[22] == (u / 65536 % 256) as u8 && b[23] == (u / 16777216) as u8);
    assert(ev_type % 256 + 256 * (ev_type / 256) == ev_type) by (nonlinear_arith);
    assert(code % 256 + 256 * (code / 256) == code) by (nonlinear_arith);
    assert(u % 256 + 256 * (u / 256 % 256) + 65536 * (u / 65536 % 256) + 16777216 * (u / 16777216)
        == u) by (nonlinear_arith);
    assert((u as u32) as i32 == value) by (bit_vector)
        requires
            u == value as u32,
    ;
}

} // verus!
