//! Edits of the controller's profile pages.
//!
//! A profile write reads a page (or takes a cached copy of it), changes the
//! bytes the setting lives in and writes the page back. The functions here
//! compute the new page contents; sending them is the caller's part.

use vstd::prelude::*;

use crate::gip_types::{
    button_code, default_curve, default_curve_array, default_ext, default_ext_array,
    default_face, default_face_array, mapping_decodes, spec_color, GipButton, ProfileMapping, FLAGS_DEFAULT, OFF_COLOR_B,
    OFF_COLOR_FLAG, OFF_COLOR_G, OFF_COLOR_R, OFF_DEADZONES, OFF_FACE, OFF_FLAGS, OFF_PADDLES,
    OFF_REMAP_EXT, OFF_STICK_INVERSION, OFF_VIBRATION,
};

verus! {

/// The extended slot whose default output is `code` (codes 0x08..=0x0F).
pub open spec fn spec_ext_slot(code: u8) -> Option<int> {
    if 0x08 <= code && code <= 0x0F {
        Some(code - 0x08)
    } else {
        None
    }
}

/// The extended slot whose default output is `code`.
pub fn ext_slot_for_button(code: u8) -> (res: Option<usize>)
    ensures
        match spec_ext_slot(code) {
            Some(s) => res == Some(s as usize),
            None => res is None,
        },
{
    if 0x08 <= code && code <= 0x0F {
        Some((code - 0x08) as usize)
    } else {
        None
    }
}

/// The page after remapping button `from` to output `to`: a face button
/// (A, B, X, Y) changes its face slot, a button with an extended slot
/// changes that slot, any other button changes nothing.
pub open spec fn remap_edit(d: Seq<u8>, from: GipButton, to: GipButton) -> Seq<u8> {
    let fc = button_code(from);
    let tc = button_code(to);
    if 0x04 <= fc && fc <= 0x07 {
        d.update(5 + (fc - 0x04), tc)
    } else {
        match spec_ext_slot(fc) {
            Some(s) => d.update(9 + s, tc),
            None => d,
        }
    }
}

/// The page after a list of remaps, applied in order.
pub open spec fn remaps_applied(d: Seq<u8>, remaps: Seq<(GipButton, GipButton)>) -> Seq<u8>
    decreases remaps.len(),
{
    if remaps.len() == 0 {
        d
    } else {
        remap_edit(
            remaps_applied(d, remaps.drop_last()),
            remaps.last().0,
            remaps.last().1,
        )
    }
}

/// The page after setting paddle `idx` to output `to` (indices 4 and up change nothing).
pub open spec fn paddle_edit(d: Seq<u8>, idx: int, to: GipButton) -> Seq<u8> {
    if 0 <= idx < 4 {
        d.update(1 + idx, button_code(to))
    } else {
        d
    }
}

/// The page after a list of paddle remaps, applied in order.
pub open spec fn paddles_applied(d: Seq<u8>, remaps: Seq<(usize, GipButton)>) -> Seq<u8>
    decreases remaps.len(),
{
    if remaps.len() == 0 {
        d
    } else {
        paddle_edit(
            paddles_applied(d, remaps.drop_last()),
            remaps.last().0 as int,
            remaps.last().1,
        )
    }
}

/// Remap button `from` to output `to` in a mapping page.
pub fn apply_remap_to_data(data: &mut Vec<u8>, from: GipButton, to: GipButton)
    requires
        old(data)@.len() >= 17,
    ensures
        final(data)@ == remap_edit(old(data)@, from, to),
{
    let fc = from.code();
    let tc = to.code();
    if fc >= 0x04 && fc <= 0x07 {
        data.set(OFF_FACE + (fc - 0x04) as usize, tc);
    } else {
        match ext_slot_for_button(fc) {
            Some(slot) => {
                data.set(OFF_REMAP_EXT + slot, tc);
            },
            None => {},
        }
    }
}

/// Apply a list of remaps to a mapping page, in order.
pub fn apply_remaps(data: &mut Vec<u8>, remaps: &[(GipButton, GipButton)])
    requires
        old(data)@.len() >= 17,
    ensures
        final(data)@ == remaps_applied(old(data)@, remaps@),
{
    let ghost start = data@;
    let mut i: usize = 0;
    while i < remaps.len()
        invariant
            i <= remaps.len(),
            data@.len() == start.len(),
            start.len() >= 17,
            data@ == remaps_applied(start, remaps@.subrange(0, i as int)),
        decreases remaps.len() - i,
    {
        let (from, to) = remaps[i];
        apply_remap_to_data(data, from, to);
        proof {
            let s = remaps@.subrange(0, i + 1);
            assert(s.drop_last() =~= remaps@.subrange(0, i as int));
            assert(s.last() == remaps@[i as int]);
        }
        i = i + 1;
    }
    proof {
        assert(remaps@.subrange(0, remaps.len() as int) =~= remaps@);
    }
}

/// Set paddle `paddle_idx` to output `to` in a mapping page.
pub fn apply_paddle_to_data(data: &mut Vec<u8>, paddle_idx: usize, to: GipButton)
    requires
        old(data)@.len() >= 5,
    ensures
        final(data)@ == paddle_edit(old(data)@, paddle_idx as int, to),
{
    if paddle_idx < 4 {
        data.set(OFF_PADDLES + paddle_idx, to.code());
    }
}

/// Apply a list of paddle remaps to a mapping page, in order.
pub fn apply_paddle_remaps(data: &mut Vec<u8>, remaps: &[(usize, GipButton)])
    requires
        old(data)@.len() >= 5,
    ensures
        final(data)@ == paddles_applied(old(data)@, remaps@),
{
    let ghost start = data@;
    let mut i: usize = 0;
    while i < remaps.len()
        invariant
            i <= remaps.len(),
            data@.len() == start.len(),
            start.len() >= 5,
            data@ == paddles_applied(start, remaps@.subrange(0, i as int)),
        decreases remaps.len() - i,
    {
        let (idx, to) = remaps[i];
        apply_paddle_to_data(data, idx, to);
        proof {
            let s = remaps@.subrange(0, i + 1);
            assert(s.drop_last() =~= remaps@.subrange(0, i as int));
            assert(s.last() == remaps@[i as int]);
        }
        i = i + 1;
    }
    proof {
        assert(remaps@.subrange(0, remaps.len() as int) =~= remaps@);
    }
}

/// Extended slots after removing slot `k`: later slots move up one place
/// and the last slot becomes 0x00 (no output).
pub open spec fn ext_without(ext: Seq<u8>, k: int) -> Seq<u8> {
    ext.subrange(0, k) + ext.subrange(k + 1, 8) + seq![0x00u8]
}

/// The mapping page after assigning (`Some`) or clearing (`None`) the shift
/// modifier. Assigning removes the button from the extended slots (when it
/// has one) and sets flags bit 0; clearing restores the default extended
/// slots and clears flags bit 0.
pub open spec fn shift_edit(d: Seq<u8>, button: Option<GipButton>) -> Seq<u8> {
    match button {
        Some(b) => {
            let e = match spec_ext_slot(button_code(b)) {
                Some(k) => d.subrange(0, 9) + ext_without(d.subrange(9, 17), k) + d.subrange(
                    17,
                    d.len() as int,
                ),
                None => d,
            };
            e.update(0, d[0] | 0x01)
        },
        None => (d.subrange(0, 9) + default_ext() + d.subrange(17, d.len() as int)).update(
            0,
            d[0] & 0xFE,
        ),
    }
}

/// The mapping page with the shift modifier assigned or cleared, from a
/// cached copy of the page; `None` when the copy is shorter than 56 bytes
/// (such a slot is left alone).
pub fn shift_button_page(cached: &[u8], button: Option<GipButton>) -> (res: Option<Vec<u8>>)
    ensures
        cached@.len() < 56 ==> res is None,
        cached@.len() >= 56 ==> (res matches Some(v) && v@ == shift_edit(cached@, button)),
{
    if cached.len() < 56 {
        return None;
    }
    let mut data = crate::gip_types::slice_to_vec(cached);
    let ghost d = cached@;
    match button {
        Some(btn) => {
            match ext_slot_for_button(btn.code()) {
                Some(slot_idx) => {
                    let mut i = slot_idx;
                    while i < 7
                        invariant
                            slot_idx <= i <= 7,
                            slot_idx < 8,
                            data@.len() == d.len(),
                            d.len() >= 56,
                            forall|j: int|
                                0 <= j < data@.len() && !(9 + slot_idx <= j < 9 + i)
                                    ==> #[trigger] data@[j] == d[j],
                            forall|j: int|
                                9 + slot_idx <= j < 9 + i ==> #[trigger] data@[j] == d[j + 1],
                        decreases 7 - i,
                    {
                        let v = data[OFF_REMAP_EXT + i + 1];
                        data.set(OFF_REMAP_EXT + i, v);
                        i = i + 1;
                    }
                    data.set(OFF_REMAP_EXT + 7, 0x00);
                    proof {
                        let k = slot_idx as int;
                        assert(ext_without(d.subrange(9, 17), k).len() == 8);
                        assert(data@ =~= d.subrange(0, 9) + ext_without(d.subrange(9, 17), k)
                            + d.subrange(17, d.len() as int));
                    }
                },
                None => {},
            }
            let f = data[OFF_FLAGS];
            data.set(OFF_FLAGS, (f & !0x01u8) | 0x01);
            proof {
                assert((f & !0x01u8) | 0x01 == f | 0x01) by (bit_vector);
                assert(data@ =~= shift_edit(d, button));
            }
        },
        None => {
            let de = default_ext_array();
            let mut i: usize = 0;
            while i < 8
                invariant
                    i <= 8,
                    data@.len() == d.len(),
                    d.len() >= 56,
                    de@ == default_ext(),
                    forall|j: int|
                        0 <= j < data@.len() && !(9 <= j < 9 + i) ==> #[trigger] data@[j] == d[j],
                    forall|j: int| 9 <= j < 9 + i ==> #[trigger] data@[j] == de@[j - 9],
                decreases 8 - i,
            {
                data.set(OFF_REMAP_EXT + i, de[i]);
                i = i + 1;
            }
            let f = data[OFF_FLAGS];
            data.set(OFF_FLAGS, f & !0x01u8);
            proof {
                assert(f & !0x01u8 == f & 0xFE) by (bit_vector);
                assert(data@ =~= shift_edit(d, button));
            }
        },
    }
    Some(data)
}

/// Set a custom LED color in a mapping page.
pub fn set_page_color(data: &mut Vec<u8>, r: u8, g: u8, b: u8)
    requires
        old(data)@.len() >= 49,
    ensures
        final(data)@ == old(data)@.update(45, 0x00).update(46, r).update(47, g).update(48, b),
{
    data.set(OFF_COLOR_FLAG, 0x00);
    data.set(OFF_COLOR_R, r);
    data.set(OFF_COLOR_G, g);
    data.set(OFF_COLOR_B, b);
}

/// Restore the default (white) LED color in a mapping page.
pub fn reset_page_color(data: &mut Vec<u8>)
    requires
        old(data)@.len() >= 49,
    ensures
        final(data)@ == old(data)@.update(45, 0xFF).update(46, 0).update(47, 0).update(48, 0),
{
    data.set(OFF_COLOR_FLAG, 0xFF);
    data.set(OFF_COLOR_R, 0);
    data.set(OFF_COLOR_G, 0);
    data.set(OFF_COLOR_B, 0);
}

/// Set the four dead zone bytes of a mapping page.
pub fn set_page_deadzones(data: &mut Vec<u8>, lstick: u8, rstick: u8, ltrig: u8, rtrig: u8)
    requires
        old(data)@.len() >= 32,
    ensures
        final(data)@ == old(data)@.update(28, lstick).update(29, rstick).update(30, ltrig).update(
            31,
            rtrig,
        ),
{
    data.set(OFF_DEADZONES, lstick);
    data.set(OFF_DEADZONES + 1, rstick);
    data.set(OFF_DEADZONES + 2, ltrig);
    data.set(OFF_DEADZONES + 3, rtrig);
}

/// Set the vibration bytes of a mapping page.
pub fn set_page_vibration(data: &mut Vec<u8>, left: u8, right: u8)
    requires
        old(data)@.len() >= 51,
    ensures
        final(data)@ == old(data)@.update(49, left).update(50, right),
{
    data.set(OFF_VIBRATION, left);
    data.set(OFF_VIBRATION + 1, right);
}

/// A mapping page with the default paddle, face and extended outputs.
pub open spec fn remaps_reset(d: Seq<u8>) -> Seq<u8> {
    d.subrange(0, 1) + default_face() + default_face() + default_ext() + d.subrange(17, d.len() as int)
}

/// Restore the default paddle, face and extended outputs of a mapping page.
pub fn reset_page_remaps(data: &mut Vec<u8>)
    requires
        old(data)@.len() >= 17,
    ensures
        final(data)@ == remaps_reset(old(data)@),
{
    let ghost d = data@;
    let df = default_face_array();
    let de = default_ext_array();
    let mut i: usize = 0;
    while i < 4
        invariant
            i <= 4,
            data@.len() == d.len(),
            d.len() >= 17,
            df@ == default_face(),
            forall|j: int|
                0 <= j < d.len() && !(1 <= j < 1 + i) && !(5 <= j < 5 + i) ==> #[trigger] data@[j]
                    == d[j],
            forall|j: int| 1 <= j < 1 + i ==> #[trigger] data@[j] == df@[j - 1],
            forall|j: int| 5 <= j < 5 + i ==> #[trigger] data@[j] == df@[j - 5],
        decreases 4 - i,
    {
        data.set(OFF_PADDLES + i, df[i]);
        data.set(OFF_FACE + i, df[i]);
        i = i + 1;
    }
    let mut k: usize = 0;
    while k < 8
        invariant
            k <= 8,
            data@.len() == d.len(),
            d.len() >= 17,
            df@ == default_face(),
            de@ == default_ext(),
            forall|j: int| 0 <= j < d.len() && !(1 <= j < 17) ==> #[trigger] data@[j] == d[j],
            forall|j: int| 1 <= j < 5 ==> #[trigger] data@[j] == df@[j - 1],
            forall|j: int| 5 <= j < 9 ==> #[trigger] data@[j] == df@[j - 5],
            forall|j: int| 9 <= j < 9 + k ==> #[trigger] data@[j] == de@[j - 9],
            forall|j: int| 9 + k <= j < 17 ==> #[trigger] data@[j] == d[j],
        decreases 8 - k,
    {
        data.set(OFF_REMAP_EXT + k, de[k]);
        k = k + 1;
    }
    proof {
        assert(data@ =~= d.subrange(0, 1) + default_face() + default_face() + default_ext()
            + d.subrange(17, d.len() as int));
    }
}

/// The factory-default mapping page.
pub open spec fn spec_factory_mapping() -> Seq<u8> {
    seq![FLAGS_DEFAULT] + default_face() + default_face() + default_ext() + Seq::new(
        11,
        |i: int| 0u8,
    ) + seq![100u8, 100, 100, 100] + seq![
        0xFFu8,
        0x00,
        0xFF,
        0x00,
        0x00,
        0x00,
        0xFF,
        0x00,
        0xFF,
        0x00,
        0x00,
        0x00,
    ] + seq![100u8, 0xFF, 0, 0, 0, 48, 48, 0, 0, 0, 0, 0]
}

/// The factory-default curves page: default flags, the linear curve on all
/// four axes, and zeros (no inversion).
pub open spec fn spec_factory_curves() -> Seq<u8> {
    seq![FLAGS_DEFAULT] + default_curve() + default_curve() + default_curve() + default_curve()
        + Seq::new(18, |i: int| 0u8)
}

fn push_array(v: &mut Vec<u8>, s: &[u8])
    ensures
        final(v)@ == old(v)@ + s@,
{
    let ghost start = v@;
    let mut i: usize = 0;
    while i < s.len()
        invariant
            i <= s.len(),
            v@ == start + s@.subrange(0, i as int),
        decreases s.len() - i,
    {
        v.push(s[i]);
        i = i + 1;
        proof {
            assert(v@ =~= start + s@.subrange(0, i as int));
        }
    }
    proof {
        assert(s@.subrange(0, s.len() as int) =~= s@);
    }
}

fn push_zeros(v: &mut Vec<u8>, n: usize)
    ensures
        final(v)@ == old(v)@ + Seq::new(n as nat, |i: int| 0u8),
{
    let ghost start = v@;
    let mut i: usize = 0;
    while i < n
        invariant
            i <= n,
            v@ == start + Seq::new(i as nat, |j: int| 0u8),
        decreases n - i,
    {
        v.push(0);
        i = i + 1;
        proof {
            assert(v@ =~= start + Seq::new(i as nat, |j: int| 0u8));
        }
    }
}

/// The factory-default mapping page (used by a full profile reset).
pub fn factory_mapping_page() -> (res: Vec<u8>)
    ensures
        res@ == spec_factory_mapping(),
        res@.len() == 56,
{
    let mut m: Vec<u8> = Vec::new();
    m.push(FLAGS_DEFAULT);
    let df = default_face_array();
    push_array(&mut m, &df);
    push_array(&mut m, &df);
    let de = default_ext_array();
    push_array(&mut m, &de);
    push_zeros(&mut m, 11);
    let dz: [u8; 4] = [100, 100, 100, 100];
    push_array(&mut m, &dz);
    let ranges: [u8; 12] = [0xFF, 0x00, 0xFF, 0x00, 0x00, 0x00, 0xFF, 0x00, 0xFF, 0x00, 0x00, 0x00];
    push_array(&mut m, &ranges);
    let tail: [u8; 12] = [100, 0xFF, 0, 0, 0, 48, 48, 0, 0, 0, 0, 0];
    push_array(&mut m, &tail);
    proof {
        assert(dz@ =~= seq![100u8, 100, 100, 100]);
        assert(ranges@ =~= seq![
            0xFFu8,
            0x00,
            0xFF,
            0x00,
            0x00,
            0x00,
            0xFF,
            0x00,
            0xFF,
            0x00,
            0x00,
            0x00,
        ]);
        assert(tail@ =~= seq![100u8, 0xFF, 0, 0, 0, 48, 48, 0, 0, 0, 0, 0]);
        assert(m@ =~= spec_factory_mapping());
    }
    m
}

/// The factory-default curves page (used by a full profile reset).
pub fn factory_curves_page() -> (res: Vec<u8>)
    ensures
        res@ == spec_factory_curves(),
        res@.len() == 43,
{
    let mut c: Vec<u8> = Vec::new();
    c.push(FLAGS_DEFAULT);
    let dc = default_curve_array();
    push_array(&mut c, &dc);
    push_array(&mut c, &dc);
    push_array(&mut c, &dc);
    push_array(&mut c, &dc);
    push_zeros(&mut c, 18);
    proof {
        assert(c@ =~= spec_factory_curves());
    }
    c
}

/// Replace the four stick curves of a curves page.
pub fn set_page_curves(data: &mut Vec<u8>, lx: [u8; 6], ly: [u8; 6], rx: [u8; 6], ry: [u8; 6])
    requires
        old(data)@.len() >= 25,
    ensures
        final(data)@ == old(data)@.subrange(0, 1) + lx@ + ly@ + rx@ + ry@ + old(data)@.subrange(
            25,
            old(data)@.len() as int,
        ),
{
    let ghost d = data@;
    let mut i: usize = 0;
    while i < 6
        invariant
            i <= 6,
            data@.len() == d.len(),
            d.len() >= 25,
            forall|j: int|
                0 <= j < d.len() && !(1 <= j < 1 + i) && !(7 <= j < 7 + i) && !(13 <= j < 13 + i)
                    && !(19 <= j < 19 + i) ==> #[trigger] data@[j] == d[j],
            forall|j: int| 1 <= j < 1 + i ==> #[trigger] data@[j] == lx@[j - 1],
            forall|j: int| 7 <= j < 7 + i ==> #[trigger] data@[j] == ly@[j - 7],
            forall|j: int| 13 <= j < 13 + i ==> #[trigger] data@[j] == rx@[j - 13],
            forall|j: int| 19 <= j < 19 + i ==> #[trigger] data@[j] == ry@[j - 19],
        decreases 6 - i,
    {
        data.set(1 + i, lx[i]);
        data.set(7 + i, ly[i]);
        data.set(13 + i, rx[i]);
        data.set(19 + i, ry[i]);
        i = i + 1;
    }
    proof {
        assert(data@ =~= d.subrange(0, 1) + lx@ + ly@ + rx@ + ry@ + d.subrange(
            25,
            d.len() as int,
        ));
    }
}

/// The stick inversion mask of a curves page, if the page is long enough.
pub fn page_stick_inversion(data: &[u8]) -> (res: Option<u8>)
    ensures
        res == (if data@.len() > 27 {
            Some(data@[27])
        } else {
            None::<u8>
        }),
{
    if data.len() > OFF_STICK_INVERSION {
        Some(data[OFF_STICK_INVERSION])
    } else {
        None
    }
}

/// Set the stick inversion mask of a curves page; returns whether the page
/// was long enough to hold it (a page that is not is left alone and not written).
pub fn set_page_stick_inversion(data: &mut Vec<u8>, mask: u8) -> (written: bool)
    ensures
        written == (old(data)@.len() > 27),
        written ==> final(data)@ == old(data)@.update(27, mask),
        !written ==> final(data)@ == old(data)@,
{
    if data.len() > OFF_STICK_INVERSION {
        data.set(OFF_STICK_INVERSION, mask);
        true
    } else {
        false
    }
}

/// A color written to a mapping page reads back as that color; a reset
/// color reads back as the default.
pub proof fn lemma_color_readback(d: Seq<u8>, r: u8, g: u8, b: u8)
    requires
        d.len() >= 49,
    ensures
        spec_color(d.update(45, 0x00).update(46, r).update(47, g).update(48, b)) == Some(
            (r, g, b),
        ),
        spec_color(d.update(45, 0xFF).update(46, 0).update(47, 0).update(48, 0)) is None,
{
}

/// Remapping a face or extended button changes exactly one byte, the slot
/// of that button, and leaves the page length alone.
pub proof fn lemma_remap_touches_one_slot(d: Seq<u8>, from: GipButton, to: GipButton, j: int)
    requires
        d.len() >= 17,
        0 <= j < d.len(),
    ensures
        remap_edit(d, from, to).len() == d.len(),
        remap_edit(d, from, to)[j] != d[j] ==> (
            (j == 5 + (button_code(from) - 0x04) && 0x04 <= button_code(from) <= 0x07) || (
            spec_ext_slot(button_code(from)) == Some(j - 9))),
{
}

/// Assigning a shift button that has an extended slot removes it from the
/// extended slots, so the default code of that slot no longer appears
/// there and the last slot is empty; clearing the shift button restores
/// the default slots.
pub proof fn lemma_shift_removes_button(d: Seq<u8>, b: GipButton)
    requires
        d.len() >= 56,
        d.subrange(9, 17) == default_ext(),
        spec_ext_slot(button_code(b)) is Some,
    ensures
        !shift_edit(d, Some(b)).subrange(9, 17).contains(button_code(b)),
        shift_edit(d, Some(b))[16] == 0x00,
        shift_edit(d, Some(b))[0] & 0x01 == 0x01,
        shift_edit(d, None).subrange(9, 17) == default_ext(),
        shift_edit(d, None)[0] & 0x01 == 0x00,
{
    let k = spec_ext_slot(button_code(b))->0;
    let e = shift_edit(d, Some(b)).subrange(9, 17);
    assert(e =~= ext_without(default_ext(), k));
    assert forall|j: int| 0 <= j < 8 implies e[j] != button_code(b) by {
        if j < k {
            assert(e[j] == default_ext()[j]);
        } else if j < 7 {
            assert(e[j] == default_ext()[j + 1]);
        }
    }
    let f = d[0];
    assert((f | 0x01) & 0x01 == 0x01) by (bit_vector);
    assert((f & 0xFE) & 0x01 == 0x00) by (bit_vector);
    assert(shift_edit(d, None).subrange(9, 17) =~= default_ext());
}

proof fn lemma_remaps_keep_rest(d: Seq<u8>, rs: Seq<(GipButton, GipButton)>)
    requires
        d.len() >= 17,
    ensures
        remaps_applied(d, rs).len() == d.len(),
        remaps_applied(d, rs)[0] == d[0],
        remaps_applied(d, rs).subrange(17, d.len() as int) == d.subrange(17, d.len() as int),
    decreases rs.len(),
{
    if rs.len() > 0 {
        lemma_remaps_keep_rest(d, rs.drop_last());
        let prev = remaps_applied(d, rs.drop_last());
        assert(remap_edit(prev, rs.last().0, rs.last().1).subrange(17, d.len() as int)
            =~= prev.subrange(17, d.len() as int));
    }
}

proof fn lemma_paddles_keep_rest(d: Seq<u8>, ps: Seq<(usize, GipButton)>)
    requires
        d.len() >= 17,
    ensures
        paddles_applied(d, ps).len() == d.len(),
        paddles_applied(d, ps)[0] == d[0],
        paddles_applied(d, ps).subrange(17, d.len() as int) == d.subrange(17, d.len() as int),
    decreases ps.len(),
{
    if ps.len() > 0 {
        lemma_paddles_keep_rest(d, ps.drop_last());
        let prev = paddles_applied(d, ps.drop_last());
        assert(paddle_edit(prev, ps.last().0 as int, ps.last().1).subrange(17, d.len() as int)
            =~= prev.subrange(17, d.len() as int));
    }
}

/// Resetting the remaps undoes any paddle and button remaps: the page
/// after paddle remaps, button remaps and a reset is the page after the
/// reset alone.
pub proof fn lemma_reset_undoes_remaps(
    d: Seq<u8>,
    ps: Seq<(usize, GipButton)>,
    rs: Seq<(GipButton, GipButton)>,
)
    requires
        d.len() >= 17,
    ensures
        remaps_reset(remaps_applied(paddles_applied(d, ps), rs)) == remaps_reset(d),
{
    lemma_paddles_keep_rest(d, ps);
    let p = paddles_applied(d, ps);
    lemma_remaps_keep_rest(p, rs);
    let q = remaps_applied(p, rs);
    assert(q.subrange(0, 1) =~= d.subrange(0, 1));
    assert(q.subrange(17, q.len() as int) =~= d.subrange(17, d.len() as int));
}

/// Dead zones and vibration written to a mapping page read back as
/// written, and the decoded buttons and color stay as they were.
pub proof fn lemma_settings_read_back(
    d: Seq<u8>,
    dz: (u8, u8, u8, u8),
    left: u8,
    right: u8,
    m: ProfileMapping,
)
    requires
        d.len() >= 56,
        mapping_decodes(
            m,
            d.update(28, dz.0).update(29, dz.1).update(30, dz.2).update(31, dz.3).update(
                49,
                left,
            ).update(50, right),
        ),
    ensures
        m.deadzones@ == seq![dz.0, dz.1, dz.2, dz.3],
        m.vibration == (left, right),
        m.paddles@ == d.subrange(1, 5),
        m.face@ == d.subrange(5, 9),
        m.ext@ == d.subrange(9, 17),
        m.color == spec_color(d),
{
    let e = d.update(28, dz.0).update(29, dz.1).update(30, dz.2).update(31, dz.3).update(49, left).update(
        50,
        right,
    );
    assert(e.subrange(28, 32) =~= seq![dz.0, dz.1, dz.2, dz.3]);
    assert(e.subrange(1, 5) =~= d.subrange(1, 5));
    assert(e.subrange(5, 9) =~= d.subrange(5, 9));
    assert(e.subrange(9, 17) =~= d.subrange(9, 17));
}

} // verus!
