//! Page edits of the first read/write tool, which used an earlier reading
//! of the mapping page: two face slots (A at bytes 1-4, B at bytes 5-8),
//! the extended slots at 9-16, dead zones at 29-32, the color flag at 44
//! with the color at 45-47, and vibration at 49-50.

use vstd::prelude::*;

use crate::gip_types::{button_code, default_ext, default_ext_array, default_face, default_face_array, GipButton};

verus! {

/// Flags byte.
pub const L_OFF_FLAGS: usize = 0;

/// Face slot A.
pub const L_OFF_REMAP_A: usize = 1;

/// Face slot B.
pub const L_OFF_REMAP_B: usize = 5;

/// Extended slots.
pub const L_OFF_REMAP_EXT: usize = 9;

/// Dead zones: left stick, right stick, left trigger, right trigger.
pub const L_OFF_DEADZONES: usize = 29;

/// Color flag: 0xFF default, 0x00 custom.
pub const L_OFF_COLOR_FLAG: usize = 44;

/// Red (green and blue follow).
pub const L_OFF_COLOR_R: usize = 45;

/// Vibration: left, right.
pub const L_OFF_VIBRATION: usize = 49;

/// The page after one remap in slot `slot` (0 uses face slot A, 1 face slot
/// B): a face button's slot or an extended button's slot gets the target
/// code.
pub open spec fn legacy_remap_one(d: Seq<u8>, slot: int, from: GipButton, to: GipButton) -> Seq<u8> {
    let c = button_code(from);
    if 0x04 <= c <= 0x07 {
        let off = if slot == 0 {
            1int
        } else {
            5
        };
        d.update(off + c - 0x04, button_code(to))
    } else {
        d.update(9 + c - 0x08, button_code(to))
    }
}

/// The page after the first `n` remaps, in order.
pub open spec fn legacy_remaps(d: Seq<u8>, slot: int, pairs: Seq<(GipButton, GipButton)>, n: int) -> Seq<u8>
    decreases n,
{
    if n <= 0 {
        d
    } else {
        legacy_remap_one(legacy_remaps(d, slot, pairs, n - 1), slot, pairs[n - 1].0, pairs[n - 1].1)
    }
}

proof fn lemma_legacy_remaps_len(d: Seq<u8>, slot: int, pairs: Seq<(GipButton, GipButton)>, n: int)
    requires
        0 <= n <= pairs.len(),
        d.len() >= 17,
    ensures
        legacy_remaps(d, slot, pairs, n).len() == d.len(),
    decreases n,
{
    if n > 0 {
        lemma_legacy_remaps_len(d, slot, pairs, n - 1);
    }
}

/// A mapping page with the remaps applied in slot `slot` and the flags set
/// to custom (0x10).
pub fn legacy_remap_page(data: &[u8], slot: usize, pairs: &[(GipButton, GipButton)]) -> (res: Vec<u8>)
    requires
        data@.len() >= 17,
    ensures
        res@ == legacy_remaps(data@, slot as int, pairs@, pairs@.len() as int).update(0, 0x10),
{
    let mut v = crate::gip_types::slice_to_vec(data);
    let mut i: usize = 0;
    while i < pairs.len()
        invariant
            i <= pairs@.len(),
            data@.len() >= 17,
            v@ == legacy_remaps(data@, slot as int, pairs@, i as int),
        decreases pairs@.len() - i,
    {
        proof {
            lemma_legacy_remaps_len(data@, slot as int, pairs@, i as int);
        }
        let (from, to) = pairs[i];
        let c = from.code();
        if 0x04 <= c && c <= 0x07 {
            let off: usize = if slot == 0 {
                L_OFF_REMAP_A
            } else {
                L_OFF_REMAP_B
            };
            v.set(off + (c - 0x04) as usize, to.code());
        } else {
            v.set(L_OFF_REMAP_EXT + (c - 0x08) as usize, to.code());
        }
        i = i + 1;
    }
    proof {
        lemma_legacy_remaps_len(data@, slot as int, pairs@, pairs@.len() as int);
    }
    v.set(L_OFF_FLAGS, 0x10);
    v
}

/// A mapping page with both face slots and the extended slots back to the
/// default buttons.
pub fn legacy_reset_remaps_page(data: &[u8]) -> (res: Vec<u8>)
    requires
        data@.len() >= 17,
    ensures
        res@ == data@.subrange(0, 1) + default_face() + default_face() + default_ext()
            + data@.subrange(17, data@.len() as int),
{
    let mut v = crate::gip_types::slice_to_vec(data);
    let df = default_face_array();
    let de = default_ext_array();
    let mut i: usize = 0;
    while i < 4
        invariant
            i <= 4,
            v@.len() == data@.len(),
            data@.len() >= 17,
            df@ == default_face(),
            forall|j: int| 0 <= j < v@.len() && !(1 <= j < 1 + i) && !(5 <= j < 5 + i) ==> #[trigger] v@[j] == data@[j],
            forall|j: int| 0 <= j < i ==> v@[1 + j] == df@[j] && v@[5 + j] == df@[j],
        decreases 4 - i,
    {
        v.set(L_OFF_REMAP_A + i, df[i]);
        v.set(L_OFF_REMAP_B + i, df[i]);
        i = i + 1;
    }
    let mut k: usize = 0;
    while k < 8
        invariant
            k <= 8,
            v@.len() == data@.len(),
            data@.len() >= 17,
            df@ == default_face(),
            de@ == default_ext(),
            forall|j: int| 0 <= j < v@.len() && !(1 <= j < 9 + k) ==> #[trigger] v@[j] == data@[j],
            forall|j: int| 0 <= j < 4 ==> v@[1 + j] == df@[j] && v@[5 + j] == df@[j],
            forall|j: int| 0 <= j < k ==> v@[9 + j] == de@[j],
        decreases 8 - k,
    {
        v.set(L_OFF_REMAP_EXT + k, de[k]);
        k = k + 1;
    }
    proof {
        assert(v@ =~= data@.subrange(0, 1) + default_face() + default_face() + default_ext()
            + data@.subrange(17, data@.len() as int));
    }
    v
}

/// A mapping page with a custom color.
pub fn legacy_color_page(data: &[u8], r: u8, g: u8, b: u8) -> (res: Vec<u8>)
    requires
        data@.len() >= 48,
    ensures
        res@ == data@.update(44, 0x00).update(45, r).update(46, g).update(47, b),
{
    let mut v = crate::gip_types::slice_to_vec(data);
    v.set(L_OFF_COLOR_FLAG, 0x00);
    v.set(L_OFF_COLOR_R, r);
    v.set(L_OFF_COLOR_R + 1, g);
    v.set(L_OFF_COLOR_R + 2, b);
    v
}

/// A value capped at 100.
pub open spec fn cap(v: u8) -> u8 {
    if v > 100 {
        100
    } else {
        v
    }
}

fn cap_exec(v: u8) -> (res: u8)
    ensures
        res == cap(v),
{
    if v > 100 {
        100
    } else {
        v
    }
}

/// A mapping page with dead zones, each capped at 100.
pub fn legacy_deadzone_page(data: &[u8], lstick: u8, rstick: u8, ltrigger: u8, rtrigger: u8) -> (res: Vec<u8>)
    requires
        data@.len() >= 33,
    ensures
        res@ == data@.update(29, cap(lstick)).update(30, cap(rstick)).update(31, cap(ltrigger)).update(
            32,
            cap(rtrigger),
        ),
{
    let mut v = crate::gip_types::slice_to_vec(data);
    v.set(L_OFF_DEADZONES, cap_exec(lstick));
    v.set(L_OFF_DEADZONES + 1, cap_exec(rstick));
    v.set(L_OFF_DEADZONES + 2, cap_exec(ltrigger));
    v.set(L_OFF_DEADZONES + 3, cap_exec(rtrigger));
    v
}

/// A mapping page with vibration levels, each capped at 100.
pub fn legacy_vibration_page(data: &[u8], left: u8, right: u8) -> (res: Vec<u8>)
    requires
        data@.len() >= 51,
    ensures
        res@ == data@.update(49, cap(left)).update(50, cap(right)),
{
    let mut v = crate::gip_types::slice_to_vec(data);
    v.set(L_OFF_VIBRATION, cap_exec(left));
    v.set(L_OFF_VIBRATION + 1, cap_exec(right));
    v
}

/// What the first tool shows of a mapping page.
#[derive(Debug)]
pub struct LegacyMapping {
    pub flags: u8,
    pub face_a: [u8; 4],
    pub face_b: [u8; 4],
    pub ext: [u8; 8],
    pub deadzones: [u8; 4],
    /// `None` when the color flag is 0xFF (default white).
    pub color: Option<(u8, u8, u8)>,
    pub vibration: (u8, u8),
    /// Whether the flags differ from the default 0x11.
    pub customized: bool,
}

/// Whether `m` is what the first tool reads from page `d`.
pub open spec fn legacy_mapping_of(m: LegacyMapping, d: Seq<u8>) -> bool {
    &&& m.flags == d[0]
    &&& m.face_a@ == d.subrange(1, 5)
    &&& m.face_b@ == d.subrange(5, 9)
    &&& m.ext@ == d.subrange(9, 17)
    &&& m.deadzones@ == d.subrange(29, 33)
    &&& m.color == (if d[44] == 0xFF {
        None
    } else {
        Some((d[45], d[46], d[47]))
    })
    &&& m.vibration == (d[49], d[50])
    &&& m.customized == (d[0] != 0x11)
}

fn copy4(d: &[u8], at: usize) -> (res: [u8; 4])
    requires
        at + 4 <= d@.len(),
    ensures
        res@ == d@.subrange(at as int, at + 4),
{
    let r: [u8; 4] = [d[at], d[at + 1], d[at + 2], d[at + 3]];
    proof {
        assert(r@ =~= d@.subrange(at as int, at + 4));
    }
    r
}

/// Read a mapping page of the first tool's layout; none when shorter than
/// 56 bytes.
pub fn legacy_mapping(data: &[u8]) -> (res: Option<LegacyMapping>)
    ensures
        data@.len() < 56 ==> res is None,
        data@.len() >= 56 ==> (res matches Some(m) && legacy_mapping_of(m, data@)),
{
    if data.len() < 56 {
        return None;
    }
    let ext: [u8; 8] = [data[9], data[10], data[11], data[12], data[13], data[14], data[15], data[16]];
    proof {
        assert(ext@ =~= data@.subrange(9, 17));
    }
    let color = if data[L_OFF_COLOR_FLAG] == 0xFF {
        None
    } else {
        Some((data[45], data[46], data[47]))
    };
    Some(
        LegacyMapping {
            flags: data[0],
            face_a: copy4(data, 1),
            face_b: copy4(data, 5),
            ext,
            deadzones: copy4(data, 29),
            color,
            vibration: (data[49], data[50]),
            customized: data[0] != 0x11,
        },
    )
}

} // verus!
