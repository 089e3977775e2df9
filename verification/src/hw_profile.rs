//! In-memory snapshot of the three hardware profiles stored on the controller.

use vstd::prelude::*;

use crate::gip_types::{
    default_ext, default_ext_array, default_face, default_face_array, mapping_decodes, spec_color,
    spec_saturation, ProfileCurves, ProfileMapping, FLAGS_DEFAULT,
};

verus! {

/// One hardware profile, as read from its mapping pages (normal and shift)
/// and its curves page.
#[derive(Debug)]
pub struct HwProfile {
    /// Paddle outputs (bytes 1-4): `[P1, P2, P3, P4]`.
    pub paddles: [u8; 4],
    /// Face button outputs (bytes 5-8): `[A, B, X, Y]`.
    pub face: [u8; 4],
    /// Extended outputs (bytes 9-16).
    pub ext: [u8; 8],
    /// Shift-page paddle outputs.
    pub shift_paddles: [u8; 4],
    /// Shift-page face outputs.
    pub shift_face: [u8; 4],
    /// Shift-page extended outputs.
    pub shift_ext: [u8; 8],
    /// Reserved region (bytes 17-27).
    pub reserved: [u8; 11],
    /// Per-motor rumble intensity at bytes 28-31: `[weak, strong, RT, LT]` (0-100).
    pub rumble_intensity: [u8; 4],
    /// Per-axis saturation at bytes 32, 34, 38, 40: `[LT, LS, RT, RS]`.
    pub saturation: [u8; 4],
    /// `None` = default white.
    pub color: Option<(u8, u8, u8)>,
    /// LED brightness (0-100).
    pub brightness: u8,
    /// Stick inversion bitmask (bit0 = LY, bit1 = RY) from curves byte 27.
    pub stick_inversion: u8,
    /// Vibration `(left, right)`.
    pub vibration: (u8, u8),
}

impl Clone for HwProfile {
    fn clone(&self) -> (res: Self)
        ensures
            res == *self,
    {
        HwProfile {
            paddles: self.paddles,
            face: self.face,
            ext: self.ext,
            shift_paddles: self.shift_paddles,
            shift_face: self.shift_face,
            shift_ext: self.shift_ext,
            reserved: self.reserved,
            rumble_intensity: self.rumble_intensity,
            saturation: self.saturation,
            color: self.color,
            brightness: self.brightness,
            stick_inversion: self.stick_inversion,
            vibration: self.vibration,
        }
    }
}

/// `n` zero bytes.
pub open spec fn zeros(n: nat) -> Seq<u8> {
    Seq::new(n, |i: int| 0u8)
}

/// Whether `p` is the all-zero profile (no color, no outputs assigned).
pub open spec fn is_zero_profile(p: HwProfile) -> bool {
    &&& p.paddles@ == zeros(4)
    &&& p.face@ == zeros(4)
    &&& p.ext@ == zeros(8)
    &&& p.shift_paddles@ == zeros(4)
    &&& p.shift_face@ == zeros(4)
    &&& p.shift_ext@ == zeros(8)
    &&& p.reserved@ == zeros(11)
    &&& p.rumble_intensity@ == zeros(4)
    &&& p.saturation@ == zeros(4)
    &&& p.color is None
    &&& p.brightness == 0
    &&& p.stick_inversion == 0
    &&& p.vibration == (0u8, 0u8)
}

impl Default for HwProfile {
    fn default() -> (res: Self)
        ensures
            is_zero_profile(res),
    {
        let p = HwProfile {
            paddles: [0u8; 4],
            face: [0u8; 4],
            ext: [0u8; 8],
            shift_paddles: [0u8; 4],
            shift_face: [0u8; 4],
            shift_ext: [0u8; 8],
            reserved: [0u8; 11],
            rumble_intensity: [0u8; 4],
            saturation: [0u8; 4],
            color: None,
            brightness: 0,
            stick_inversion: 0,
            vibration: (0, 0),
        };
        proof {
            assert(p.paddles@ =~= zeros(4));
            assert(p.face@ =~= zeros(4));
            assert(p.ext@ =~= zeros(8));
            assert(p.shift_paddles@ =~= zeros(4));
            assert(p.shift_face@ =~= zeros(4));
            assert(p.shift_ext@ =~= zeros(8));
            assert(p.reserved@ =~= zeros(11));
            assert(p.rumble_intensity@ =~= zeros(4));
            assert(p.saturation@ =~= zeros(4));
        }
        p
    }
}

/// Snapshot of the three hardware profiles.
#[derive(Debug)]
pub struct HwProfileCache {
    pub profiles: [HwProfile; 3],
}

impl Default for HwProfileCache {
    fn default() -> (res: Self)
        ensures
            forall|i: int| 0 <= i < 3 ==> is_zero_profile(#[trigger] res.profiles[i]),
    {
        HwProfileCache { profiles: [HwProfile::default(), HwProfile::default(), HwProfile::default()] }
    }
}

impl Clone for HwProfileCache {
    fn clone(&self) -> (res: Self)
        ensures
            res == *self,
    {
        let r = HwProfileCache {
            profiles: [self.profiles[0].clone(), self.profiles[1].clone(), self.profiles[2].clone()],
        };
        proof {
            assert(r.profiles =~= self.profiles);
        }
        r
    }
}

/// Default paddle outputs used when a cached profile lacks them.
pub fn default_paddles() -> (res: [u8; 4])
    ensures
        res@ == default_face(),
{
    default_face_array()
}

/// Default saturation (full analog range on every axis).
pub fn default_saturation() -> (res: [u8; 4])
    ensures
        res@ == seq![0xFFu8, 0xFF, 0xFF, 0xFF],
{
    let r: [u8; 4] = [0xFF; 4];
    proof {
        assert(r@ =~= seq![0xFFu8, 0xFF, 0xFF, 0xFF]);
    }
    r
}

/// Default rumble intensity (100 on every motor).
pub fn default_rumble_intensity() -> (res: [u8; 4])
    ensures
        res@ == seq![100u8, 100, 100, 100],
{
    let r: [u8; 4] = [100; 4];
    proof {
        assert(r@ =~= seq![100u8, 100, 100, 100]);
    }
    r
}

/// The four color bytes of a page (flag, R, G, B).
pub open spec fn color_bytes(c: Option<(u8, u8, u8)>) -> Seq<u8> {
    match c {
        Some((r, g, b)) => seq![0x00u8, r, g, b],
        None => seq![0xFFu8, 0, 0, 0],
    }
}

/// The 56-byte mapping page a profile is written back as, with the given
/// paddle, face and extended outputs.
pub open spec fn spec_page(p: HwProfile, paddles: Seq<u8>, face: Seq<u8>, ext: Seq<u8>) -> Seq<u8> {
    seq![FLAGS_DEFAULT] + paddles + face + ext + p.reserved@ + p.rumble_intensity@ + seq![
        p.saturation[0],
        0u8,
        p.saturation[1],
        0,
        0,
        0,
        p.saturation[2],
        0,
        p.saturation[3],
        0,
        0,
        0,
    ] + seq![p.brightness] + color_bytes(p.color) + seq![p.vibration.0, p.vibration.1] + seq![
        0u8,
        0,
        0,
        0,
        0,
    ]
}

/// The normal-mode (slot A) mapping page of a profile.
pub open spec fn spec_slot_a(p: HwProfile) -> Seq<u8> {
    spec_page(p, p.paddles@, p.face@, p.ext@)
}

/// The shift-mode (slot B) mapping page of a profile.
pub open spec fn spec_slot_b(p: HwProfile) -> Seq<u8> {
    spec_page(p, p.shift_paddles@, p.shift_face@, p.shift_ext@)
}

/// The parts of a profile that do not come straight from the normal page:
/// the reserved bytes, the shift outputs and the inversion mask.
pub open spec fn spec_from_pages(
    m: ProfileMapping,
    c: Option<ProfileCurves>,
    s: Option<ProfileMapping>,
) -> (Seq<u8>, Seq<u8>, Seq<u8>, Seq<u8>, u8) {
    let reserved = if m.raw@.len() >= 28 {
        m.raw@.subrange(17, 28)
    } else {
        zeros(11)
    };
    let inv: u8 = match c {
        Some(cv) => if cv.raw@.len() > 27 {
            cv.raw@[27]
        } else {
            0
        },
        None => 0,
    };
    let (sp, sf, se) = match s {
        Some(sv) => (sv.paddles@, sv.face@, sv.ext@),
        None => (default_face(), default_face(), default_ext()),
    };
    (reserved, sp, sf, se, inv)
}

/// Whether `p` is the profile decoded from a normal page `m`, an optional
/// curves page `c` and an optional shift page `s`.
pub open spec fn from_pages_holds(
    p: HwProfile,
    m: ProfileMapping,
    c: Option<ProfileCurves>,
    s: Option<ProfileMapping>,
) -> bool {
    let (reserved, sp, sf, se, inv) = spec_from_pages(m, c, s);
    &&& p.paddles@ == m.paddles@
    &&& p.face@ == m.face@
    &&& p.ext@ == m.ext@
    &&& p.shift_paddles@ == sp
    &&& p.shift_face@ == sf
    &&& p.shift_ext@ == se
    &&& p.reserved@ == reserved
    &&& p.rumble_intensity@ == m.deadzones@
    &&& p.saturation@ == m.saturation@
    &&& p.color == m.color
    &&& p.brightness == m.brightness
    &&& p.stick_inversion == inv
    &&& p.vibration == m.vibration
}

/// Whether two byte arrays differ.
fn differs(a: &[u8], b: &[u8]) -> (res: bool)
    requires
        a.len() == b.len(),
    ensures
        res == (a@ != b@),
{
    let mut i: usize = 0;
    while i < a.len()
        invariant
            a.len() == b.len(),
            i <= a.len(),
            forall|j: int| 0 <= j < i ==> a@[j] == b@[j],
        decreases a.len() - i,
    {
        if a[i] != b[i] {
            return true;
        }
        i = i + 1;
    }
    proof {
        assert(a@ =~= b@);
    }
    false
}

/// Append the bytes of a slice to a vector.
fn push_all(v: &mut Vec<u8>, s: &[u8])
    ensures
        final(v)@ == old(v)@ + s@,
{
    let mut i: usize = 0;
    let ghost start = v@;
    while i < s.len()
        invariant
            i <= s.len(),
            v@ == start + s@.subrange(0, i as int),
        decreases s.len() - i,
    {
        v.push(s[i]);
        i = i + 1;
        proof {
            assert(v@ =~= start + s@.subrange(0, i as int));
        }
    }
    proof {
        assert(s@.subrange(0, s.len() as int) =~= s@);
    }
}

impl HwProfile {
    /// Whether extended slot `index` holds something other than its default.
    pub fn is_ext_remapped(&self, index: usize) -> (res: bool)
        ensures
            res == (index < 8 && self.ext@[index as int] != default_ext()[index as int]),
    {
        if index >= 8 {
            return false;
        }
        let d = default_ext_array();
        self.ext[index] != d[index]
    }

    /// Whether face slot `index` holds something other than its default.
    pub fn is_face_remapped(&self, index: usize) -> (res: bool)
        ensures
            res == (index < 4 && self.face@[index as int] != default_face()[index as int]),
    {
        if index >= 4 {
            return false;
        }
        let d = default_face_array();
        self.face[index] != d[index]
    }

    /// Whether any face, paddle or extended output differs from the default.
    pub fn has_any_remap(&self) -> (res: bool)
        ensures
            res == (self.face@ != default_face() || self.paddles@ != default_face() || self.ext@
                != default_ext()),
    {
        let df = default_face_array();
        let de = default_ext_array();
        differs(&self.face, &df) || differs(&self.paddles, &df) || differs(&self.ext, &de)
    }

    /// Whether any paddle output differs from the default.
    pub fn has_paddle_remaps(&self) -> (res: bool)
        ensures
            res == (self.paddles@ != default_face()),
    {
        let df = default_face_array();
        differs(&self.paddles, &df)
    }

    fn page_bytes(&self, paddles: &[u8; 4], face: &[u8; 4], ext: &[u8; 8]) -> (res: Vec<u8>)
        ensures
            res@ == spec_page(*self, paddles@, face@, ext@),
    {
        let mut data: Vec<u8> = Vec::new();
        data.push(FLAGS_DEFAULT);
        push_all(&mut data, paddles);
        push_all(&mut data, face);
        push_all(&mut data, ext);
        push_all(&mut data, &self.reserved);
        push_all(&mut data, &self.rumble_intensity);
        // Axis saturation; the high byte of each u16 field is always 0.
        data.push(self.saturation[0]);
        data.push(0);
        data.push(self.saturation[1]);
        data.push(0);
        data.push(0);
        data.push(0);
        data.push(self.saturation[2]);
        data.push(0);
        data.push(self.saturation[3]);
        data.push(0);
        data.push(0);
        data.push(0);
        data.push(self.brightness);
        match self.color {
            Some((r, g, b)) => {
                data.push(0x00);
                data.push(r);
                data.push(g);
                data.push(b);
            },
            None => {
                data.push(0xFF);
                data.push(0);
                data.push(0);
                data.push(0);
            },
        }
        data.push(self.vibration.0);
        data.push(self.vibration.1);
        data.push(0);
        data.push(0);
        data.push(0);
        data.push(0);
        data.push(0);
        proof {
            assert(data@ =~= spec_page(*self, paddles@, face@, ext@));
        }
        data
    }

    /// Reconstruct the raw 56-byte normal (slot A) mapping page.
    pub fn to_slot_a_bytes(&self) -> (res: Vec<u8>)
        ensures
            res@ == spec_slot_a(*self),
    {
        self.page_bytes(&self.paddles, &self.face, &self.ext)
    }

    /// Reconstruct the raw 56-byte shift (slot B) mapping page.
    pub fn to_slot_b_bytes(&self) -> (res: Vec<u8>)
        ensures
            res@ == spec_slot_b(*self),
    {
        self.page_bytes(&self.shift_paddles, &self.shift_face, &self.shift_ext)
    }

    /// The profile decoded from a normal mapping page, the curves page (for
    /// the stick inversion) and the shift mapping page, where read.
    pub fn from_pages(
        mapping: &ProfileMapping,
        curves: Option<&ProfileCurves>,
        shift: Option<&ProfileMapping>,
    ) -> (res: HwProfile)
        ensures
            from_pages_holds(
                res,
                *mapping,
                match curves {
                    Some(c) => Some(*c),
                    None => None,
                },
                match shift {
                    Some(s) => Some(*s),
                    None => None,
                },
            ),
    {
        let mut reserved = [0u8; 11];
        if mapping.raw.len() >= 28 {
            let mut i: usize = 0;
            while i < 11
                invariant
                    mapping.raw@.len() >= 28,
                    i <= 11,
                    forall|j: int| 0 <= j < i ==> reserved@[j] == mapping.raw@[17 + j],
                    forall|j: int| i <= j < 11 ==> reserved@[j] == 0,
                decreases 11 - i,
            {
                reserved[i] = mapping.raw[17 + i];
                i = i + 1;
            }
            proof {
                assert(reserved@ =~= mapping.raw@.subrange(17, 28));
            }
        } else {
            proof {
                assert(reserved@ =~= zeros(11));
            }
        }
        let stick_inversion: u8 = match curves {
            Some(c) => if c.raw.len() > 27 {
                c.raw[27]
            } else {
                0
            },
            None => 0,
        };
        let (shift_p, shift_f, shift_e) = match shift {
            Some(s) => (s.paddles, s.face, s.ext),
            None => (default_face_array(), default_face_array(), default_ext_array()),
        };
        HwProfile {
            paddles: mapping.paddles,
            face: mapping.face,
            ext: mapping.ext,
            shift_paddles: shift_p,
            shift_face: shift_f,
            shift_ext: shift_e,
            reserved,
            rumble_intensity: mapping.deadzones,
            saturation: mapping.saturation,
            color: mapping.color,
            brightness: mapping.brightness,
            stick_inversion,
            vibration: mapping.vibration,
        }
    }
}

/// A reconstructed page is a well-formed mapping page: 56 bytes, default
/// flags, and every field of the profile where the page layout puts it.
pub proof fn lemma_page_layout(p: HwProfile, paddles: Seq<u8>, face: Seq<u8>, ext: Seq<u8>)
    requires
        paddles.len() == 4,
        face.len() == 4,
        ext.len() == 8,
    ensures
        spec_page(p, paddles, face, ext).len() == 56,
        spec_page(p, paddles, face, ext)[0] == FLAGS_DEFAULT,
        spec_page(p, paddles, face, ext).subrange(1, 5) == paddles,
        spec_page(p, paddles, face, ext).subrange(5, 9) == face,
        spec_page(p, paddles, face, ext).subrange(9, 17) == ext,
        spec_page(p, paddles, face, ext).subrange(17, 28) == p.reserved@,
        spec_page(p, paddles, face, ext).subrange(28, 32) == p.rumble_intensity@,
        spec_saturation(spec_page(p, paddles, face, ext)) == p.saturation@,
        spec_page(p, paddles, face, ext)[44] == p.brightness,
        spec_color(spec_page(p, paddles, face, ext)) == p.color,
        spec_page(p, paddles, face, ext)[49] == p.vibration.0,
        spec_page(p, paddles, face, ext)[50] == p.vibration.1,
{
    let d = spec_page(p, paddles, face, ext);
    assert(d.len() == 56);
    assert(d.subrange(1, 5) =~= paddles);
    assert(d.subrange(5, 9) =~= face);
    assert(d.subrange(9, 17) =~= ext);
    assert(d.subrange(17, 28) =~= p.reserved@);
    assert(d.subrange(28, 32) =~= p.rumble_intensity@);
    assert(spec_saturation(d) =~= p.saturation@);
    match p.color {
        Some((r, g, b)) => {
            assert(d[45] == 0x00);
            assert(d[46] == r && d[47] == g && d[48] == b);
        },
        None => {
            assert(d[45] == 0xFF);
        },
    }
}

/// Writing a cached profile back as its normal and shift pages and reading
/// those pages (with a curves page carrying its inversion mask) gives the
/// same profile back.
pub proof fn lemma_cache_roundtrip(
    p: HwProfile,
    m: ProfileMapping,
    c: ProfileCurves,
    s: ProfileMapping,
    q: HwProfile,
)
    requires
        mapping_decodes(m, spec_slot_a(p)),
        mapping_decodes(s, spec_slot_b(p)),
        c.raw@.len() > 27,
        c.raw@[27] == p.stick_inversion,
        from_pages_holds(q, m, Some(c), Some(s)),
    ensures
        q.paddles@ == p.paddles@,
        q.face@ == p.face@,
        q.ext@ == p.ext@,
        q.shift_paddles@ == p.shift_paddles@,
        q.shift_face@ == p.shift_face@,
        q.shift_ext@ == p.shift_ext@,
        q.reserved@ == p.reserved@,
        q.rumble_intensity@ == p.rumble_intensity@,
        q.saturation@ == p.saturation@,
        q.color == p.color,
        q.brightness == p.brightness,
        q.stick_inversion == p.stick_inversion,
        q.vibration == p.vibration,
{
    lemma_page_layout(p, p.paddles@, p.face@, p.ext@);
    lemma_page_layout(p, p.shift_paddles@, p.shift_face@, p.shift_ext@);
}

} // verus!
