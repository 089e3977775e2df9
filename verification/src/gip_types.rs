//! GIP button codes and the layout of the controller's profile pages.

use vstd::prelude::*;
use vstd::string::StringSliceAdditionalSpecFns;

verus! {

/// GIP button remap codes (hardware level).
#[derive(Debug, Clone, Copy, PartialEq, Eq, Structural)]
pub enum GipButton {
    A,
    B,
    X,
    Y,
    DUp,
    DDown,
    DLeft,
    DRight,
    LB,
    RB,
    /// Left stick click.
    LS,
    /// Right stick click.
    RS,
}

/// The remap code of a button.
pub open spec fn button_code(b: GipButton) -> u8 {
    match b {
        GipButton::A => 0x04,
        GipButton::B => 0x05,
        GipButton::X => 0x06,
        GipButton::Y => 0x07,
        GipButton::DUp => 0x08,
        GipButton::DDown => 0x09,
        GipButton::DLeft => 0x0A,
        GipButton::DRight => 0x0B,
        GipButton::LB => 0x0C,
        GipButton::RB => 0x0D,
        GipButton::LS => 0x0E,
        GipButton::RS => 0x0F,
    }
}

/// The button with a given remap code, if any.
pub open spec fn button_of_code(code: u8) -> Option<GipButton> {
    if code == 0x04 {
        Some(GipButton::A)
    } else if code == 0x05 {
        Some(GipButton::B)
    } else if code == 0x06 {
        Some(GipButton::X)
    } else if code == 0x07 {
        Some(GipButton::Y)
    } else if code == 0x08 {
        Some(GipButton::DUp)
    } else if code == 0x09 {
        Some(GipButton::DDown)
    } else if code == 0x0A {
        Some(GipButton::DLeft)
    } else if code == 0x0B {
        Some(GipButton::DRight)
    } else if code == 0x0C {
        Some(GipButton::LB)
    } else if code == 0x0D {
        Some(GipButton::RB)
    } else if code == 0x0E {
        Some(GipButton::LS)
    } else if code == 0x0F {
        Some(GipButton::RS)
    } else {
        None
    }
}

/// The display name of a button, as characters.
pub open spec fn button_name(b: GipButton) -> Seq<char> {
    match b {
        GipButton::A => seq!['A'],
        GipButton::B => seq!['B'],
        GipButton::X => seq!['X'],
        GipButton::Y => seq!['Y'],
        GipButton::DUp => seq!['D', 'U', 'p'],
        GipButton::DDown => seq!['D', 'D', 'o', 'w', 'n'],
        GipButton::DLeft => seq!['D', 'L', 'e', 'f', 't'],
        GipButton::DRight => seq!['D', 'R', 'i', 'g', 'h', 't'],
        GipButton::LB => seq!['L', 'B'],
        GipButton::RB => seq!['R', 'B'],
        GipButton::LS => seq!['L', 'S'],
        GipButton::RS => seq!['R', 'S'],
    }
}

/// ASCII lower-casing of one byte.
pub open spec fn ascii_lower(c: u8) -> u8 {
    if 0x41 <= c && c <= 0x5A {
        (c + 32) as u8
    } else {
        c
    }
}

/// ASCII lower-casing of a byte string.
pub open spec fn lower_bytes(s: Seq<u8>) -> Seq<u8> {
    s.map_values(|c: u8| ascii_lower(c))
}

/// The bytes of a string of characters, each taken as one byte.
pub open spec fn chars_as_bytes(s: Seq<char>) -> Seq<u8> {
    s.map_values(|c: char| c as u8)
}

/// The button a name selects: the name, lower-cased, must be one of the
/// accepted spellings (`up`, `down`, `left` and `right` name the d-pad).
pub open spec fn button_named(bytes: Seq<u8>) -> Option<GipButton> {
    let l = lower_bytes(bytes);
    if l.len() == 1 {
        if (l[0] == 0x61) {
            Some(GipButton::A)
        } else if (l[0] == 0x62) {
            Some(GipButton::B)
        } else if (l[0] == 0x78) {
            Some(GipButton::X)
        } else if (l[0] == 0x79) {
            Some(GipButton::Y)
        } else {
            None
        }
    } else if l.len() == 2 {
        if (l[0] == 0x6c && l[1] == 0x62) {
            Some(GipButton::LB)
        } else if (l[0] == 0x72 && l[1] == 0x62) {
            Some(GipButton::RB)
        } else if (l[0] == 0x6c && l[1] == 0x73) {
            Some(GipButton::LS)
        } else if (l[0] == 0x72 && l[1] == 0x73) {
            Some(GipButton::RS)
        } else if (l[0] == 0x75 && l[1] == 0x70) {
            Some(GipButton::DUp)
        } else {
            None
        }
    } else if l.len() == 3 {
        if (l[0] == 0x64 && l[1] == 0x75 && l[2] == 0x70) {
            Some(GipButton::DUp)
        } else {
            None
        }
    } else if l.len() == 4 {
        if (l[0] == 0x64 && l[1] == 0x6f && l[2] == 0x77 && l[3] == 0x6e) {
            Some(GipButton::DDown)
        } else if (l[0] == 0x6c && l[1] == 0x65 && l[2] == 0x66 && l[3] == 0x74) {
            Some(GipButton::DLeft)
        } else {
            None
        }
    } else if l.len() == 5 {
        if (l[0] == 0x64 && l[1] == 0x64 && l[2] == 0x6f && l[3] == 0x77 && l[4] == 0x6e) {
            Some(GipButton::DDown)
        } else if (l[0] == 0x64 && l[1] == 0x6c && l[2] == 0x65 && l[3] == 0x66 && l[4] == 0x74) {
            Some(GipButton::DLeft)
        } else if (l[0] == 0x72 && l[1] == 0x69 && l[2] == 0x67 && l[3] == 0x68 && l[4] == 0x74) {
            Some(GipButton::DRight)
        } else {
            None
        }
    } else if l.len() == 6 {
        if (l[0] == 0x64 && l[1] == 0x72 && l[2] == 0x69 && l[3] == 0x67 && l[4] == 0x68 && l[5] == 0x74) {
            Some(GipButton::DRight)
        } else {
            None
        }
    } else {
        None
    }
}

/// ASCII lower-casing of one byte.
fn lower(c: u8) -> (r: u8)
    ensures
        r == ascii_lower(c),
{
    if 0x41 <= c && c <= 0x5A {
        c + 32
    } else {
        c
    }
}

impl GipButton {
    /// The button with the given remap code.
    pub fn from_code(code: u8) -> (res: Option<GipButton>)
        ensures
            res == button_of_code(code),
    {
        match code {
            0x04 => Some(GipButton::A),
            0x05 => Some(GipButton::B),
            0x06 => Some(GipButton::X),
            0x07 => Some(GipButton::Y),
            0x08 => Some(GipButton::DUp),
            0x09 => Some(GipButton::DDown),
            0x0A => Some(GipButton::DLeft),
            0x0B => Some(GipButton::DRight),
            0x0C => Some(GipButton::LB),
            0x0D => Some(GipButton::RB),
            0x0E => Some(GipButton::LS),
            0x0F => Some(GipButton::RS),
            _ => None,
        }
    }

    /// The button a (case-insensitive) name selects.
    pub fn from_name(name: &str) -> (res: Option<GipButton>)
        ensures
            res == button_named(name.spec_bytes()),
    {
        GipButton::from_name_bytes(name.as_bytes())
    }

    /// The button a name selects, the name given by its UTF-8 bytes.
    pub fn from_name_bytes(s: &[u8]) -> (res: Option<GipButton>)
        ensures
            res == button_named(s@),
    {
        let n = s.len();
        proof {
            assert(lower_bytes(s@).len() == n);
            assert(forall|i: int| 0 <= i < n ==> #[trigger] lower_bytes(s@)[i] == ascii_lower(s@[i]));
        }
        if n == 1 {
            let c0 = lower(s[0]);
            if c0 == 0x61 {
                Some(GipButton::A)
            } else if c0 == 0x62 {
                Some(GipButton::B)
            } else if c0 == 0x78 {
                Some(GipButton::X)
            } else if c0 == 0x79 {
                Some(GipButton::Y)
            } else {
                None
            }
        } else if n == 2 {
            let c0 = lower(s[0]);
            let c1 = lower(s[1]);
            if c0 == 0x6c && c1 == 0x62 {
                Some(GipButton::LB)
            } else if c0 == 0x72 && c1 == 0x62 {
                Some(GipButton::RB)
            } else if c0 == 0x6c && c1 == 0x73 {
                Some(GipButton::LS)
            } else if c0 == 0x72 && c1 == 0x73 {
                Some(GipButton::RS)
            } else if c0 == 0x75 && c1 == 0x70 {
                Some(GipButton::DUp)
            } else {
                None
            }
        } else if n == 3 {
            let c0 = lower(s[0]);
            let c1 = lower(s[1]);
            let c2 = lower(s[2]);
            if c0 == 0x64 && c1 == 0x75 && c2 == 0x70 {
                Some(GipButton::DUp)
            } else {
                None
            }
        } else if n == 4 {
            let c0 = lower(s[0]);
            let c1 = lower(s[1]);
            let c2 = lower(s[2]);
            let c3 = lower(s[3]);
            if c0 == 0x64 && c1 == 0x6f && c2 == 0x77 && c3 == 0x6e {
                Some(GipButton::DDown)
            } else if c0 == 0x6c && c1 == 0x65 && c2 == 0x66 && c3 == 0x74 {
                Some(GipButton::DLeft)
            } else {
                None
            }
        } else if n == 5 {
            let c0 = lower(s[0]);
            let c1 = lower(s[1]);
            let c2 = lower(s[2]);
            let c3 = lower(s[3]);
            let c4 = lower(s[4]);
            if c0 == 0x64 && c1 == 0x64 && c2 == 0x6f && c3 == 0x77 && c4 == 0x6e {
                Some(GipButton::DDown)
            } else if c0 == 0x64 && c1 == 0x6c && c2 == 0x65 && c3 == 0x66 && c4 == 0x74 {
                Some(GipButton::DLeft)
            } else if c0 == 0x72 && c1 == 0x69 && c2 == 0x67 && c3 == 0x68 && c4 == 0x74 {
                Some(GipButton::DRight)
            } else {
                None
            }
        } else if n == 6 {
            let c0 = lower(s[0]);
            let c1 = lower(s[1]);
            let c2 = lower(s[2]);
            let c3 = lower(s[3]);
            let c4 = lower(s[4]);
            let c5 = lower(s[5]);
            if c0 == 0x64 && c1 == 0x72 && c2 == 0x69 && c3 == 0x67 && c4 == 0x68 && c5 == 0x74 {
                Some(GipButton::DRight)
            } else {
                None
            }
        } else {
            None
        }
    }

    /// The display name of the button.
    pub fn name(self) -> (res: &'static str)
        ensures
            res@ == button_name(self),
    {
        match self {
            GipButton::A => {
                proof {
                    reveal_strlit("A");
                }
                "A"
            },
            GipButton::B => {
                proof {
                    reveal_strlit("B");
                }
                "B"
            },
            GipButton::X => {
                proof {
                    reveal_strlit("X");
                }
                "X"
            },
            GipButton::Y => {
                proof {
                    reveal_strlit("Y");
                }
                "Y"
            },
            GipButton::LB => {
                proof {
                    reveal_strlit("LB");
                }
                "LB"
            },
            GipButton::RB => {
                proof {
                    reveal_strlit("RB");
                }
                "RB"
            },
            GipButton::LS => {
                proof {
                    reveal_strlit("LS");
                }
                "LS"
            },
            GipButton::RS => {
                proof {
                    reveal_strlit("RS");
                }
                "RS"
            },
            GipButton::DUp => {
                proof {
                    reveal_strlit("DUp");
                }
                "DUp"
            },
            GipButton::DDown => {
                proof {
                    reveal_strlit("DDown");
                }
                "DDown"
            },
            GipButton::DLeft => {
                proof {
                    reveal_strlit("DLeft");
                }
                "DLeft"
            },
            GipButton::DRight => {
                proof {
                    reveal_strlit("DRight");
                }
                "DRight"
            },
        }
    }

    /// The remap code of the button.
    pub fn code(self) -> (res: u8)
        ensures
            res == button_code(self),
    {
        match self {
            GipButton::A => 0x04,
            GipButton::B => 0x05,
            GipButton::X => 0x06,
            GipButton::Y => 0x07,
            GipButton::DUp => 0x08,
            GipButton::DDown => 0x09,
            GipButton::DLeft => 0x0A,
            GipButton::DRight => 0x0B,
            GipButton::LB => 0x0C,
            GipButton::RB => 0x0D,
            GipButton::LS => 0x0E,
            GipButton::RS => 0x0F,
        }
    }
}

/// The display name of a remap code, `?` when no button has that code.
pub fn btn_name(code: u8) -> (res: &'static str)
    ensures
        button_of_code(code) matches Some(b) ==> res@ == button_name(b),
        button_of_code(code) is None ==> res@ == seq!['?'],
{
    match GipButton::from_code(code) {
        Some(b) => b.name(),
        None => {
            proof {
                reveal_strlit("?");
            }
            "?"
        },
    }
}

/// The remap code of a (case-insensitive) button name.
pub fn btn_code(name: &str) -> (res: Option<u8>)
    ensures
        res == (match button_named(name.spec_bytes()) {
            Some(b) => Some(button_code(b)),
            None => None::<u8>,
        }),
{
    match GipButton::from_name(name) {
        Some(b) => Some(b.code()),
        None => None,
    }
}

/// Size of a mapping page, in bytes.
pub const MAPPING_SIZE: u8 = 0x38;

/// Size of a curves page, in bytes.
pub const CURVES_SIZE: u8 = 0x2B;

/// Offset of the flags byte.
pub const OFF_FLAGS: usize = 0;

/// Offset of the paddle outputs `[P1, P2, P3, P4]`.
pub const OFF_PADDLES: usize = 1;

/// Offset of the face button outputs `[A, B, X, Y]`.
pub const OFF_FACE: usize = 5;

/// Offset of the extended remap slots.
pub const OFF_REMAP_EXT: usize = 9;

/// Offset of the reserved region (keyboard remap data).
pub const OFF_RESERVED: usize = 17;

/// Offset of the four per-motor bytes `[weak, strong, RT, LT]` (dead zones in older tools).
pub const OFF_DEADZONES: usize = 28;

/// Offset of the left trigger saturation (u16 LE).
pub const OFF_SAT_LT: usize = 32;

/// Offset of the left stick saturation (u16 LE).
pub const OFF_SAT_LS: usize = 34;

/// Offset of the right trigger saturation (u16 LE).
pub const OFF_SAT_RT: usize = 38;

/// Offset of the right stick saturation (u16 LE).
pub const OFF_SAT_RS: usize = 40;

/// Offset of the LED brightness.
pub const OFF_BRIGHTNESS: usize = 44;

/// Offset of the color flag (0xFF: default white, 0x00: custom).
pub const OFF_COLOR_FLAG: usize = 45;

/// Offset of the red color byte.
pub const OFF_COLOR_R: usize = 46;

/// Offset of the green color byte.
pub const OFF_COLOR_G: usize = 47;

/// Offset of the blue color byte.
pub const OFF_COLOR_B: usize = 48;

/// Offset of the vibration bytes `(left, right)`.
pub const OFF_VIBRATION: usize = 49;

/// Offset of the stick inversion bitmask in a curves page.
pub const OFF_STICK_INVERSION: usize = 27;

/// Flags byte of an unmodified page.
pub const FLAGS_DEFAULT: u8 = 0x11;

/// Flags byte of a customized page.
pub const FLAGS_CUSTOM: u8 = 0x10;

/// The default face and paddle outputs (A, B, X, Y).
pub open spec fn default_face() -> Seq<u8> {
    seq![0x04u8, 0x05, 0x06, 0x07]
}

/// The default extended remap slots: d-pad up, down, left and right, LB,
/// RB, and the left and right stick clicks.
pub open spec fn default_ext() -> Seq<u8> {
    seq![0x08u8, 0x09, 0x0A, 0x0B, 0x0C, 0x0D, 0x0E, 0x0F]
}

/// The default (linear) stick curve: control points (43,43), (127,127), (191,191).
pub open spec fn default_curve() -> Seq<u8> {
    seq![0x2Bu8, 0x2B, 0x7F, 0x7F, 0xBF, 0xBF]
}

/// The default face and paddle outputs.
pub fn default_face_array() -> (res: [u8; 4])
    ensures
        res@ == default_face(),
{
    let r: [u8; 4] = [0x04, 0x05, 0x06, 0x07];
    proof {
        assert(r@ =~= default_face());
    }
    r
}

/// The default extended remap slots: d-pad up, down, left and right, LB,
/// RB, and the left and right stick clicks.
pub fn default_ext_array() -> (res: [u8; 8])
    ensures
        res@ == default_ext(),
{
    let r: [u8; 8] = [0x08, 0x09, 0x0A, 0x0B, 0x0C, 0x0D, 0x0E, 0x0F];
    proof {
        assert(r@ =~= default_ext());
    }
    r
}

/// The default stick curve.
pub fn default_curve_array() -> (res: [u8; 6])
    ensures
        res@ == default_curve(),
{
    let r: [u8; 6] = [0x2B, 0x2B, 0x7F, 0x7F, 0xBF, 0xBF];
    proof {
        assert(r@ =~= default_curve());
    }
    r
}

/// Page address of the mapping page of a profile (0-based) and slot
/// (0 = normal, 1 = shift).
pub open spec fn spec_mapping_page(profile: int, slot: int) -> u8 {
    (0x20 + 2 * profile + 6 * slot) as u8
}

/// Page address of the curves page of a profile (0-based) and slot.
pub open spec fn spec_curves_page(profile: int, slot: int) -> u8 {
    (0x21 + 2 * profile + 6 * slot) as u8
}

/// The mapping page of each hardware profile (rows: Profile 1 to 3) and slot
/// (columns: normal, shift).
pub open spec fn mapping_page_table() -> Seq<Seq<u8>> {
    seq![seq![0x20u8, 0x26u8], seq![0x22u8, 0x28u8], seq![0x24u8, 0x2Au8]]
}

/// The curves page of each hardware profile and slot.
pub open spec fn curves_page_table() -> Seq<Seq<u8>> {
    seq![seq![0x21u8, 0x27u8], seq![0x23u8, 0x29u8], seq![0x25u8, 0x2Bu8]]
}

/// The page addresses follow the controller's page table: Profile 1 to 3
/// use mapping pages 0x20/0x26, 0x22/0x28, 0x24/0x2A (normal/shift) and the
/// curves page right after each.
pub proof fn lemma_page_tables(profile: int, slot: int)
    requires
        0 <= profile < 3,
        0 <= slot < 2,
    ensures
        spec_mapping_page(profile, slot) == mapping_page_table()[profile][slot],
        spec_curves_page(profile, slot) == curves_page_table()[profile][slot],
{
}

/// Distinct profile and slot pairs use distinct pages, and no mapping page
/// is a curves page: writing one profile's slot never touches another's.
pub proof fn lemma_pages_distinct(p1: int, s1: int, p2: int, s2: int)
    requires
        0 <= p1 < 3,
        0 <= s1 < 2,
        0 <= p2 < 3,
        0 <= s2 < 2,
    ensures
        (p1, s1) != (p2, s2) ==> spec_mapping_page(p1, s1) != spec_mapping_page(p2, s2),
        (p1, s1) != (p2, s2) ==> spec_curves_page(p1, s1) != spec_curves_page(p2, s2),
        spec_mapping_page(p1, s1) != spec_curves_page(p2, s2),
{
    lemma_page_tables(p1, s1);
    lemma_page_tables(p2, s2);
}

/// Page address of the mapping page of a profile and slot.
pub fn mapping_page(profile: usize, slot: usize) -> (res: u8)
    requires
        profile < 3,
        slot < 2,
    ensures
        res == spec_mapping_page(profile as int, slot as int),
        res == mapping_page_table()[profile as int][slot as int],
{
    proof {
        lemma_page_tables(profile as int, slot as int);
    }
    (0x20 + 2 * profile + 6 * slot) as u8
}

/// Page address of the curves page of a profile and slot.
pub fn curves_page(profile: usize, slot: usize) -> (res: u8)
    requires
        profile < 3,
        slot < 2,
    ensures
        res == spec_curves_page(profile as int, slot as int),
        res == curves_page_table()[profile as int][slot as int],
{
    proof {
        lemma_page_tables(profile as int, slot as int);
    }
    (0x21 + 2 * profile + 6 * slot) as u8
}

/// The four saturation bytes of a mapping page: `[LT, LS, RT, RS]`.
pub open spec fn spec_saturation(d: Seq<u8>) -> Seq<u8> {
    seq![d[32], d[34], d[38], d[40]]
}

/// The color of a mapping page: `None` for the default white.
pub open spec fn spec_color(d: Seq<u8>) -> Option<(u8, u8, u8)> {
    if d[45] == 0xFF {
        None
    } else {
        Some((d[46], d[47], d[48]))
    }
}

/// Decoded profile mapping page.
#[derive(Debug)]
pub struct ProfileMapping {
    pub flags: u8,
    /// Paddle outputs, bytes 1-4.
    pub paddles: [u8; 4],
    /// Face button outputs, bytes 5-8.
    pub face: [u8; 4],
    /// Extended remap slots, bytes 9-16.
    pub ext: [u8; 8],
    /// Bytes 28-31.
    pub deadzones: [u8; 4],
    /// Saturation `[LT, LS, RT, RS]` from bytes 32, 34, 38, 40.
    pub saturation: [u8; 4],
    pub brightness: u8,
    /// `None` = default white.
    pub color: Option<(u8, u8, u8)>,
    pub vibration: (u8, u8),
    pub raw: Vec<u8>,
}

/// Whether a mapping value holds the decoding of page bytes `d`.
pub open spec fn mapping_decodes(m: ProfileMapping, d: Seq<u8>) -> bool {
    &&& m.flags == d[0]
    &&& m.paddles@ == d.subrange(1, 5)
    &&& m.face@ == d.subrange(5, 9)
    &&& m.ext@ == d.subrange(9, 17)
    &&& m.deadzones@ == d.subrange(28, 32)
    &&& m.saturation@ == spec_saturation(d)
    &&& m.brightness == d[44]
    &&& m.color == spec_color(d)
    &&& m.vibration == (d[49], d[50])
    &&& m.raw@ == d
}

/// Copy of bytes `start..start + N` of a slice into an array.
fn take4(data: &[u8], start: usize) -> (res: [u8; 4])
    requires
        start + 4 <= data.len(),
    ensures
        res@ == data@.subrange(start as int, start + 4),
{
    let r: [u8; 4] = [data[start], data[start + 1], data[start + 2], data[start + 3]];
    proof {
        assert(r@ =~= data@.subrange(start as int, start + 4));
    }
    r
}

fn take6(data: &[u8], start: usize) -> (res: [u8; 6])
    requires
        start + 6 <= data.len(),
    ensures
        res@ == data@.subrange(start as int, start + 6),
{
    let r: [u8; 6] = [
        data[start],
        data[start + 1],
        data[start + 2],
        data[start + 3],
        data[start + 4],
        data[start + 5],
    ];
    proof {
        assert(r@ =~= data@.subrange(start as int, start + 6));
    }
    r
}

fn take8(data: &[u8], start: usize) -> (res: [u8; 8])
    requires
        start + 8 <= data.len(),
    ensures
        res@ == data@.subrange(start as int, start + 8),
{
    let r: [u8; 8] = [
        data[start],
        data[start + 1],
        data[start + 2],
        data[start + 3],
        data[start + 4],
        data[start + 5],
        data[start + 6],
        data[start + 7],
    ];
    proof {
        assert(r@ =~= data@.subrange(start as int, start + 8));
    }
    r
}

/// A copy of a slice as a vector.
pub fn slice_to_vec(data: &[u8]) -> (res: Vec<u8>)
    ensures
        res@ == data@,
{
    let mut v: Vec<u8> = Vec::new();
    let mut i: usize = 0;
    while i < data.len()
        invariant
            i <= data.len(),
            v@ == data@.subrange(0, i as int),
        decreases data.len() - i,
    {
        v.push(data[i]);
        i = i + 1;
        proof {
            assert(v@ =~= data@.subrange(0, i as int));
        }
    }
    proof {
        assert(data@.subrange(0, data.len() as int) =~= data@);
    }
    v
}

impl ProfileMapping {
    /// Decode a mapping page; `None` when it is shorter than 56 bytes.
    pub fn from_raw(data: &[u8]) -> (res: Option<ProfileMapping>)
        ensures
            res is Some <==> data.len() >= 56,
            res matches Some(m) ==> mapping_decodes(m, data@),
    {
        if data.len() < 56 {
            return None;
        }
        let color = if data[OFF_COLOR_FLAG] == 0xFF {
            None
        } else {
            Some((data[OFF_COLOR_R], data[OFF_COLOR_G], data[OFF_COLOR_B]))
        };
        let saturation: [u8; 4] = [data[OFF_SAT_LT], data[OFF_SAT_LS], data[OFF_SAT_RT], data[OFF_SAT_RS]];
        proof {
            assert(saturation@ =~= spec_saturation(data@));
        }
        Some(ProfileMapping {
            flags: data[OFF_FLAGS],
            paddles: take4(data, OFF_PADDLES),
            face: take4(data, OFF_FACE),
            ext: take8(data, OFF_REMAP_EXT),
            deadzones: take4(data, OFF_DEADZONES),
            saturation,
            brightness: data[OFF_BRIGHTNESS],
            color,
            vibration: (data[OFF_VIBRATION], data[OFF_VIBRATION + 1]),
            raw: slice_to_vec(data),
        })
    }

    /// Whether the page was modified from the factory default.
    pub fn is_custom(&self) -> (res: bool)
        ensures
            res == (self.flags != FLAGS_DEFAULT),
    {
        self.flags != FLAGS_DEFAULT
    }
}

/// Decoded profile curves page.
#[derive(Debug)]
pub struct ProfileCurves {
    pub flags: u8,
    /// LX, LY, RX, RY curves, six bytes each.
    pub curves: [[u8; 6]; 4],
    pub raw: Vec<u8>,
}

/// Whether a curves value holds the decoding of page bytes `d`.
pub open spec fn curves_decode(c: ProfileCurves, d: Seq<u8>) -> bool {
    &&& c.flags == d[0]
    &&& forall|i: int| 0 <= i < 4 ==> (#[trigger] c.curves[i])@ == d.subrange(1 + 6 * i, 7 + 6 * i)
    &&& c.raw@ == d
}

impl ProfileCurves {
    /// Decode a curves page; `None` when it is shorter than 43 bytes.
    pub fn from_raw(data: &[u8]) -> (res: Option<ProfileCurves>)
        ensures
            res is Some <==> data.len() >= 43,
            res matches Some(c) ==> curves_decode(c, data@),
    {
        if data.len() < 43 {
            return None;
        }
        let curves: [[u8; 6]; 4] = [take6(data, 1), take6(data, 7), take6(data, 13), take6(data, 19)];
        Some(ProfileCurves { flags: data[0], curves, raw: slice_to_vec(data) })
    }
}

/// Decoding a button's code gives the button back.
pub proof fn lemma_code_roundtrip(b: GipButton)
    ensures
        button_of_code(button_code(b)) == Some(b),
{
}

/// Looking a button up by its own display name gives the button back.
pub proof fn lemma_name_roundtrip(b: GipButton)
    ensures
        button_named(vstd::utf8::encode_utf8(button_name(b))) == Some(b),
{
    let n = button_name(b);
    assert(vstd::utf8::is_ascii_chars(n));
    vstd::utf8::is_ascii_chars_encode_utf8(n);
    let e = vstd::utf8::encode_utf8(n);
    let l = lower_bytes(e);
    assert(l.len() == n.len());
    match b {
        GipButton::A => assert(l =~= seq![0x61u8]),
        GipButton::B => assert(l =~= seq![0x62u8]),
        GipButton::X => assert(l =~= seq![0x78u8]),
        GipButton::Y => assert(l =~= seq![0x79u8]),
        GipButton::LB => assert(l =~= seq![0x6cu8, 0x62]),
        GipButton::RB => assert(l =~= seq![0x72u8, 0x62]),
        GipButton::LS => assert(l =~= seq![0x6cu8, 0x73]),
        GipButton::RS => assert(l =~= seq![0x72u8, 0x73]),
        GipButton::DUp => assert(l =~= seq![0x64u8, 0x75, 0x70]),
        GipButton::DDown => assert(l =~= seq![0x64u8, 0x64, 0x6f, 0x77, 0x6e]),
        GipButton::DLeft => assert(l =~= seq![0x64u8, 0x6c, 0x65, 0x66, 0x74]),
        GipButton::DRight => assert(l =~= seq![0x64u8, 0x72, 0x69, 0x67, 0x68, 0x74]),
    }
}

/// Looking a button up ignores ASCII case: a name and its lower-cased form
/// select the same button.
pub proof fn lemma_name_case_insensitive(bytes: Seq<u8>)
    ensures
        button_named(lower_bytes(bytes)) == button_named(bytes),
{
    assert(lower_bytes(lower_bytes(bytes)) =~= lower_bytes(bytes));
}

/// A code decodes to a button exactly when it lies in 0x04..=0x0F, and
/// that button's code is the code itself.
pub proof fn lemma_code_range(code: u8)
    ensures
        (button_of_code(code) is Some) <==> (0x04 <= code && code <= 0x0F),
        button_of_code(code) matches Some(b) ==> button_code(b) == code,
{
}

/// Both slots of a hardware profile, mapping and curves pages, each present
/// when it could be read and decoded.
#[derive(Debug)]
pub struct FullProfile {
    pub mapping_a: Option<ProfileMapping>,
    pub mapping_b: Option<ProfileMapping>,
    pub curves_a: Option<ProfileCurves>,
    pub curves_b: Option<ProfileCurves>,
}

} // verus!
