//! Argument parsing and report decoding of the command-line tools.

use vstd::prelude::*;
use vstd::string::StringSliceAdditionalSpecFns;

use crate::gip_types::{button_named, GipButton};
use crate::gui_model::{ascii_of, hex_value};
use crate::text::dec_digits;
use crate::hid::{le16, parse_bt_report, spec_bt_report};
use crate::name::stored_name;
use crate::types::{idle_state, GamepadState, ReportFormat};

verus! {

/// Whether every byte is an ASCII decimal digit.
pub open spec fn all_digits(bs: Seq<u8>) -> bool {
    forall|i: int| 0 <= i < bs.len() ==> 48 <= #[trigger] bs[i] <= 57
}

/// The value of a string of decimal digits.
pub open spec fn dec_value(bs: Seq<u8>) -> nat
    decreases bs.len(),
{
    if bs.len() == 0 {
        0
    } else {
        dec_value(bs.drop_last()) * 10 + (bs.last() - 48) as nat
    }
}

/// The digits of an unsigned decimal text: the text without one leading `+`.
pub open spec fn unsigned_body(bs: Seq<u8>) -> Seq<u8> {
    if bs.len() > 0 && bs[0] == 43 {
        bs.subrange(1, bs.len() as int)
    } else {
        bs
    }
}

/// The value of an unsigned decimal text as Rust's `from_str` for an
/// unsigned type with maximum `max` reads it: an optional `+`, then at
/// least one digit, the value at most `max`.
pub open spec fn parse_unsigned(bs: Seq<u8>, max: nat) -> Option<nat> {
    let body = unsigned_body(bs);
    if body.len() > 0 && all_digits(body) && dec_value(body) <= max {
        Some(dec_value(body))
    } else {
        None
    }
}

/// Parse an unsigned decimal text whose value must not exceed `max`.
pub fn parse_unsigned_text(text: &str, max: u64) -> (res: Option<u64>)
    ensures
        match parse_unsigned(text.spec_bytes(), max as nat) {
            Some(v) => res == Some(v as u64),
            None => res is None,
        },
{
    let bs = text.as_bytes();
    let start: usize = if bs.len() > 0 && bs[0] == 43 {
        1
    } else {
        0
    };
    let ghost body = unsigned_body(bs@);
    proof {
        assert(body =~= bs@.subrange(start as int, bs@.len() as int));
    }
    if bs.len() == start {
        return None;
    }
    let mut v: u64 = 0;
    let mut over = false;
    let mut i: usize = start;
    while i < bs.len()
        invariant
            start <= i <= bs@.len(),
            bs@ == text.spec_bytes(),
            body == unsigned_body(bs@),
            body == bs@.subrange(start as int, bs@.len() as int),
            all_digits(bs@.subrange(start as int, i as int)),
            !over ==> v as nat == dec_value(bs@.subrange(start as int, i as int)) && v <= max,
            over ==> dec_value(bs@.subrange(start as int, i as int)) > max,
        decreases bs@.len() - i,
    {
        let c = bs[i];
        if c < 48 || c > 57 {
            proof {
                assert(body[i - start] == c);
            }
            return None;
        }
        let d = (c - 48) as u64;
        proof {
            assert(bs@.subrange(start as int, i + 1).drop_last() =~= bs@.subrange(
                start as int,
                i as int,
            ));
            assert(all_digits(bs@.subrange(start as int, i + 1)));
        }
        if !over {
            if d > max || v > (max - d) / 10 {
                proof {
                    if d <= max {
                        assert(v * 10 + d > max) by (nonlinear_arith)
                            requires
                                v > (max - d) / 10,
                                d <= max,
                        ;
                    }
                }
                over = true;
            } else {
                proof {
                    assert(v * 10 + d <= max) by (nonlinear_arith)
                        requires
                            v <= (max - d) / 10,
                            d <= max,
                    ;
                }
                v = v * 10 + d;
            }
        }
        i = i + 1;
    }
    proof {
        assert(bs@.subrange(start as int, bs@.len() as int) =~= body);
    }
    if over {
        None
    } else {
        Some(v)
    }
}

/// The 0-based hardware profile index of a 1-based profile argument (1 to
/// 3); a missing or unreadable argument counts as 0, which is refused.
pub open spec fn spec_profile_index(arg: Option<Seq<u8>>) -> Option<int> {
    let n = match arg {
        Some(a) => match parse_unsigned(a, usize::MAX as nat) {
            Some(v) => v as int,
            None => 0,
        },
        None => 0,
    };
    if 1 <= n <= 3 {
        Some(n - 1)
    } else {
        None
    }
}

/// The 0-based profile index named by a command-line argument.
pub fn profile_index(arg: Option<&str>) -> (res: Option<usize>)
    ensures
        match spec_profile_index(
            match arg {
                Some(a) => Some(a.spec_bytes()),
                None => None,
            },
        ) {
            Some(i) => res == Some(i as usize),
            None => res is None,
        },
{
    let n: u64 = match arg {
        Some(a) => match parse_unsigned_text(a, usize::MAX as u64) {
            Some(v) => v,
            None => 0,
        },
        None => 0,
    };
    if n == 0 || n > 3 {
        None
    } else {
        Some((n - 1) as usize)
    }
}

/// A byte value argument, or `default` when it is missing or unreadable.
pub fn u8_arg_or(arg: Option<&str>, default: u8) -> (res: u8)
    ensures
        res == match arg {
            Some(a) => match parse_unsigned(a.spec_bytes(), 255) {
                Some(v) => v as u8,
                None => default,
            },
            None => default,
        },
{
    match arg {
        Some(a) => match parse_unsigned_text(a, 255) {
            Some(v) => {
                proof {
                    assert(v <= 255);
                }
                v as u8
            },
            None => default,
        },
        None => default,
    }
}

/// The four dead zone values (left stick, right stick, left trigger, right
/// trigger): present only when all four arguments are byte values.
pub fn deadzone_values(args: &[&str]) -> (res: Option<[u8; 4]>)
    requires
        args@.len() == 4,
    ensures
        res matches Some(v) ==> forall|i: int| 0 <= i < 4 ==> parse_unsigned(args@[i].spec_bytes(), 255) == Some(#[trigger] v[i] as nat),
        res is None ==> exists|i: int| 0 <= i < 4 && parse_unsigned(#[trigger] args@[i].spec_bytes(), 255) is None,
{
    let mut vals: [u8; 4] = [0; 4];
    let mut i: usize = 0;
    while i < 4
        invariant
            i <= 4,
            args@.len() == 4,
            forall|j: int| 0 <= j < i ==> parse_unsigned(args@[j].spec_bytes(), 255) == Some(#[trigger] vals[j] as nat),
        decreases 4 - i,
    {
        match parse_unsigned_text(args[i], 255) {
            Some(v) => {
                vals[i] = v as u8;
            },
            None => {
                return None;
            },
        }
        i = i + 1;
    }
    Some(vals)
}

/// Whether a byte is an ASCII hexadecimal digit.
pub open spec fn is_hex(c: u8) -> bool {
    hex_value(c) is Some
}

/// The hexadecimal digits of a text, in order.
pub open spec fn hex_only(bs: Seq<u8>) -> Seq<u8>
    decreases bs.len(),
{
    if bs.len() == 0 {
        Seq::empty()
    } else {
        hex_only(bs.drop_last()) + if is_hex(bs.last()) {
            seq![bs.last()]
        } else {
            Seq::empty()
        }
    }
}

/// The text without its leading `#` characters (taken as bytes).
pub open spec fn skip_hashes(bs: Seq<u8>) -> Seq<u8>
    decreases bs.len(),
{
    if bs.len() > 0 && bs[0] == 35 {
        skip_hashes(bs.subrange(1, bs.len() as int))
    } else {
        bs
    }
}

/// The value of two hexadecimal digits.
pub open spec fn hex_pair_value(a: u8, b: u8) -> u8 {
    (16 * hex_value(a)->0 + hex_value(b)->0) as u8
}

/// The color of an `RRGGBB` argument: leading `#`s are dropped, then all
/// characters but hexadecimal digits; exactly six digits must remain.
pub open spec fn spec_color_arg(bs: Seq<u8>) -> Option<(u8, u8, u8)> {
    let h = hex_only(skip_hashes(bs));
    if h.len() == 6 {
        Some((hex_pair_value(h[0], h[1]), hex_pair_value(h[2], h[3]), hex_pair_value(h[4], h[5])))
    } else {
        None
    }
}

proof fn lemma_hex_only_all_hex(bs: Seq<u8>)
    ensures
        forall|i: int| 0 <= i < hex_only(bs).len() ==> is_hex(#[trigger] hex_only(bs)[i]),
    decreases bs.len(),
{
    if bs.len() > 0 {
        lemma_hex_only_all_hex(bs.drop_last());
        let h0 = hex_only(bs.drop_last());
        assert forall|i: int| 0 <= i < hex_only(bs).len() implies is_hex(#[trigger] hex_only(bs)[i]) by {
            if i < h0.len() {
                assert(hex_only(bs)[i] == h0[i]);
            }
        }
    }
}

fn hex_digit_value(c: u8) -> (res: u8)
    requires
        is_hex(c),
    ensures
        res == hex_value(c)->0,
        res < 16,
{
    if 48 <= c && c <= 57 {
        c - 48
    } else if 97 <= c && c <= 102 {
        c - 87
    } else {
        c - 55
    }
}

/// Parse an `RRGGBB` color argument.
pub fn color_arg(text: &str) -> (res: Option<(u8, u8, u8)>)
    ensures
        res == spec_color_arg(text.spec_bytes()),
{
    let bs = text.as_bytes();
    let mut k: usize = 0;
    proof {
        assert(bs@.subrange(0, bs@.len() as int) =~= bs@);
    }
    while k < bs.len() && bs[k] == 35
        invariant
            k <= bs@.len(),
            skip_hashes(bs@) == skip_hashes(bs@.subrange(k as int, bs@.len() as int)),
        decreases bs@.len() - k,
    {
        proof {
            let t = bs@.subrange(k as int, bs@.len() as int);
            assert(t.subrange(1, t.len() as int) =~= bs@.subrange(k + 1, bs@.len() as int));
        }
        k = k + 1;
    }
    let ghost rest = bs@.subrange(k as int, bs@.len() as int);
    proof {
        assert(skip_hashes(bs@) == rest);
    }
    let mut digits: Vec<u8> = Vec::new();
    let mut i: usize = k;
    while i < bs.len()
        invariant
            k <= i <= bs@.len(),
            rest == bs@.subrange(k as int, bs@.len() as int),
            digits@ == hex_only(bs@.subrange(k as int, i as int)),
        decreases bs@.len() - i,
    {
        let c = bs[i];
        let hex = (48 <= c && c <= 57) || (97 <= c && c <= 102) || (65 <= c && c <= 70);
        if hex {
            digits.push(c);
        }
        proof {
            assert(bs@.subrange(k as int, i + 1).drop_last() =~= bs@.subrange(k as int, i as int));
            assert(digits@ =~= hex_only(bs@.subrange(k as int, i + 1)));
        }
        i = i + 1;
    }
    proof {
        assert(bs@.subrange(k as int, bs@.len() as int) =~= rest);
        lemma_hex_only_all_hex(rest);
    }
    if digits.len() != 6 {
        return None;
    }
    let r = 16 * hex_digit_value(digits[0]) + hex_digit_value(digits[1]);
    let g = 16 * hex_digit_value(digits[2]) + hex_digit_value(digits[3]);
    let b = 16 * hex_digit_value(digits[4]) + hex_digit_value(digits[5]);
    Some((r, g, b))
}

/// Why a `FROM=TO` remap argument was refused.
#[derive(Debug, Clone, Copy, PartialEq, Eq, Structural)]
pub enum RemapArgError {
    /// Not exactly one `=`.
    Malformed,
    /// The part before `=` names no button.
    UnknownFrom,
    /// The part after `=` names no button.
    UnknownTo,
}

/// The number of `=` bytes.
pub open spec fn count_eq(bs: Seq<u8>) -> nat
    decreases bs.len(),
{
    if bs.len() == 0 {
        0
    } else {
        count_eq(bs.drop_last()) + if bs.last() == 61 {
            1nat
        } else {
            0
        }
    }
}

/// The position of the first `=` byte, if any.
pub open spec fn eq_position(bs: Seq<u8>) -> int {
    choose|k: int| 0 <= k < bs.len() && bs[k] == 61 && forall|j: int| 0 <= j < k ==> bs[j] != 61
}

/// The meaning of a `FROM=TO` remap argument.
pub open spec fn spec_remap_arg(bs: Seq<u8>) -> Result<(GipButton, GipButton), RemapArgError> {
    if count_eq(bs) != 1 {
        Err(RemapArgError::Malformed)
    } else {
        let k = eq_position(bs);
        match (button_named(bs.subrange(0, k)), button_named(bs.subrange(k + 1, bs.len() as int))) {
            (Some(f), Some(t)) => Ok((f, t)),
            (None, _) => Err(RemapArgError::UnknownFrom),
            (Some(_), None) => Err(RemapArgError::UnknownTo),
        }
    }
}

proof fn lemma_count_eq_prefix(bs: Seq<u8>, i: int)
    requires
        0 <= i < bs.len(),
    ensures
        count_eq(bs.subrange(0, i + 1)) == count_eq(bs.subrange(0, i)) + if bs[i] == 61 {
            1nat
        } else {
            0
        },
{
    assert(bs.subrange(0, i + 1).drop_last() =~= bs.subrange(0, i));
}

proof fn lemma_count_eq_zero(bs: Seq<u8>)
    requires
        forall|j: int| 0 <= j < bs.len() ==> bs[j] != 61,
    ensures
        count_eq(bs) == 0,
    decreases bs.len(),
{
    if bs.len() > 0 {
        lemma_count_eq_zero(bs.drop_last());
    }
}

proof fn lemma_count_eq_positive(bs: Seq<u8>, k: int)
    requires
        0 <= k < bs.len(),
        bs[k] == 61,
    ensures
        count_eq(bs) >= 1,
    decreases bs.len(),
{
    if k < bs.len() - 1 {
        lemma_count_eq_positive(bs.drop_last(), k);
    }
}

/// Parse a `FROM=TO` remap argument.
pub fn remap_arg(text: &str) -> (res: Result<(GipButton, GipButton), RemapArgError>)
    ensures
        res == spec_remap_arg(text.spec_bytes()),
{
    let bs = text.as_bytes();
    let mut first: usize = bs.len();
    let mut count: usize = 0;
    let mut i: usize = 0;
    while i < bs.len()
        invariant
            i <= bs@.len(),
            count == count_eq(bs@.subrange(0, i as int)),
            count <= i,
            first <= bs@.len(),
            first < bs@.len() ==> first < i && bs@[first as int] == 61 && forall|j: int|
                0 <= j < first ==> bs@[j] != 61,
            first == bs@.len() ==> forall|j: int| 0 <= j < i ==> bs@[j] != 61,
        decreases bs@.len() - i,
    {
        proof {
            lemma_count_eq_prefix(bs@, i as int);
        }
        if bs[i] == 61 {
            if first == bs.len() {
                first = i;
            }
            count = count + 1;
        }
        i = i + 1;
    }
    proof {
        assert(bs@.subrange(0, bs@.len() as int) =~= bs@);
        if first == bs@.len() {
            lemma_count_eq_zero(bs@);
        }
    }
    if count != 1 {
        return Err(RemapArgError::Malformed);
    }
    proof {
        assert(first < bs@.len());
        let k = eq_position(bs@);
        assert(0 <= k < bs@.len() && bs@[k] == 61 && forall|j: int| 0 <= j < k ==> bs@[j] != 61);
        assert(k == first);
    }
    let (head, tail) = bs.split_at(first);
    let to_part = slice_tail(tail);
    proof {
        assert(head@ =~= bs@.subrange(0, first as int));
        assert(to_part@ =~= bs@.subrange(first + 1, bs@.len() as int));
    }
    match GipButton::from_name_bytes(head) {
        Some(f) => match GipButton::from_name_bytes(to_part) {
            Some(t) => Ok((f, t)),
            None => Err(RemapArgError::UnknownTo),
        },
        None => Err(RemapArgError::UnknownFrom),
    }
}

fn slice_tail(s: &[u8]) -> (res: &[u8])
    requires
        s@.len() >= 1,
    ensures
        res@ == s@.subrange(1, s@.len() as int),
{
    let (_, t) = s.split_at(1);
    t
}

/// Parse all remap arguments, stopping at the first refused one.
pub fn remap_args(args: &[&str]) -> (res: Result<Vec<(GipButton, GipButton)>, (usize, RemapArgError)>)
    ensures
        res matches Ok(v) ==> v@.len() == args@.len() && forall|i: int|
            0 <= i < args@.len() ==> spec_remap_arg(#[trigger] args@[i].spec_bytes()) == Ok::<
                (GipButton, GipButton),
                RemapArgError,
            >(v@[i]),
        res matches Err((k, e)) ==> k < args@.len() && spec_remap_arg(args@[k as int].spec_bytes())
            == Err::<(GipButton, GipButton), RemapArgError>(e) && forall|i: int|
            0 <= i < k ==> spec_remap_arg(#[trigger] args@[i].spec_bytes()) is Ok,
{
    let mut out: Vec<(GipButton, GipButton)> = Vec::new();
    let mut i: usize = 0;
    while i < args.len()
        invariant
            i <= args@.len(),
            out@.len() == i,
            forall|j: int|
                0 <= j < i ==> spec_remap_arg(#[trigger] args@[j].spec_bytes()) == Ok::<
                    (GipButton, GipButton),
                    RemapArgError,
                >(out@[j]),
        decreases args@.len() - i,
    {
        match remap_arg(args[i]) {
            Ok(p) => out.push(p),
            Err(e) => return Err((i, e)),
        }
        i = i + 1;
    }
    Ok(out)
}

/// The four stick centers of a calibration response (`resp` starts with
/// the four-byte frame header): present when the payload holds at least 22
/// bytes; the values are the first four 16-bit little-endian values after
/// the payload's first two bytes (LX, LY, RX, RY).
pub fn calibration_values(resp: &[u8]) -> (res: Option<[u16; 4]>)
    requires
        resp@.len() >= 4,
    ensures
        resp@.len() < 26 ==> res is None,
        resp@.len() >= 26 ==> (res matches Some(v) && forall|i: int|
            0 <= i < 4 ==> #[trigger] v[i] == le16(resp@[6 + 2 * i], resp@[7 + 2 * i])),
{
    if resp.len() < 26 {
        return None;
    }
    let mut v: [u16; 4] = [0; 4];
    let mut i: usize = 0;
    while i < 4
        invariant
            i <= 4,
            resp@.len() >= 26,
            forall|j: int| 0 <= j < i ==> #[trigger] v[j] == le16(resp@[6 + 2 * j], resp@[7 + 2 * j]),
        decreases 4 - i,
    {
        v[i] = resp[6 + 2 * i] as u16 + 256 * (resp[7 + 2 * i] as u16);
        i = i + 1;
    }
    Some(v)
}

/// Whether a name read back after a write is exactly the name that was
/// written (its first 15 characters), as the first tool checks it.
pub fn name_write_exact(readback: &str, new_name: &str) -> (res: bool)
    ensures
        res == (readback@ == stored_name(new_name@)),
{
    let n = new_name.unicode_len();
    let take: usize = if n < 15 {
        n
    } else {
        15
    };
    if readback.unicode_len() != take {
        proof {
            assert(stored_name(new_name@).len() == take);
        }
        return false;
    }
    let same = name_write_confirmed(readback, new_name);
    proof {
        assert(stored_name(new_name@).len() == take);
        assert(readback@.subrange(0, take as int) =~= readback@);
    }
    same
}

/// Whether a name read back after a write starts with the name that was
/// written (its first 15 characters).
pub fn name_write_confirmed(readback: &str, new_name: &str) -> (res: bool)
    ensures
        res == (stored_name(new_name@).len() <= readback@.len() && readback@.subrange(
            0,
            stored_name(new_name@).len() as int,
        ) == stored_name(new_name@)),
{
    let n = new_name.unicode_len();
    let take: usize = if n < 15 {
        n
    } else {
        15
    };
    let ghost want = stored_name(new_name@);
    proof {
        assert(want =~= new_name@.take(take as int));
    }
    if readback.unicode_len() < take {
        return false;
    }
    let mut i: usize = 0;
    while i < take
        invariant
            i <= take,
            take <= new_name@.len(),
            take <= readback@.len(),
            want == new_name@.take(take as int),
            want == stored_name(new_name@),
            forall|j: int| 0 <= j < i ==> readback@[j] == new_name@[j],
        decreases take - i,
    {
        if readback.get_char(i) != new_name.get_char(i) {
            proof {
                assert(readback@.subrange(0, take as int)[i as int] != want[i as int]);
                assert(readback@.subrange(0, take as int) != want);
            }
            return false;
        }
        i = i + 1;
    }
    proof {
        assert(readback@.subrange(0, take as int) =~= want);
    }
    true
}

/// A label if its flag is set.
pub open spec fn flag_label(on: bool, label: Seq<char>) -> Seq<char> {
    if on {
        label
    } else {
        Seq::empty()
    }
}

/// The labels of the pressed buttons and paddles, each followed by a space.
pub open spec fn pressed_labels(s: GamepadState) -> Seq<char> {
    flag_label(s.btn_a, "A "@) + flag_label(s.btn_b, "B "@) + flag_label(s.btn_x, "X "@)
        + flag_label(s.btn_y, "Y "@) + flag_label(s.btn_lb, "LB "@) + flag_label(s.btn_rb, "RB "@)
        + flag_label(s.btn_view, "View "@) + flag_label(s.btn_menu, "Menu "@) + flag_label(
        s.btn_lstick,
        "LS "@,
    ) + flag_label(s.btn_rstick, "RS "@) + flag_label(s.paddle_ur, "P1 "@) + flag_label(
        s.paddle_lr,
        "P2 "@,
    ) + flag_label(s.paddle_ul, "P3 "@) + flag_label(s.paddle_ll, "P4 "@)
}

/// The name of a hat direction (1 up, then clockwise to 8 up-left); empty
/// when centered.
pub open spec fn hat_name(h: u8) -> Seq<char> {
    if h == 1 {
        "Up"@
    } else if h == 2 {
        "UpRight"@
    } else if h == 3 {
        "Right"@
    } else if h == 4 {
        "DownRight"@
    } else if h == 5 {
        "Down"@
    } else if h == 6 {
        "DownLeft"@
    } else if h == 7 {
        "Left"@
    } else if h == 8 {
        "UpLeft"@
    } else {
        ""@
    }
}

fn hat_str(h: u8) -> (res: &'static str)
    ensures
        res@ == hat_name(h),
{
    if h == 1 {
        "Up"
    } else if h == 2 {
        "UpRight"
    } else if h == 3 {
        "Right"
    } else if h == 4 {
        "DownRight"
    } else if h == 5 {
        "Down"
    } else if h == 6 {
        "DownLeft"
    } else if h == 7 {
        "Left"
    } else if h == 8 {
        "UpLeft"
    } else {
        ""
    }
}

fn push_flag(out: &mut String, on: bool, label: &str)
    ensures
        final(out)@ == old(out)@ + flag_label(on, label@),
{
    if on {
        out.append(label);
    } else {
        proof {
            assert(old(out)@ + flag_label(on, label@) =~= old(out)@);
        }
    }
}

/// What the Bluetooth test tool shows of one report.
#[derive(Debug)]
pub struct BtReportSummary {
    /// The decoded state (sticks, triggers, profile, buttons).
    pub state: GamepadState,
    /// The pressed buttons and paddles, each label followed by a space.
    pub buttons: String,
    /// The hat direction of the low nibble of byte 2, or empty.
    pub hat: &'static str,
}

/// Summarise a Bluetooth report of at least 20 bytes.
pub fn bt_report_summary(data: &[u8]) -> (res: Option<BtReportSummary>)
    ensures
        data@.len() < 20 ==> res is None,
        data@.len() >= 20 ==> (res matches Some(r) && r.state == spec_bt_report(data@)
            && r.buttons@ == pressed_labels(spec_bt_report(data@)) && r.hat@ == hat_name(
            data@[2] & 0x0F,
        )),
{
    if data.len() < 20 {
        return None;
    }
    let state = match parse_bt_report(data, ReportFormat::V5Early) {
        Some(s) => s,
        None => {
            return None;
        },
    };
    let mut b = String::new();
    push_flag(&mut b, state.btn_a, "A ");
    push_flag(&mut b, state.btn_b, "B ");
    push_flag(&mut b, state.btn_x, "X ");
    push_flag(&mut b, state.btn_y, "Y ");
    push_flag(&mut b, state.btn_lb, "LB ");
    push_flag(&mut b, state.btn_rb, "RB ");
    push_flag(&mut b, state.btn_view, "View ");
    push_flag(&mut b, state.btn_menu, "Menu ");
    push_flag(&mut b, state.btn_lstick, "LS ");
    push_flag(&mut b, state.btn_rstick, "RS ");
    push_flag(&mut b, state.paddle_ur, "P1 ");
    push_flag(&mut b, state.paddle_lr, "P2 ");
    push_flag(&mut b, state.paddle_ul, "P3 ");
    push_flag(&mut b, state.paddle_ll, "P4 ");
    proof {
        assert(b@ =~= pressed_labels(state));
    }
    Some(BtReportSummary { state, buttons: b, hat: hat_str(data[2] & 0x0F) })
}

/// The length of the report inside a length-prefixed frame (two bytes
/// little-endian, then the report), when the frame holds all of it and it
/// is at least 20 bytes.
pub fn prefixed_report_len(frame: &[u8]) -> (res: Option<usize>)
    ensures
        ({
            let ok = frame@.len() >= 2 && frame@.len() - 2 >= le16(frame@[0], frame@[1]) >= 20;
            &&& ok ==> res == Some(le16(frame@[0], frame@[1]) as usize)
            &&& !ok ==> res is None
        }),
{
    if frame.len() < 2 {
        return None;
    }
    let len: usize = frame[0] as usize + 256 * (frame[1] as usize);
    proof {
        assert(len == le16(frame@[0], frame@[1]));
    }
    if frame.len() - 2 >= len && len >= 20 {
        Some(len)
    } else {
        None
    }
}

/// Whether a frame is itself a gamepad report (ID 1, at least 20 bytes).
pub fn is_raw_report(frame: &[u8]) -> (res: bool)
    ensures
        res == (frame@.len() >= 20 && frame@[0] == 0x01),
{
    frame.len() >= 20 && frame[0] == 0x01
}

/// Decode a Bluetooth report as the Bluetooth test does: the idle state for
/// a report shorter than 15 bytes.
pub fn bt_report_or_idle(data: &[u8]) -> (res: GamepadState)
    ensures
        data@.len() < 15 ==> res == idle_state(),
        data@.len() >= 15 ==> res == spec_bt_report(data@),
{
    match parse_bt_report(data, ReportFormat::V5Early) {
        Some(s) => s,
        None => GamepadState::default(),
    }
}

proof fn lemma_dec_digits_value(n: nat)
    ensures
        all_digits(ascii_of(dec_digits(n))),
        dec_value(ascii_of(dec_digits(n))) == n,
        ascii_of(dec_digits(n)).len() >= 1,
        ascii_of(dec_digits(n))[0] != 43,
    decreases n,
{
    let a = ascii_of(dec_digits(n));
    if n < 10 {
        assert(a =~= seq![(n + 48) as u8]);
        assert(a.drop_last() =~= Seq::<u8>::empty());
        assert(dec_value(a) == dec_value(a.drop_last()) * 10 + (a.last() - 48) as nat);
    } else {
        lemma_dec_digits_value(n / 10);
        let p = ascii_of(dec_digits(n / 10));
        assert(a =~= p.push((n % 10 + 48) as u8));
        assert(a.drop_last() =~= p);
        assert(a[0] == p[0]);
        assert(a.last() == (n % 10 + 48) as u8);
        assert(dec_value(a) == dec_value(p) * 10 + (a.last() - 48) as nat);
        assert(dec_value(a) == (n / 10) * 10 + n % 10);
        assert(n / 10 * 10 + n % 10 == n);
    }
}

/// A number printed in decimal reads back as that number, when it fits.
pub proof fn lemma_decimal_roundtrip(n: nat, max: nat)
    requires
        n <= max,
    ensures
        parse_unsigned(ascii_of(dec_digits(n)), max) == Some(n),
{
    lemma_dec_digits_value(n);
}

} // verus!
