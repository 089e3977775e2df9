//! The controller's device name (the advertised Bluetooth name).
//!
//! The name travels as UTF-16LE: the read response carries it after a
//! four-byte header and two more bytes, the write command carries it in a
//! 32-byte field (16 code units) after the sub-command byte 0x04.

use vstd::prelude::*;

verus! {

/// The UTF-16 code units of one character.
pub open spec fn char_units(c: char) -> Seq<u16> {
    let v = c as u32;
    if v < 0x10000 {
        seq![v as u16]
    } else {
        let w = (v - 0x10000) as u32;
        seq![(0xD800 + w / 0x400) as u16, (0xDC00 + w % 0x400) as u16]
    }
}

/// The UTF-16 encoding of a character sequence.
pub open spec fn utf16(cs: Seq<char>) -> Seq<u16>
    decreases cs.len(),
{
    if cs.len() == 0 {
        Seq::empty()
    } else {
        utf16(cs.drop_last()) + char_units(cs.last())
    }
}

/// The little-endian bytes of code units.
pub open spec fn units_le(us: Seq<u16>) -> Seq<u8>
    decreases us.len(),
{
    if us.len() == 0 {
        Seq::empty()
    } else {
        units_le(us.drop_last()) + seq![(us.last() % 256) as u8, (us.last() / 256) as u8]
    }
}

/// The 32-byte name field: the encoded name, zero-padded.
pub open spec fn name_field(us: Seq<u16>) -> Seq<u8> {
    units_le(us) + Seq::new((32 - 2 * us.len()) as nat, |i: int| 0u8)
}

/// The first 15 characters of a name.
pub open spec fn stored_name(name: Seq<char>) -> Seq<char> {
    if name.len() <= 15 {
        name
    } else {
        name.take(15)
    }
}

proof fn lemma_utf16_len(cs: Seq<char>)
    ensures
        cs.len() <= utf16(cs).len() <= 2 * cs.len(),
    decreases cs.len(),
{
    if cs.len() > 0 {
        lemma_utf16_len(cs.drop_last());
    }
}

proof fn lemma_units_le_len(us: Seq<u16>)
    ensures
        units_le(us).len() == 2 * us.len(),
    decreases us.len(),
{
    if us.len() > 0 {
        lemma_units_le_len(us.drop_last());
    }
}

fn push_char_units(out: &mut Vec<u16>, c: char)
    ensures
        final(out)@ == old(out)@ + char_units(c),
{
    let v = c as u32;
    if v < 0x10000 {
        out.push(v as u16);
        proof {
            assert(final(out)@ =~= old(out)@ + char_units(c));
        }
    } else {
        let w = v - 0x10000;
        assert(w < 0x100000) by {
            assert(v <= 0x10FFFF);
        }
        out.push((0xD800 + w / 0x400) as u16);
        out.push((0xDC00 + w % 0x400) as u16);
        proof {
            assert(final(out)@ =~= old(out)@ + char_units(c));
        }
    }
}

/// The longest prefix of `cs` whose UTF-16 encoding fits the name field's
/// 16 code units (whole characters only).
pub open spec fn fit_prefix(cs: Seq<char>) -> Seq<char>
    decreases cs.len(),
{
    if utf16(cs).len() <= 16 {
        cs
    } else {
        fit_prefix(cs.drop_last())
    }
}

/// The name that a write stores: the first 15 characters, cut back to the
/// whole characters whose code units fit the 32-byte field.
pub open spec fn written_name(name: Seq<char>) -> Seq<char> {
    fit_prefix(stored_name(name))
}

proof fn lemma_fit_prefix_fits(cs: Seq<char>)
    ensures
        utf16(fit_prefix(cs)).len() <= 16,
    decreases cs.len(),
{
    if utf16(cs).len() > 16 {
        assert(cs.len() > 0);
        lemma_fit_prefix_fits(cs.drop_last());
    }
}

proof fn lemma_utf16_take_step(cs: Seq<char>, i: int)
    requires
        0 <= i < cs.len(),
    ensures
        utf16(cs.take(i + 1)) == utf16(cs.take(i)) + char_units(cs[i]),
{
    assert(cs.take(i + 1).drop_last() =~= cs.take(i));
}

proof fn lemma_utf16_take_mono(cs: Seq<char>, i: int, j: int)
    requires
        0 <= i <= j <= cs.len(),
    ensures
        utf16(cs.take(i)).len() <= utf16(cs.take(j)).len(),
    decreases j - i,
{
    if i < j {
        lemma_utf16_take_mono(cs, i, j - 1);
        lemma_utf16_take_step(cs, j - 1);
    }
}

proof fn lemma_fit_prefix_take(cs: Seq<char>, i: int)
    requires
        0 <= i <= cs.len(),
        utf16(cs.take(i)).len() <= 16,
        i < cs.len() ==> utf16(cs.take(i + 1)).len() > 16,
    ensures
        fit_prefix(cs) == cs.take(i),
    decreases cs.len(),
{
    if i == cs.len() {
        assert(cs.take(i) =~= cs);
    } else {
        lemma_utf16_take_mono(cs, i + 1, cs.len() as int);
        assert(cs.take(cs.len() as int) =~= cs);
        let d = cs.drop_last();
        assert(d.take(i) =~= cs.take(i));
        if i < d.len() {
            assert(d.take(i + 1) =~= cs.take(i + 1));
        }
        lemma_fit_prefix_take(d, i);
    }
}

/// The payload of the name write command: sub-command 0x04, then the first
/// 15 characters of `new_name`, as many of them as fit, in a 32-byte UTF-16LE
/// field.
pub fn name_write_payload(new_name: &str) -> (res: Vec<u8>)
    ensures
        res@ == seq![0x04u8] + name_field(utf16(written_name(new_name@))),
        utf16(written_name(new_name@)).len() <= 16,
{
    name_payload(0x04, new_name)
}

/// The code units of the characters that a write stores.
fn stored_units(new_name: &str) -> (units: Vec<u16>)
    ensures
        units@ == utf16(written_name(new_name@)),
        units@.len() <= 16,
{
    let n = new_name.unicode_len();
    let take: usize = if n < 15 {
        n
    } else {
        15
    };
    let ghost name = stored_name(new_name@);
    proof {
        assert(name =~= new_name@.take(take as int));
    }
    let mut units: Vec<u16> = Vec::new();
    let mut i: usize = 0;
    let mut full = false;
    while i < take && !full
        invariant
            take <= new_name@.len(),
            take <= 15,
            i <= take,
            name == new_name@.take(take as int),
            units@ == utf16(name.take(i as int)),
            units@.len() <= 16,
            full ==> i < take && utf16(name.take(i + 1)).len() > 16,
        decreases take - i + (if full { 0int } else { 1int }),
    {
        let c = new_name.get_char(i);
        proof {
            assert(name[i as int] == c);
            lemma_utf16_take_step(name, i as int);
        }
        let need: usize = if (c as u32) < 0x10000 {
            1
        } else {
            2
        };
        if units.len() + need > 16 {
            full = true;
        } else {
            push_char_units(&mut units, c);
            i = i + 1;
        }
    }
    proof {
        lemma_fit_prefix_take(name, i as int);
    }
    units
}

/// A name command payload: sub-command `sub`, then the 32-byte name field
/// holding the written part of `new_name`.
pub fn name_payload(sub: u8, new_name: &str) -> (res: Vec<u8>)
    ensures
        res@ == seq![sub] + name_field(utf16(written_name(new_name@))),
        utf16(written_name(new_name@)).len() <= 16,
{
    let units = stored_units(new_name);
    let mut payload: Vec<u8> = Vec::new();
    payload.push(sub);
    let mut k: usize = 0;
    while k < units.len()
        invariant
            k <= units@.len(),
            units@.len() <= 16,
            payload@ == seq![sub] + units_le(units@.take(k as int)),
        decreases units@.len() - k,
    {
        let u = units[k];
        payload.push((u % 256) as u8);
        payload.push((u / 256) as u8);
        proof {
            assert(units@.take(k + 1).drop_last() =~= units@.take(k as int));
            assert(payload@ =~= seq![sub] + units_le(units@.take(k + 1)));
        }
        k = k + 1;
    }
    proof {
        assert(units@.take(units@.len() as int) =~= units@);
        lemma_units_le_len(units@);
    }
    let ghost head = payload@;
    let mut z: usize = 1 + 2 * units.len();
    while z < 33
        invariant
            1 + 2 * units@.len() <= z <= 33,
            head.len() == 1 + 2 * units@.len(),
            payload@ == head + Seq::new((z - head.len()) as nat, |i: int| 0u8),
        decreases 33 - z,
    {
        payload.push(0);
        proof {
            assert(payload@ =~= head + Seq::new((z + 1 - head.len()) as nat, |i: int| 0u8));
        }
        z = z + 1;
    }
    proof {
        assert(payload@ =~= seq![sub] + name_field(units@));
    }
    payload
}

/// The code units of a byte sequence, two bytes each, little-endian; an odd
/// last byte is dropped.
pub open spec fn le_units(bs: Seq<u8>) -> Seq<u16>
    decreases bs.len(),
{
    if bs.len() < 2 {
        Seq::empty()
    } else {
        seq![(bs[0] as int + 256 * bs[1] as int) as u16] + le_units(bs.subrange(2, bs.len() as int))
    }
}

/// The code units without the trailing zero units.
pub open spec fn trim_zero_units(us: Seq<u16>) -> Seq<u16>
    decreases us.len(),
{
    if us.len() > 0 && us.last() == 0 {
        trim_zero_units(us.drop_last())
    } else {
        us
    }
}

/// The string `String::from_utf16_lossy` makes of some code units: a high
/// surrogate directly followed by a low surrogate is one character, any
/// other surrogate is U+FFFD, any other unit is the character with that
/// code. (Pairs are adjacent high-low units, so reading from the end finds
/// the same pairs as reading from the start.)
pub open spec fn utf16_lossy(units: Seq<u16>) -> Seq<char>
    decreases units.len(),
{
    if units.len() == 0 {
        Seq::empty()
    } else {
        let n = units.len() as int;
        let u = units[n - 1];
        if 0xDC00 <= u <= 0xDFFF && n >= 2 && 0xD800 <= units[n - 2] <= 0xDBFF {
            let hi = units[n - 2];
            utf16_lossy(units.subrange(0, n - 2)) + seq![
                (0x10000 + (hi - 0xD800) * 0x400 + (u - 0xDC00)) as u32 as char,
            ]
        } else if 0xD800 <= u <= 0xDFFF {
            utf16_lossy(units.subrange(0, n - 1)) + seq!['\u{FFFD}']
        } else {
            utf16_lossy(units.subrange(0, n - 1)) + seq![u as u32 as char]
        }
    }
}

/// Calls `String::from_utf16_lossy`: the string decoded from the code
/// units, each unpaired surrogate replaced by U+FFFD.
#[verifier::external_body]
fn string_from_utf16_lossy(units: &[u16]) -> (res: String)
    ensures
        res@ == utf16_lossy(units@),
{
    String::from_utf16_lossy(units)
}

fn read_units(bs: &[u8], from: usize) -> (res: Vec<u16>)
    requires
        from <= bs@.len(),
    ensures
        res@ == le_units(bs@.subrange(from as int, bs@.len() as int)),
    decreases bs@.len() - from,
{
    if bs.len() - from < 2 {
        Vec::new()
    } else {
        let u: u16 = bs[from] as u16 + 256 * (bs[from + 1] as u16);
        let rest = read_units(bs, from + 2);
        let mut out: Vec<u16> = Vec::new();
        out.push(u);
        let mut i: usize = 0;
        while i < rest.len()
            invariant
                i <= rest@.len(),
                out@ == seq![u] + rest@.take(i as int),
            decreases rest@.len() - i,
        {
            out.push(rest[i]);
            proof {
                assert(out@ =~= seq![u] + rest@.take(i + 1));
            }
            i = i + 1;
        }
        proof {
            let s = bs@.subrange(from as int, bs@.len() as int);
            assert(s.subrange(2, s.len() as int) =~= bs@.subrange(from + 2, bs@.len() as int));
            assert(rest@.take(rest@.len() as int) =~= rest@);
        }
        out
    }
}

fn trim_units(units: &mut Vec<u16>)
    ensures
        final(units)@ == trim_zero_units(old(units)@),
{
    while units.len() > 0 && units[units.len() - 1] == 0
        invariant
            trim_zero_units(units@) == trim_zero_units(old(units)@),
        decreases units@.len(),
    {
        let ghost before = units@;
        units.pop();
        proof {
            assert(units@ =~= before.drop_last());
        }
    }
}

/// The device name in a read response (`resp` starts with the four-byte
/// frame header): none if the payload is shorter than four bytes; else the
/// UTF-16LE units after the payload's first two bytes, without trailing
/// zero units, decoded.
pub fn name_from_response(resp: &[u8]) -> (res: Option<String>)
    requires
        resp@.len() >= 4,
    ensures
        resp@.len() < 8 ==> res is None,
        resp@.len() >= 8 ==> (res matches Some(s) && s@ == utf16_lossy(
            trim_zero_units(le_units(resp@.subrange(6, resp@.len() as int))),
        )),
{
    if resp.len() < 8 {
        return None;
    }
    let mut units = read_units(resp, 6);
    trim_units(&mut units);
    Some(string_from_utf16_lossy(units.as_slice()))
}

proof fn lemma_units_le_index(us: Seq<u16>)
    ensures
        units_le(us).len() == 2 * us.len(),
        forall|i: int|
            0 <= i < us.len() ==> units_le(us)[2 * i] == (us[i] % 256) as u8 && units_le(us)[2 * i
                + 1] == (us[i] / 256) as u8,
    decreases us.len(),
{
    lemma_units_le_len(us);
    if us.len() > 0 {
        lemma_units_le_index(us.drop_last());
        assert forall|i: int| 0 <= i < us.len() implies units_le(us)[2 * i] == (us[i] % 256) as u8
            && units_le(us)[2 * i + 1] == (us[i] / 256) as u8 by {
            if i < us.len() - 1 {
                assert(us.drop_last()[i] == us[i]);
            }
        }
    }
}

proof fn lemma_le_units_index(bs: Seq<u8>)
    ensures
        le_units(bs).len() == bs.len() / 2,
        forall|i: int|
            0 <= i < bs.len() / 2 ==> le_units(bs)[i] == (bs[2 * i] as int + 256 * bs[2 * i
                + 1] as int) as u16,
    decreases bs.len(),
{
    if bs.len() >= 2 {
        let rest = bs.subrange(2, bs.len() as int);
        lemma_le_units_index(rest);
        assert forall|i: int| 0 <= i < bs.len() / 2 implies le_units(bs)[i] == (bs[2 * i] as int
            + 256 * bs[2 * i + 1] as int) as u16 by {
            if i > 0 {
                assert(rest[2 * (i - 1)] == bs[2 * i]);
                assert(rest[2 * (i - 1) + 1] == bs[2 * i + 1]);
            }
        }
    }
}

proof fn lemma_trim_padding(us: Seq<u16>, k: nat)
    requires
        us.len() == 0 || us.last() != 0,
    ensures
        trim_zero_units(us + Seq::new(k, |i: int| 0u16)) == us,
    decreases k,
{
    let padded = us + Seq::new(k, |i: int| 0u16);
    if k > 0 {
        assert(padded.drop_last() =~= us + Seq::new((k - 1) as nat, |i: int| 0u16));
        lemma_trim_padding(us, (k - 1) as nat);
    } else {
        assert(padded =~= us);
    }
}

proof fn lemma_last_unit(cs: Seq<char>)
    requires
        cs.len() > 0,
        cs.last() as u32 != 0,
    ensures
        utf16(cs).len() > 0,
        utf16(cs).last() != 0,
{
    let c = cs.last();
    let v = c as u32;
    assert(utf16(cs) == utf16(cs.drop_last()) + char_units(c));
    if v >= 0x10000 {
        let w = (v - 0x10000) as u32;
        assert(char_units(c).last() == (0xDC00 + w % 0x400) as u16);
    }
}

/// A name written and read back gives the name that was written: the code
/// units read from a response whose bytes after the sixth are the written
/// name field are the written characters' code units, and they decode to the
/// written characters, when the written name does not end in a NUL character
/// (code 0).
pub proof fn lemma_name_read_of_write(name: Seq<char>, resp: Seq<u8>)
    requires
        written_name(name).len() == 0 || written_name(name).last() as u32 != 0,
        resp.len() >= 6,
        resp.subrange(6, resp.len() as int) == name_field(utf16(written_name(name))),
    ensures
        trim_zero_units(le_units(resp.subrange(6, resp.len() as int))) == utf16(written_name(name)),
        utf16_lossy(trim_zero_units(le_units(resp.subrange(6, resp.len() as int)))) == written_name(
            name,
        ),
{
    lemma_fit_prefix_fits(stored_name(name));
    lemma_utf16_roundtrip(written_name(name));
    let us = utf16(written_name(name));
    let bs = name_field(us);
    if written_name(name).len() > 0 {
        lemma_last_unit(written_name(name));
    } else {
        assert(us =~= Seq::<u16>::empty());
    }
    lemma_units_le_index(us);
    lemma_le_units_index(bs);
    let pad = Seq::new((16 - us.len()) as nat, |i: int| 0u16);
    assert forall|i: int| 0 <= i < 16 implies le_units(bs)[i] == (us + pad)[i] by {
        if i < us.len() {
            assert(bs[2 * i] == units_le(us)[2 * i]);
            assert(bs[2 * i + 1] == units_le(us)[2 * i + 1]);
            let u = us[i];
            assert((u % 256) as u8 as int + 256 * ((u / 256) as u8 as int) == u as int);
        } else {
            assert(bs[2 * i] == 0);
            assert(bs[2 * i + 1] == 0);
        }
    }
    assert(le_units(bs) =~= us + pad);
    lemma_trim_padding(us, (16 - us.len()) as nat);
}

/// Decoding the UTF-16 encoding of characters gives the characters back.
pub proof fn lemma_utf16_roundtrip(cs: Seq<char>)
    ensures
        utf16_lossy(utf16(cs)) == cs,
    decreases cs.len(),
{
    if cs.len() > 0 {
        let init = cs.drop_last();
        let c = cs.last();
        lemma_utf16_roundtrip(init);
        let us = utf16(cs);
        let n = us.len() as int;
        let v = c as u32;
        vstd::utf8::char_is_scalar(c);
        vstd::utf8::char_u32_cast(c, v);
        assert(vstd::utf8::is_scalar(v));
        assert(us == utf16(init) + char_units(c));
        if v < 0x10000 {
            assert(us.subrange(0, n - 1) =~= utf16(init));
            assert(us[n - 1] as u32 == v);
        } else {
            let w = (v - 0x10000) as u32;
            let hi = (0xD800 + w / 0x400) as u16;
            let lo = (0xDC00 + w % 0x400) as u16;
            assert(w < 0x100000);
            assert(w / 0x400 < 0x400 && w % 0x400 < 0x400);
            assert(us[n - 2] == hi && us[n - 1] == lo);
            assert(us.subrange(0, n - 2) =~= utf16(init));
            assert(0x10000 + (hi - 0xD800) * 0x400 + (lo - 0xDC00) == v as int) by (nonlinear_arith)
                requires
                    hi == 0xD800 + w / 0x400,
                    lo == 0xDC00 + w % 0x400,
                    v == w + 0x10000,
                    w < 0x100000,
            ;
        }
        assert(cs =~= init + seq![c]);
    }
}

} // verus!
