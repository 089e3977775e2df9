//! Number formatting for names and tool output: decimal, and hexadecimal
//! with a `0x` prefix and a minimum digit count (as `{:#0Nx}` prints).

use vstd::prelude::*;

verus! {

/// A digit of base 16 (lowercase letters above 9).
pub open spec fn digit_char(d: nat) -> char {
    if d < 10 {
        (d + 48) as char
    } else {
        (d + 87) as char
    }
}

/// The decimal digits of a number, without leading zeros (`0` for zero).
pub open spec fn dec_digits(n: nat) -> Seq<char>
    decreases n,
{
    if n < 10 {
        seq![digit_char(n)]
    } else {
        dec_digits(n / 10).push(digit_char(n % 10))
    }
}

/// The hexadecimal digits of a number, without leading zeros (`0` for zero).
pub open spec fn hex_digits(n: nat) -> Seq<char>
    decreases n,
{
    if n < 16 {
        seq![digit_char(n)]
    } else {
        hex_digits(n / 16).push(digit_char(n % 16))
    }
}

/// `0x`, then the hexadecimal digits, zero-padded to at least `min` digits.
pub open spec fn hex_text(n: nat, min: nat) -> Seq<char> {
    let d = hex_digits(n);
    let pad: nat = if d.len() < min {
        (min - d.len()) as nat
    } else {
        0
    };
    seq!['0', 'x'] + Seq::new(pad, |i: int| '0') + d
}

fn digit_str(d: u64) -> (res: &'static str)
    requires
        d < 16,
    ensures
        res@ == seq![digit_char(d as nat)],
{
    let digits = "0123456789abcdef";
    proof {
        reveal_strlit("0123456789abcdef");
    }
    let i = d as usize;
    let s = digits.substring_char(i, i + 1);
    proof {
        assert(s@ =~= seq![digit_char(d as nat)]);
    }
    s
}

/// The digits of `n` in base `b`, most significant first.
pub open spec fn base_digits(n: nat, b: nat) -> Seq<char> {
    if b == 10 {
        dec_digits(n)
    } else {
        hex_digits(n)
    }
}

fn push_digits(out: &mut String, n: u64, b: u64)
    requires
        b == 10 || b == 16,
    ensures
        final(out)@ == old(out)@ + base_digits(n as nat, b as nat),
    decreases n,
{
    if n >= b {
        push_digits(out, n / b, b);
    }
    out.append(digit_str(n % b));
    proof {
        assert(final(out)@ =~= old(out)@ + base_digits(n as nat, b as nat));
    }
}

fn hex_len(n: u64) -> (res: u64)
    ensures
        res == hex_digits(n as nat).len(),
        res <= 16,
    decreases n,
{
    if n < 16 {
        1
    } else {
        proof {
            assert(n / 16 < 0x1000_0000_0000_0000) by (nonlinear_arith)
                requires
                    n < 0x1_0000_0000_0000_0000,
            ;
        }
        let r = hex_len(n / 16);
        proof {
            lemma_hex_len_bound(n as nat);
        }
        r + 1
    }
}

proof fn lemma_hex_len_bound(n: nat)
    requires
        n < 0x1_0000_0000_0000_0000,
    ensures
        hex_digits(n).len() <= 16,
{
    reveal_with_fuel(pow16, 17);
    assert(pow16(16) == 0x1_0000_0000_0000_0000);
    lemma_hex_len_pow(n, 16);
}

proof fn lemma_hex_len_pow(n: nat, k: nat)
    requires
        k >= 1,
        n < pow16(k),
    ensures
        hex_digits(n).len() <= k,
    decreases k,
{
    if n >= 16 {
        assert(k >= 2) by {
            if k == 1 {
                assert(pow16(1) == 16 * pow16(0));
            }
        }
        assert(n / 16 < pow16((k - 1) as nat)) by (nonlinear_arith)
            requires
                n < pow16(k),
                pow16(k) == 16 * pow16((k - 1) as nat),
        ;
        lemma_hex_len_pow(n / 16, (k - 1) as nat);
    }
}

/// 16 to the power `k`.
pub open spec fn pow16(k: nat) -> nat
    decreases k,
{
    if k == 0 {
        1
    } else {
        16 * pow16((k - 1) as nat)
    }
}

/// Append the decimal digits of a number.
pub fn push_decimal(out: &mut String, n: u64)
    ensures
        final(out)@ == old(out)@ + dec_digits(n as nat),
{
    push_digits(out, n, 10);
}

/// Append `0x` and the hexadecimal digits of a number, zero-padded to at
/// least `min` digits.
pub fn push_hex(out: &mut String, n: u64, min: u64)
    requires
        min <= 64,
    ensures
        final(out)@ == old(out)@ + hex_text(n as nat, min as nat),
{
    let len = hex_len(n);
    out.append("0x");
    proof {
        reveal_strlit("0x");
    }
    let ghost mid = out@;
    let mut pad: u64 = 0;
    if len < min {
        pad = min - len;
    }
    let mut i: u64 = 0;
    while i < pad
        invariant
            i <= pad,
            out@ == mid + Seq::new(i as nat, |j: int| '0'),
        decreases pad - i,
    {
        out.append("0");
        proof {
            reveal_strlit("0");
            assert(out@ =~= mid + Seq::new((i + 1) as nat, |j: int| '0'));
        }
        i = i + 1;
    }
    push_digits(out, n, 16);
    proof {
        assert(out@ =~= old(out)@ + hex_text(n as nat, min as nat));
    }
}

/// The decimal text of a number.
pub fn decimal_string(n: u64) -> (res: String)
    ensures
        res@ == dec_digits(n as nat),
{
    let mut s = String::new();
    push_decimal(&mut s, n);
    proof {
        assert(s@ =~= dec_digits(n as nat));
    }
    s
}

} // verus!
