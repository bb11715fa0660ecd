//! Positional notation: digit glyphs, the text of an integer in a base, and the
//! value of a run of digits.

use vstd::prelude::*;
use vstd::string::*;

verus! {

/// The bases a calculator can work in: binary, decimal, hexadecimal.
pub open spec fn supported_base(base: int) -> bool {
    base == 2 || base == 10 || base == 16
}

/// The glyph of the digit `d`: `0` to `9`, then `A` to `F`.
pub open spec fn glyph(d: int) -> char {
    seq!['0', '1', '2', '3', '4', '5', '6', '7', '8', '9', 'A', 'B', 'C', 'D', 'E', 'F'][d]
}

/// The digits of `n` in `base`, most significant first, without padding.
pub open spec fn digits_text(n: nat, base: nat) -> Seq<char>
    decreases n,
    via digits_text_decreases
{
    if base < 2 || n < base {
        seq![glyph(n as int)]
    } else {
        digits_text(n / base, base).push(glyph((n % base) as int))
    }
}

#[via_fn]
proof fn digits_text_decreases(n: nat, base: nat) {
    if !(base < 2 || n < base) {
        assert(n / base < n) by (nonlinear_arith)
            requires
                base >= 2,
                n >= base,
        ;
    }
}

/// The text of the 64-bit signed integer `n` in `base`.
///
/// A non-negative number is its digits. A negative number is a minus sign and
/// the digits of its magnitude in decimal, and the digits of its 64-bit two's
/// complement in the other bases.
pub open spec fn number_text(n: i64, base: int) -> Seq<char> {
    if n >= 0 {
        digits_text(n as nat, base as nat)
    } else if base == 10 {
        seq!['-'] + digits_text((-n) as nat, 10)
    } else {
        digits_text((n + 0x1_0000_0000_0000_0000) as nat, base as nat)
    }
}

/// The number that the digits `ds`, most significant first, spell in `base`.
pub open spec fn digits_value(ds: Seq<i64>, base: int) -> int
    decreases ds.len(),
{
    if ds.len() == 0 {
        0
    } else {
        digits_value(ds.drop_last(), base) * base + ds.last()
    }
}

/// The one-character string that shows the digit `d`.
pub fn digit_str(d: u64) -> (s: &'static str)
    requires
        d < 16,
    ensures
        s@ == seq![glyph(d as int)],
{
    proof {
        reveal_strlit("0");
        reveal_strlit("1");
        reveal_strlit("2");
        reveal_strlit("3");
        reveal_strlit("4");
        reveal_strlit("5");
        reveal_strlit("6");
        reveal_strlit("7");
        reveal_strlit("8");
        reveal_strlit("9");
        reveal_strlit("A");
        reveal_strlit("B");
        reveal_strlit("C");
        reveal_strlit("D");
        reveal_strlit("E");
        reveal_strlit("F");
    }
    match d {
        0 => "0",
        1 => "1",
        2 => "2",
        3 => "3",
        4 => "4",
        5 => "5",
        6 => "6",
        7 => "7",
        8 => "8",
        9 => "9",
        10 => "A",
        11 => "B",
        12 => "C",
        13 => "D",
        14 => "E",
        _ => "F",
    }
}

/// Appends the digits of `m` in `base` to `out`.
pub fn push_digits(out: &mut String, m: u64, base: u64)
    requires
        2 <= base <= 16,
    ensures
        final(out)@ == old(out)@ + digits_text(m as nat, base as nat),
    decreases m,
{
    if m >= base {
        assert(m / base < m) by (nonlinear_arith)
            requires
                base >= 2,
                m >= base,
        ;
        push_digits(out, m / base, base);
    } else {
        assert(m % base == m) by (nonlinear_arith)
            requires
                m < base,
        ;
    }
    out.append(digit_str(m % base));
}

/// The text of `n` in `base`.
pub fn render_number(n: i64, base: u8) -> (s: String)
    requires
        supported_base(base as int),
    ensures
        s@ == number_text(n, base as int),
{
    let mut s = String::new();
    if n >= 0 {
        push_digits(&mut s, n as u64, base as u64);
    } else if base == 10 {
        s.append("-");
        proof {
            reveal_strlit("-");
        }
        let magnitude: i128 = -(n as i128);
        push_digits(&mut s, magnitude as u64, 10);
    } else {
        let complement: i128 = n as i128 + 0x1_0000_0000_0000_0000i128;
        push_digits(&mut s, complement as u64, base as u64);
    }
    s
}

} // verus!
