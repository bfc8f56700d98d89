//! Text of numbers: hexadecimal and decimal digits as the formatting macros write them.
use vstd::prelude::*;
use vstd::string::*;

verus! {

/// The lowercase hexadecimal digit for a value below 16.
pub open spec fn hex_digit(d: nat) -> char {
    if d < 10 {
        ((d + 48) as u32) as char
    } else {
        ((d + 87) as u32) as char
    }
}

/// The lowercase hexadecimal digits of `v`, most significant first, without leading zeros
/// (a single `0` for zero).
pub open spec fn hex_digits(v: nat) -> Seq<char>
    decreases v,
{
    if v < 16 {
        seq![hex_digit(v)]
    } else {
        hex_digits(v / 16).push(hex_digit(v % 16))
    }
}

/// `n` zero characters.
pub open spec fn zeros(n: nat) -> Seq<char>
    decreases n,
{
    if n == 0 {
        Seq::empty()
    } else {
        zeros((n - 1) as nat).push('0')
    }
}

/// The text of `v` in hexadecimal with a `0x` prefix, padded with zeros to at least five
/// characters in all (the `{:#05x}` format).
pub open spec fn hex_text(v: nat) -> Seq<char> {
    let digits = hex_digits(v);
    let pad: nat = if digits.len() < 3 { (3 - digits.len()) as nat } else { 0 };
    seq!['0', 'x'] + zeros(pad) + digits
}

fn digit_str(d: u32) -> (s: &'static str)
    requires
        d < 16,
    ensures
        s@ == seq![hex_digit(d as nat)],
{
    proof {
        reveal_strlit("0");
        reveal_strlit("1");
        reveal_strlit("2");
        reveal_strlit("3");
        reveal_strlit("4");
        reveal_strlit("5");
        reveal_strlit("6");
        reveal_strlit("7");
        reveal_strlit("8");
        reveal_strlit("9");
        reveal_strlit("a");
        reveal_strlit("b");
        reveal_strlit("c");
        reveal_strlit("d");
        reveal_strlit("e");
        reveal_strlit("f");
    }
    match d {
        0 => "0",
        1 => "1",
        2 => "2",
        3 => "3",
        4 => "4",
        5 => "5",
        6 => "6",
        7 => "7",
        8 => "8",
        9 => "9",
        10 => "a",
        11 => "b",
        12 => "c",
        13 => "d",
        14 => "e",
        _ => "f",
    }
}

proof fn lemma_hex_digits_len(v: nat)
    ensures
        hex_digits(v).len() >= 1,
        v < 0x10 ==> hex_digits(v).len() == 1,
        0x10 <= v < 0x100 ==> hex_digits(v).len() == 2,
        v >= 0x100 ==> hex_digits(v).len() >= 3,
    decreases v,
{
    if v >= 16 {
        lemma_hex_digits_len(v / 16);
    }
}

/// Appends the hexadecimal digits of `v` (without leading zeros) to `s`.
fn push_hex_digits(s: &mut String, v: u32)
    ensures
        final(s)@ == old(s)@ + hex_digits(v as nat),
    decreases v,
{
    if v < 16 {
        s.append(digit_str(v as u32));
    } else {
        push_hex_digits(s, v / 16);
        s.append(digit_str(v % 16));
    }
}

/// Appends `v` to `s` in the `{:#05x}` format: `0x`, then at least three hexadecimal digits.
pub fn push_hex(s: &mut String, v: u32)
    ensures
        final(s)@ == old(s)@ + hex_text(v as nat),
{
    proof {
        lemma_hex_digits_len(v as nat);
        reveal_strlit("0x");
        reveal_strlit("0");
        reveal_strlit("00");
        reveal_with_fuel(zeros, 3);
    }
    s.append("0x");
    if v < 0x10 {
        s.append("00");
    } else if v < 0x100 {
        s.append("0");
    }
    push_hex_digits(s, v);
    assert(final(s)@ =~= old(s)@ + hex_text(v as nat));
}

/// The uppercase hexadecimal digit for a value below 16.
pub open spec fn hex_digit_upper(d: nat) -> char {
    if d < 10 {
        ((d + 48) as u32) as char
    } else {
        ((d + 55) as u32) as char
    }
}

/// The last `n` uppercase hexadecimal digits of `v`, most significant first, with leading
/// zeros.
pub open spec fn hex_upper_fixed(v: nat, n: nat) -> Seq<char>
    decreases n,
{
    if n == 0 {
        Seq::empty()
    } else {
        hex_upper_fixed(v / 16, (n - 1) as nat).push(hex_digit_upper(v % 16))
    }
}

/// The text of a word as eight uppercase hexadecimal digits (the `{:08X}` format).
pub open spec fn hex8(v: u32) -> Seq<char> {
    hex_upper_fixed(v as nat, 8)
}

/// The decimal digits of `v`, most significant first, without leading zeros (the `{}` format).
pub open spec fn decimal_digits(v: nat) -> Seq<char>
    decreases v,
{
    if v < 10 {
        seq![hex_digit(v)]
    } else {
        decimal_digits(v / 10).push(hex_digit(v % 10))
    }
}

fn digit_str_upper(d: u32) -> (s: &'static str)
    requires
        d < 16,
    ensures
        s@ == seq![hex_digit_upper(d as nat)],
{
    proof {
        reveal_strlit("A");
        reveal_strlit("B");
        reveal_strlit("C");
        reveal_strlit("D");
        reveal_strlit("E");
        reveal_strlit("F");
    }
    if d < 10 {
        digit_str(d)
    } else {
        match d {
            10 => "A",
            11 => "B",
            12 => "C",
            13 => "D",
            14 => "E",
            _ => "F",
        }
    }
}

/// Appends the last `n` uppercase hexadecimal digits of `v` to `s`.
fn push_hex_fixed(s: &mut String, v: u32, n: u32)
    ensures
        final(s)@ == old(s)@ + hex_upper_fixed(v as nat, n as nat),
    decreases n,
{
    if n > 0 {
        push_hex_fixed(s, v / 16, n - 1);
        s.append(digit_str_upper(v % 16));
    }
    assert(final(s)@ =~= old(s)@ + hex_upper_fixed(v as nat, n as nat));
}

/// Appends `v` to `s` as eight uppercase hexadecimal digits (the `{:08X}` format).
pub fn push_hex8(s: &mut String, v: u32)
    ensures
        final(s)@ == old(s)@ + hex8(v),
{
    push_hex_fixed(s, v, 8);
}

/// Appends the decimal digits of `v` to `s` (the `{}` format).
pub fn push_decimal(s: &mut String, v: u64)
    ensures
        final(s)@ == old(s)@ + decimal_digits(v as nat),
    decreases v,
{
    if v < 10 {
        s.append(digit_str(v as u32));
    } else {
        push_decimal(s, v / 10);
        s.append(digit_str((v % 10) as u32));
    }
    assert(final(s)@ =~= old(s)@ + decimal_digits(v as nat));
}

} // verus!
