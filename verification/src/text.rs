//! Rendering of numbers as text, for the messages that errors carry.
use vstd::prelude::*;

verus! {

/// The lower-case hexadecimal digit of `d` (`d < 16`).
pub open spec fn digit_char(d: nat) -> char {
    if d == 0 { '0' }
    else if d == 1 { '1' }
    else if d == 2 { '2' }
    else if d == 3 { '3' }
    else if d == 4 { '4' }
    else if d == 5 { '5' }
    else if d == 6 { '6' }
    else if d == 7 { '7' }
    else if d == 8 { '8' }
    else if d == 9 { '9' }
    else if d == 10 { 'a' }
    else if d == 11 { 'b' }
    else if d == 12 { 'c' }
    else if d == 13 { 'd' }
    else if d == 14 { 'e' }
    else { 'f' }
}

/// Decimal notation of `n`, without leading zeros.
pub open spec fn decimal(n: nat) -> Seq<char>
    decreases n,
{
    if n < 10 {
        seq![digit_char(n)]
    } else {
        decimal(n / 10) + seq![digit_char(n % 10)]
    }
}

/// A byte as `0x` followed by exactly two lower-case hexadecimal digits.
pub open spec fn hex_byte(b: u8) -> Seq<char> {
    seq!['0', 'x', digit_char(b as nat / 16), digit_char(b as nat % 16)]
}

/// The one-character text of the digit `d`.
fn digit_text(d: u8) -> (res: &'static str)
    requires
        d < 16,
    ensures
        res@ == seq![digit_char(d as nat)],
{
    match d {
        0 => { proof { reveal_strlit("0"); } "0" }
        1 => { proof { reveal_strlit("1"); } "1" }
        2 => { proof { reveal_strlit("2"); } "2" }
        3 => { proof { reveal_strlit("3"); } "3" }
        4 => { proof { reveal_strlit("4"); } "4" }
        5 => { proof { reveal_strlit("5"); } "5" }
        6 => { proof { reveal_strlit("6"); } "6" }
        7 => { proof { reveal_strlit("7"); } "7" }
        8 => { proof { reveal_strlit("8"); } "8" }
        9 => { proof { reveal_strlit("9"); } "9" }
        10 => { proof { reveal_strlit("a"); } "a" }
        11 => { proof { reveal_strlit("b"); } "b" }
        12 => { proof { reveal_strlit("c"); } "c" }
        13 => { proof { reveal_strlit("d"); } "d" }
        14 => { proof { reveal_strlit("e"); } "e" }
        _ => { proof { reveal_strlit("f"); } "f" }
    }
}

/// Decimal text of `n`, as `{}` formats an unsigned integer.
pub fn decimal_text(n: usize) -> (res: String)
    ensures
        res@ == decimal(n as nat),
    decreases n,
{
    if n < 10 {
        String::from_str(digit_text(n as u8))
    } else {
        let mut s = decimal_text(n / 10);
        s.append(digit_text((n % 10) as u8));
        s
    }
}

/// Text of a byte as `{:#04x}` formats it.
pub fn hex_byte_text(b: u8) -> (res: String)
    ensures
        res@ == hex_byte(b),
{
    proof {
        reveal_strlit("0x");
    }
    let mut s = String::from_str("0x");
    s.append(digit_text(b / 16));
    s.append(digit_text(b % 16));
    s
}

/// Four lower-case hexadecimal digits, as `{:04x}` formats a `u16`.
pub open spec fn hex4(v: u16) -> Seq<char> {
    seq![
        digit_char(v as nat / 0x1000),
        digit_char(v as nat / 0x100 % 16),
        digit_char(v as nat / 0x10 % 16),
        digit_char(v as nat % 16),
    ]
}

/// Three decimal digits, as `{:03}` formats a `u8`.
pub open spec fn decimal3(b: u8) -> Seq<char> {
    seq![digit_char(b as nat / 100), digit_char(b as nat / 10 % 10), digit_char(b as nat % 10)]
}

/// Text of a `u16` as `{:04x}` formats it.
pub fn hex4_text(v: u16) -> (res: String)
    ensures
        res@ == hex4(v),
{
    let mut s = String::from_str(digit_text((v / 0x1000) as u8));
    s.append(digit_text((v / 0x100 % 16) as u8));
    s.append(digit_text((v / 0x10 % 16) as u8));
    s.append(digit_text((v % 16) as u8));
    s
}

/// Text of a `u8` as `{:03}` formats it.
pub fn decimal3_text(b: u8) -> (res: String)
    ensures
        res@ == decimal3(b),
{
    let mut s = String::from_str(digit_text(b / 100));
    s.append(digit_text(b / 10 % 10));
    s.append(digit_text(b % 10));
    s
}

/// `prefix` followed by `suffix`, as a new string.
pub fn joined(prefix: &str, suffix: &str) -> (res: String)
    ensures
        res@ == prefix@ + suffix@,
{
    let mut s = String::from_str(prefix);
    s.append(suffix);
    s
}

} // verus!
