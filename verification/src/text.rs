//! Verified construction of the diagnostic strings that the harness
//! reports: appending single characters and decimal or hexadecimal
//! renderings of small integers to a `String`.

use vstd::prelude::*;

verus! {

/// Relies on `alloc::string::String::push`: appends the given character
/// to the end of the string, changing nothing else.
pub assume_specification[ String::push ](s: &mut String, ch: char)
    ensures
        final(s)@ == old(s)@.push(ch),
;

/// The character for one decimal digit.
pub open spec fn digit_char(d: nat) -> char
    recommends
        d < 10,
{
    ((48 + d) as u8) as char
}

/// The character for one hexadecimal digit, lower case.
pub open spec fn hex_digit_char(d: nat) -> char
    recommends
        d < 16,
{
    if d < 10 {
        ((48 + d) as u8) as char
    } else {
        ((87 + d) as u8) as char
    }
}

/// The decimal rendering of `n`, most significant digit first, with no
/// leading zeros (a single `0` for zero itself).
pub open spec fn dec_digits(n: nat) -> Seq<char>
    decreases n,
{
    if n < 10 {
        seq![digit_char(n)]
    } else {
        dec_digits(n / 10) + seq![digit_char(n % 10)]
    }
}

/// The hexadecimal rendering of `n`, most significant digit first, lower
/// case, with no leading zeros (a single `0` for zero itself).
pub open spec fn hex_digits(n: nat) -> Seq<char>
    decreases n,
{
    if n < 16 {
        seq![hex_digit_char(n)]
    } else {
        hex_digits(n / 16) + seq![hex_digit_char(n % 16)]
    }
}

/// Appends the decimal rendering of `n` to `s`.
pub fn push_dec_u16(s: &mut String, n: u16)
    ensures
        final(s)@ == old(s)@ + dec_digits(n as nat),
    decreases n,
{
    if n >= 10 {
        push_dec_u16(s, n / 10);
    }
    let d: u8 = (n % 10) as u8;
    s.push((48 + d) as char);
    proof {
        assert(s@ =~= old(s)@ + dec_digits(n as nat));
    }
}

/// Appends the hexadecimal rendering of `n` to `s`.
pub fn push_hex_u8(s: &mut String, n: u8)
    ensures
        final(s)@ == old(s)@ + hex_digits(n as nat),
    decreases n,
{
    if n >= 16 {
        push_hex_u8(s, n / 16);
    }
    let d: u8 = n % 16;
    let c: char = if d < 10 {
        (48 + d) as char
    } else {
        (87 + d) as char
    };
    s.push(c);
    proof {
        assert(s@ =~= old(s)@ + hex_digits(n as nat));
    }
}

} // verus!
