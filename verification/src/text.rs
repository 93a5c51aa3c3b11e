//! Building text from numbers: decimal and hexadecimal digits of a
//! byte, and appending single characters to a `String`.

use vstd::prelude::*;

verus! {

/// The decimal digit character for `d`.
pub open spec fn digit_char(d: u8) -> char
    recommends
        d < 10,
{
    (('0' as u8) + d) as char
}

/// The lowercase hexadecimal digit character for `d`.
pub open spec fn hex_char(d: u8) -> char
    recommends
        d < 16,
{
    if d < 10 {
        digit_char(d)
    } else {
        (('a' as u8) + (d - 10)) as char
    }
}

/// The decimal digits of `n`, most significant first, without leading
/// zeros.
pub open spec fn dec_digits(n: u8) -> Seq<char> {
    if n < 10 {
        seq![digit_char(n)]
    } else if n < 100 {
        seq![digit_char((n / 10) as u8), digit_char((n % 10) as u8)]
    } else {
        seq![
            digit_char((n / 100) as u8),
            digit_char(((n / 10) % 10) as u8),
            digit_char((n % 10) as u8),
        ]
    }
}

/// The two lowercase hexadecimal digits of `n`.
pub open spec fn hex_digits(n: u8) -> Seq<char> {
    seq![hex_char((n / 16) as u8), hex_char((n % 16) as u8)]
}

/// Relies on `String::push`: appends exactly the one character.
#[verifier::external_body]
pub fn push_char(s: &mut String, c: char)
    ensures
        final(s)@ == old(s)@.push(c),
{
    s.push(c)
}

/// The decimal digit character for `d`, executably.
fn make_digit_char(d: u8) -> (c: char)
    requires
        d < 10,
    ensures
        c == digit_char(d),
{
    (48 + d) as char
}

/// The lowercase hexadecimal digit character for `d`, executably.
fn make_hex_char(d: u8) -> (c: char)
    requires
        d < 16,
    ensures
        c == hex_char(d),
{
    if d < 10 {
        (48 + d) as char
    } else {
        (87 + d) as char
    }
}

/// A one-character string.
pub fn char_to_string(c: char) -> (s: String)
    ensures
        s@ == seq![c],
{
    let mut s = String::new();
    push_char(&mut s, c);
    proof {
        assert(s@ =~= seq![c]);
    }
    s
}

/// Append the decimal digits of `n` to `s`.
pub fn push_u8_dec(s: &mut String, n: u8)
    ensures
        final(s)@ == old(s)@ + dec_digits(n),
{
    if n >= 100 {
        push_char(s, make_digit_char(n / 100));
    }
    if n >= 10 {
        push_char(s, make_digit_char((n / 10) % 10));
    }
    push_char(s, make_digit_char(n % 10));
    proof {
        assert(s@ =~= old(s)@ + dec_digits(n));
    }
}

/// Append the two hexadecimal digits of `n` to `s`.
pub fn push_u8_hex(s: &mut String, n: u8)
    ensures
        final(s)@ == old(s)@ + hex_digits(n),
{
    push_char(s, make_hex_char(n / 16));
    push_char(s, make_hex_char(n % 16));
    proof {
        assert(s@ =~= old(s)@ + hex_digits(n));
    }
}

} // verus!
