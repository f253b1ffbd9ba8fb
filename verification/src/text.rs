//! Building the few strings this layer produces itself, character by
//! character, with their exact contents stated.

use vstd::prelude::*;

verus! {

/// The decimal digit character for a value below ten.
pub open spec fn spec_digit(d: int) -> char {
    ((48 + d) as u8) as char
}

/// The decimal digit characters of a nonnegative number, most significant
/// first.
pub open spec fn spec_udecimal(n: nat) -> Seq<char>
    decreases n,
{
    if n < 10 {
        seq![spec_digit(n as int)]
    } else {
        spec_udecimal((n / 10) as nat).push(spec_digit((n % 10) as int))
    }
}

/// The decimal character image of an integer: a minus sign for a negative
/// value, then the digits of its magnitude.
pub open spec fn spec_decimal(v: int) -> Seq<char> {
    if v < 0 {
        seq!['-'] + spec_udecimal((-v) as nat)
    } else {
        spec_udecimal(v as nat)
    }
}

/// Relies on `String::push`: appends exactly the one character.
#[verifier::external_body]
pub(crate) fn push_char(s: &mut String, c: char)
    ensures
        final(s)@ == old(s)@.push(c),
{
    s.push(c);
}

/// Relies on `String::push_str`: appends exactly the string's characters.
#[verifier::external_body]
pub(crate) fn push_str(s: &mut String, t: &str)
    ensures
        final(s)@ == old(s)@ + t@,
{
    s.push_str(t);
}

/// Appends the decimal digits of a nonnegative number.
fn push_udecimal(s: &mut String, n: u64)
    ensures
        final(s)@ == old(s)@ + spec_udecimal(n as nat),
    decreases n,
{
    if n >= 10 {
        push_udecimal(s, n / 10);
        let d: u8 = (n % 10) as u8;
        push_char(s, (48 + d) as char);
        assert(s@ =~= old(s)@ + spec_udecimal(n as nat));
    } else {
        let d: u8 = n as u8;
        push_char(s, (48 + d) as char);
        assert(s@ =~= old(s)@ + spec_udecimal(n as nat));
    }
}

/// Writes a signed 32-bit value in decimal.
pub fn decimal_i32(v: i32) -> (s: String)
    ensures
        s@ == spec_decimal(v as int),
{
    let mut s = String::new();
    if v < 0 {
        push_char(&mut s, '-');
        let n: u64 = (-(v as i64)) as u64;
        push_udecimal(&mut s, n);
        assert(s@ =~= spec_decimal(v as int));
    } else {
        push_udecimal(&mut s, v as u64);
        assert(s@ =~= spec_decimal(v as int));
    }
    s
}

} // verus!
