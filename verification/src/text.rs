//! Verified rendering of integers and booleans as text, shared by the
//! decimal codec and the metadata label resolution.

use vstd::prelude::*;
use vstd::string::StringExecFns;

verus! {

/// Relies on std's `String::push`: appends the given char at the end.
pub assume_specification[ String::push ](s: &mut String, c: char)
    ensures
        final(s)@ == old(s)@.push(c),
;

/// The character of one decimal digit.
pub open spec fn digit_char(d: int) -> char {
    if d == 0 {
        '0'
    } else if d == 1 {
        '1'
    } else if d == 2 {
        '2'
    } else if d == 3 {
        '3'
    } else if d == 4 {
        '4'
    } else if d == 5 {
        '5'
    } else if d == 6 {
        '6'
    } else if d == 7 {
        '7'
    } else if d == 8 {
        '8'
    } else {
        '9'
    }
}

/// The base-10 digit string of a natural number, without sign and
/// without leading zeros (zero itself renders as one digit).
pub open spec fn dec_digits(n: nat) -> Seq<char>
    decreases n,
{
    if n < 10 {
        seq![digit_char(n as int)]
    } else {
        dec_digits(n / 10).push(digit_char((n % 10) as int))
    }
}

/// The base-10 digit string of an integer: a minus sign before the
/// magnitude when negative.
pub open spec fn int_digits(n: int) -> Seq<char> {
    if n < 0 {
        seq!['-'] + dec_digits((-n) as nat)
    } else {
        dec_digits(n as nat)
    }
}

/// The textual form of a boolean.
pub open spec fn bool_label(b: bool) -> Seq<char> {
    if b {
        "true"@
    } else {
        "false"@
    }
}

/// One decimal digit as a character.
pub fn digit_char_exec(d: u8) -> (c: char)
    requires
        d < 10,
    ensures
        c == digit_char(d as int),
{
    if d == 0 {
        '0'
    } else if d == 1 {
        '1'
    } else if d == 2 {
        '2'
    } else if d == 3 {
        '3'
    } else if d == 4 {
        '4'
    } else if d == 5 {
        '5'
    } else if d == 6 {
        '6'
    } else if d == 7 {
        '7'
    } else if d == 8 {
        '8'
    } else {
        '9'
    }
}

/// Appends the base-10 digits of `n` to `out`.
pub fn push_u64_digits(out: &mut String, n: u64)
    ensures
        final(out)@ == old(out)@ + dec_digits(n as nat),
    decreases n,
{
    if n >= 10 {
        push_u64_digits(out, n / 10);
    }
    let d: u8 = (n % 10) as u8;
    out.push(digit_char_exec(d));
    proof {
        if n >= 10 {
            assert(final(out)@ =~= old(out)@ + dec_digits(n as nat));
        } else {
            assert(final(out)@ =~= old(out)@ + dec_digits(n as nat));
        }
    }
}

/// Appends the base-10 form of `n` to `out`, with a minus sign when
/// `n` is negative.
pub fn push_i64_digits(out: &mut String, n: i64)
    ensures
        final(out)@ == old(out)@ + int_digits(n as int),
{
    if n < 0 {
        out.push('-');
        let m: u64 = (-(n as i128)) as u64;
        push_u64_digits(out, m);
        proof {
            assert(final(out)@ =~= old(out)@ + int_digits(n as int));
        }
    } else {
        push_u64_digits(out, n as u64);
    }
}

/// The textual form of a boolean, as the host prints it.
pub fn bool_string(b: bool) -> (r: String)
    ensures
        r@ == bool_label(b),
{
    if b {
        String::from_str("true")
    } else {
        String::from_str("false")
    }
}

/// Copies a character vector into a fresh string.
pub fn chars_to_string(v: &Vec<char>) -> (r: String)
    ensures
        r@ == v@,
{
    let mut r = String::new();
    let mut i: usize = 0;
    while i < v.len()
        invariant
            i <= v.len(),
            r@ == v@.take(i as int),
        decreases v.len() - i,
    {
        r.push(v[i]);
        i = i + 1;
        proof {
            assert(r@ =~= v@.take(i as int));
        }
    }
    proof {
        assert(v@.take(v@.len() as int) =~= v@);
    }
    r
}

} // verus!
