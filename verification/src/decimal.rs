//! The decimal codec: renders a scaled fixed-point binary encoding as
//! an exact base-10 text string, without floating point.
//!
//! The bytes of each encoding are read as a big-endian unsigned
//! magnitude; no sign is recovered.  With scale `s > 0` the rendered
//! string has exactly `s` digits after the decimal point; with scale 0
//! (or a non-positive scale) it is the plain digit string.

use vstd::prelude::*;
use vstd::arithmetic::div_mod::{lemma_fundamental_div_mod, lemma_fundamental_div_mod_converse};
use crate::text::{dec_digits, digit_char_exec, chars_to_string};

verus! {

/// A fixed-point decimal value as it stands on disk: one of three
/// binary shapes, each carrying a big-endian unsigned magnitude, a
/// precision and a scale.  The shape records which physical column the
/// value came from; the rendering depends only on magnitude and scale.
#[derive(Debug, Clone, PartialEq)]
pub enum DecimalValue {
    /// Backed by a 32-bit column: four magnitude bytes.
    FixedInt32 { be: Vec<u8>, precision: i32, scale: i32 },
    /// Backed by a 64-bit column: eight magnitude bytes.
    FixedInt64 { be: Vec<u8>, precision: i32, scale: i32 },
    /// Backed by a byte-array column: any number of magnitude bytes.
    VariableBytes { be: Vec<u8>, precision: i32, scale: i32 },
}

impl DecimalValue {
    /// The big-endian magnitude bytes of this value.
    pub open spec fn magnitude_bytes(self) -> Seq<u8> {
        match self {
            DecimalValue::FixedInt32 { be, .. } => be@,
            DecimalValue::FixedInt64 { be, .. } => be@,
            DecimalValue::VariableBytes { be, .. } => be@,
        }
    }

    /// The scale of this value.
    pub open spec fn scale_of(self) -> int {
        match self {
            DecimalValue::FixedInt32 { scale, .. } => scale as int,
            DecimalValue::FixedInt64 { scale, .. } => scale as int,
            DecimalValue::VariableBytes { scale, .. } => scale as int,
        }
    }
}

/// The natural number that a big-endian byte string denotes; the empty
/// string denotes zero.
pub open spec fn be_nat(s: Seq<u8>) -> nat
    decreases s.len(),
{
    if s.len() == 0 {
        0
    } else {
        be_nat(s.drop_last()) * 256 + s.last() as nat
    }
}

/// The exact text of a magnitude `m` rendered with the given scale.
pub open spec fn rendered_decimal(m: nat, scale: int) -> Seq<char> {
    let digits = dec_digits(m);
    if scale <= 0 {
        digits
    } else if digits.len() <= scale {
        seq!['0', '.'] + Seq::new((scale - digits.len()) as nat, |i: int| '0') + digits
    } else {
        digits.take(digits.len() - scale) + seq!['.'] + digits.skip(digits.len() - scale)
    }
}

/// A byte string denotes zero exactly when all its bytes are zero.
proof fn lemma_be_nat_zero(s: Seq<u8>)
    ensures
        (be_nat(s) == 0) <==> (forall|i: int| 0 <= i < s.len() ==> s[i] == 0),
    decreases s.len(),
{
    if s.len() > 0 {
        lemma_be_nat_zero(s.drop_last());
        if be_nat(s) == 0 {
            assert(be_nat(s.drop_last()) == 0);
            assert(forall|i: int| 0 <= i < s.len() - 1 ==> s.drop_last()[i] == s[i]);
        } else {
            if forall|i: int| 0 <= i < s.len() ==> s[i] == 0 {
                assert(forall|i: int| 0 <= i < s.len() - 1 ==> s.drop_last()[i] == 0);
                assert(be_nat(s) == 0);
            }
        }
    }
}

/// Whether every byte is zero, i.e. the magnitude is zero.
fn is_zero(bytes: &Vec<u8>) -> (r: bool)
    ensures
        r <==> be_nat(bytes@) == 0,
{
    let mut i: usize = 0;
    let mut all: bool = true;
    while i < bytes.len()
        invariant
            i <= bytes.len(),
            all <==> (forall|j: int| 0 <= j < i ==> bytes@[j] == 0),
        decreases bytes.len() - i,
    {
        if bytes[i] != 0 {
            all = false;
        }
        i = i + 1;
    }
    proof {
        lemma_be_nat_zero(bytes@);
    }
    all
}

/// Divides the magnitude in place by 10 and returns the remainder.
fn div10(bytes: &mut Vec<u8>) -> (r: u8)
    ensures
        r < 10,
        final(bytes)@.len() == old(bytes)@.len(),
        be_nat(old(bytes)@) == 10 * be_nat(final(bytes)@) + r,
{
    let ghost orig = bytes@;
    let mut i: usize = 0;
    let mut carry: u8 = 0;
    while i < bytes.len()
        invariant
            i <= bytes@.len(),
            bytes@.len() == orig.len(),
            carry < 10,
            forall|j: int| i <= j < orig.len() ==> bytes@[j] == orig[j],
            be_nat(orig.take(i as int)) == 10 * be_nat(bytes@.take(i as int)) + carry,
        decreases bytes.len() - i,
    {
        let ghost prev = bytes@;
        let ghost c0 = carry as int;
        let b = bytes[i];
        let t: u32 = (carry as u32) * 256 + (b as u32);
        let q: u8 = (t / 10) as u8;
        carry = (t % 10) as u8;
        bytes.set(i, q);
        i = i + 1;
        proof {
            lemma_fundamental_div_mod(t as int, 10);
            assert(orig.take(i as int).drop_last() =~= orig.take(i - 1));
            assert(orig.take(i as int).last() == orig[i - 1]);
            assert(bytes@.take(i as int).drop_last() =~= prev.take(i - 1));
            assert(bytes@.take(i as int).last() == q);
            assert(be_nat(orig.take(i as int)) == be_nat(orig.take(i - 1)) * 256 + orig[i - 1]);
            assert(be_nat(bytes@.take(i as int)) == be_nat(prev.take(i - 1)) * 256 + q);
            let ghost qq = be_nat(prev.take(i - 1)) as int;
            assert(be_nat(orig.take(i - 1)) == 10 * qq + c0);
            assert((10 * qq + c0) * 256 == 10 * (qq * 256) + c0 * 256) by (nonlinear_arith);
            assert(c0 * 256 + b == 10 * q + carry);
            assert(10 * (qq * 256) + 10 * q == 10 * (qq * 256 + q)) by (nonlinear_arith);
        }
    }
    proof {
        assert(orig.take(orig.len() as int) =~= orig);
        assert(bytes@.take(orig.len() as int) =~= bytes@);
    }
    carry
}

/// Appends the digit string of the magnitude to `digits`, consuming
/// the byte buffer by repeated division.
fn push_be_digit_chars(digits: &mut Vec<char>, bytes: &mut Vec<u8>)
    requires
        be_nat(old(bytes)@) > 0,
    ensures
        final(digits)@ == old(digits)@ + dec_digits(be_nat(old(bytes)@)),
    decreases be_nat(old(bytes)@),
{
    let ghost m = be_nat(bytes@);
    let d = div10(bytes);
    let rest_zero = is_zero(bytes);
    proof {
        lemma_fundamental_div_mod_converse(m as int, 10, be_nat(bytes@) as int, d as int);
        assert(m / 10 == be_nat(bytes@));
        assert(m % 10 == d);
    }
    if !rest_zero {
        proof {
            assert(be_nat(bytes@) < m) by (nonlinear_arith)
                requires
                    m == 10 * be_nat(bytes@) + d,
                    be_nat(bytes@) > 0,
            ;
            assert(m >= 10) by (nonlinear_arith)
                requires
                    m == 10 * be_nat(bytes@) + d,
                    be_nat(bytes@) > 0,
            ;
        }
        push_be_digit_chars(digits, bytes);
        digits.push(digit_char_exec(d));
        proof {
            assert(final(digits)@ =~= old(digits)@ + dec_digits(m));
        }
    } else {
        digits.push(digit_char_exec(d));
        proof {
            assert(m < 10);
            assert(final(digits)@ =~= old(digits)@ + dec_digits(m));
        }
    }
}

/// The digit string of the magnitude that `bytes` denotes.
fn magnitude_digit_chars(bytes: &Vec<u8>) -> (r: Vec<char>)
    ensures
        r@ == dec_digits(be_nat(bytes@)),
{
    let mut work: Vec<u8> = bytes.clone();
    let mut digits: Vec<char> = Vec::new();
    if is_zero(&work) {
        digits.push('0');
        proof {
            assert(digits@ =~= dec_digits(0));
        }
    } else {
        push_be_digit_chars(&mut digits, &mut work);
        proof {
            assert(digits@ =~= dec_digits(be_nat(bytes@)));
        }
    }
    digits
}

/// Renders a decimal value as its exact base-10 text.
pub fn decimal_to_string(decimal: &DecimalValue) -> (r: String)
    ensures
        r@ == rendered_decimal(be_nat(decimal.magnitude_bytes()), decimal.scale_of()),
{
    let (bytes, scale): (&Vec<u8>, i32) = match decimal {
        DecimalValue::FixedInt32 { be, scale, .. } => (be, *scale),
        DecimalValue::FixedInt64 { be, scale, .. } => (be, *scale),
        DecimalValue::VariableBytes { be, scale, .. } => (be, *scale),
    };
    let digits = magnitude_digit_chars(bytes);
    if scale <= 0 {
        return chars_to_string(&digits);
    }
    let sc = scale as usize;
    let mut out: Vec<char> = Vec::new();
    if digits.len() <= sc {
        out.push('0');
        out.push('.');
        let mut k: usize = digits.len();
        while k < sc
            invariant
                digits.len() <= k <= sc,
                out@ == seq!['0', '.'] + Seq::new((k - digits@.len()) as nat, |i: int| '0'),
            decreases sc - k,
        {
            out.push('0');
            k = k + 1;
            proof {
                assert(out@ =~= seq!['0', '.'] + Seq::new((k - digits@.len()) as nat, |i: int| '0'));
            }
        }
        let mut j: usize = 0;
        while j < digits.len()
            invariant
                j <= digits@.len(),
                out@ == seq!['0', '.'] + Seq::new((sc - digits@.len()) as nat, |i: int| '0')
                    + digits@.take(j as int),
            decreases digits.len() - j,
        {
            out.push(digits[j]);
            j = j + 1;
            proof {
                assert(out@ =~= seq!['0', '.'] + Seq::new((sc - digits@.len()) as nat, |i: int| '0')
                    + digits@.take(j as int));
            }
        }
        proof {
            assert(digits@.take(digits@.len() as int) =~= digits@);
            assert(out@ =~= rendered_decimal(be_nat(decimal.magnitude_bytes()), decimal.scale_of()));
        }
    } else {
        let cut = digits.len() - sc;
        let mut j: usize = 0;
        while j < digits.len()
            invariant
                j <= digits@.len(),
                cut == digits@.len() - sc,
                0 < sc < digits@.len(),
                out@ == if j <= cut {
                    digits@.take(j as int)
                } else {
                    digits@.take(cut as int) + seq!['.'] + digits@.subrange(cut as int, j as int)
                },
            decreases digits.len() - j,
        {
            if j == cut {
                out.push('.');
            }
            out.push(digits[j]);
            j = j + 1;
            proof {
                if j <= cut {
                    assert(out@ =~= digits@.take(j as int));
                } else {
                    assert(out@ =~= digits@.take(cut as int) + seq!['.']
                        + digits@.subrange(cut as int, j as int));
                }
            }
        }
        proof {
            assert(digits@.subrange(cut as int, digits@.len() as int)
                =~= digits@.skip(digits@.len() - sc));
            assert(out@ =~= rendered_decimal(be_nat(decimal.magnitude_bytes()), decimal.scale_of()));
        }
    }
    chars_to_string(&out)
}

/// The rendering depends on the magnitude and the scale alone: two
/// decimal values whose byte strings denote the same magnitude and
/// whose scales agree render to the same text, whichever of the three
/// binary shapes carries each of them.
pub proof fn lemma_rendering_shape_independent(a: DecimalValue, b: DecimalValue)
    requires
        be_nat(a.magnitude_bytes()) == be_nat(b.magnitude_bytes()),
        a.scale_of() == b.scale_of(),
    ensures
        rendered_decimal(be_nat(a.magnitude_bytes()), a.scale_of())
            == rendered_decimal(be_nat(b.magnitude_bytes()), b.scale_of()),
{
}

} // verus!

