//! Equality of IEEE-754 doubles, each given by its 64-bit pattern.
//!
//! A double is NaN when its eleven exponent bits are all set and its 52-bit
//! fraction is nonzero; it is a zero when every bit but the sign is clear.
//! Two doubles compare equal when neither is NaN and they are the same
//! pattern, or both are zeros (so `+0.0 == -0.0` and `NaN != NaN`).
use vstd::prelude::*;

verus! {

/// The biased exponent: bits 52 to 62.
pub open spec fn exponent_field(b: u64) -> nat {
    ((b as nat) / 0x10_0000_0000_0000) % 0x800
}

/// The fraction: bits 0 to 51.
pub open spec fn fraction_field(b: u64) -> nat {
    (b as nat) % 0x10_0000_0000_0000
}

pub open spec fn is_nan_spec(b: u64) -> bool {
    exponent_field(b) == 0x7ff && fraction_field(b) != 0
}

/// `+0.0` is the pattern 0, `-0.0` the sign bit alone.
pub open spec fn is_zero_spec(b: u64) -> bool {
    b == 0 || b == 0x8000_0000_0000_0000
}

/// What `==` on two doubles answers, given their bit patterns.
pub open spec fn double_eq(a: u64, b: u64) -> bool {
    &&& !is_nan_spec(a)
    &&& !is_nan_spec(b)
    &&& (a == b || (is_zero_spec(a) && is_zero_spec(b)))
}

proof fn lemma_nan_by_masks(b: u64)
    ensures
        is_nan_spec(b) == ((b >> 52u64) & 0x7ffu64 == 0x7ffu64 && b & 0xf_ffff_ffff_ffffu64 != 0),
{
    assert((b >> 52u64) & 0x7ffu64 == (b / 0x10_0000_0000_0000u64) % 0x800u64) by (bit_vector);
    assert(b & 0xf_ffff_ffff_ffffu64 == b % 0x10_0000_0000_0000u64) by (bit_vector);
}

proof fn lemma_both_zero_by_mask(a: u64, b: u64)
    ensures
        ((a | b) & 0x7fff_ffff_ffff_ffffu64 == 0) == (is_zero_spec(a) && is_zero_spec(b)),
{
    assert(((a | b) & 0x7fff_ffff_ffff_ffffu64 == 0) == ((a == 0 || a == 0x8000_0000_0000_0000u64)
        && (b == 0 || b == 0x8000_0000_0000_0000u64))) by (bit_vector);
}

/// Whether the double with bit pattern `b` is NaN.
pub fn is_nan(b: u64) -> (r: bool)
    ensures
        r == is_nan_spec(b),
{
    proof {
        lemma_nan_by_masks(b);
    }
    (b >> 52) & 0x7ff == 0x7ff && b & 0xf_ffff_ffff_ffff != 0
}

/// Whether the doubles with bit patterns `a` and `b` compare equal.
pub fn double_bits_eq(a: u64, b: u64) -> (r: bool)
    ensures
        r == double_eq(a, b),
{
    if is_nan(a) || is_nan(b) {
        false
    } else {
        proof {
            lemma_both_zero_by_mask(a, b);
        }
        a == b || (a | b) & 0x7fff_ffff_ffff_ffff == 0
    }
}

} // verus!

verus! {

/// Equality of doubles is symmetric.
pub proof fn lemma_double_eq_symmetric(a: u64, b: u64)
    ensures
        double_eq(a, b) == double_eq(b, a),
{
}

/// A double equals itself exactly when it is not NaN.
pub proof fn lemma_double_eq_reflexive(a: u64)
    ensures
        double_eq(a, a) == !is_nan_spec(a),
{
}

/// Positive and negative zero compare equal, though their patterns differ.
pub proof fn lemma_signed_zeros_equal()
    ensures
        double_eq(0, 0x8000_0000_0000_0000),
{
}

/// NaN compares equal to nothing, itself included.
pub proof fn lemma_nan_equals_nothing(a: u64, b: u64)
    requires
        is_nan_spec(a),
    ensures
        !double_eq(a, b),
        !double_eq(b, a),
{
}

/// Two doubles that compare equal and are not zeros are the same pattern.
pub proof fn lemma_double_eq_nonzero_is_identity(a: u64, b: u64)
    requires
        double_eq(a, b),
        !is_zero_spec(a),
    ensures
        a == b,
{
}

} // verus!
