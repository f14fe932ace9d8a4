//! Measures of progress, modelled as IEEE-754 double-precision bit patterns.
//!
//! The convergence policy of the state wrapper only ever reads three things
//! of a measure: how it orders against another measure, whether it is
//! infinite, and the sign of an infinity.  All three are pure functions of
//! the measure's bit pattern, so the library carries measures as their
//! 64-bit patterns and states the policy over those bits.  A caller working
//! in double precision converts losslessly through `to_bits`/`from_bits`;
//! single-precision values widen losslessly to double first.

use vstd::prelude::*;

verus! {

/// Mask of the eleven exponent bits of a double-precision pattern.
pub const EXPONENT_MASK: u64 = 0x7FF0_0000_0000_0000;

/// Mask of the fifty-two fraction bits of a double-precision pattern.
pub const FRACTION_MASK: u64 = 0x000F_FFFF_FFFF_FFFF;

/// Mask of everything but the sign bit.
pub const MAGNITUDE_MASK: u64 = 0x7FFF_FFFF_FFFF_FFFF;

/// Mask of the sign bit alone.
pub const SIGN_MASK: u64 = 0x8000_0000_0000_0000;

/// The pattern of positive infinity: exponent bits all set, fraction zero.
pub const INFINITY_BITS: u64 = 0x7FF0_0000_0000_0000;

/// The pattern of the double-precision machine epsilon, 2^-52.
pub const EPSILON_BITS: u64 = 0x3CB0_0000_0000_0000;

/// True when the pattern's sign bit is clear.
pub open spec fn sign_positive_bits(b: u64) -> bool {
    b & SIGN_MASK == 0
}

/// True when the pattern is a not-a-number: exponent bits all set and a
/// non-zero fraction.
pub open spec fn is_nan_bits(b: u64) -> bool {
    b & EXPONENT_MASK == EXPONENT_MASK && b & FRACTION_MASK != 0
}

/// True when the pattern is an infinity of either sign: exponent bits all
/// set and a zero fraction.
pub open spec fn is_infinite_bits(b: u64) -> bool {
    b & EXPONENT_MASK == EXPONENT_MASK && b & FRACTION_MASK == 0
}

/// True when the pattern is a zero of either sign.
pub open spec fn is_zero_bits(b: u64) -> bool {
    b & MAGNITUDE_MASK == 0
}

/// An order-preserving key for non-NaN patterns: non-negative patterns map
/// above the sign-flipped negative ones, so that unsigned comparison of keys
/// agrees with the numeric order of the values they encode.
pub open spec fn order_key(b: u64) -> u64 {
    if sign_positive_bits(b) {
        b | SIGN_MASK
    } else {
        !b
    }
}

/// The strict order of two patterns, exactly as `<` orders the
/// double-precision values they encode: false whenever either side is a
/// not-a-number or both sides are zeroes, and given by the order keys
/// otherwise.
pub open spec fn lt_bits(a: u64, b: u64) -> bool {
    &&& !is_nan_bits(a)
    &&& !is_nan_bits(b)
    &&& !(is_zero_bits(a) && is_zero_bits(b))
    &&& order_key(a) < order_key(b)
}

/// The strict order is asymmetric: a measure below another is never also
/// above it.
pub proof fn lemma_lt_bits_asymmetric(a: u64, b: u64)
    ensures
        lt_bits(a, b) ==> !lt_bits(b, a),
{
}

/// The strict order is irreflexive.
pub proof fn lemma_lt_bits_irreflexive(a: u64)
    ensures
        !lt_bits(a, a),
{
}

/// The strict order is transitive: only the zero patterns need care, and
/// their two order keys are adjacent, so no key fits strictly between
/// them.
pub proof fn lemma_lt_bits_transitive(a: u64, b: u64, c: u64)
    ensures
        lt_bits(a, b) && lt_bits(b, c) ==> lt_bits(a, c),
{
    if lt_bits(a, b) && lt_bits(b, c) && is_zero_bits(a) && is_zero_bits(c) {
        assert(a & 0x7FFF_FFFF_FFFF_FFFFu64 == 0 ==> a == 0 || a == 0x8000_0000_0000_0000u64)
            by (bit_vector);
        assert(c & 0x7FFF_FFFF_FFFF_FFFFu64 == 0 ==> c == 0 || c == 0x8000_0000_0000_0000u64)
            by (bit_vector);
        assert(0u64 & 0x8000_0000_0000_0000u64 == 0) by (bit_vector);
        assert(0u64 | 0x8000_0000_0000_0000u64 == 0x8000_0000_0000_0000u64) by (bit_vector);
        assert(0x8000_0000_0000_0000u64 & 0x8000_0000_0000_0000u64 != 0) by (bit_vector);
        assert(!0x8000_0000_0000_0000u64 == 0x7FFF_FFFF_FFFF_FFFFu64) by (bit_vector);
        // Both order keys lie in {0x7FFF_FFFF_FFFF_FFFF, 0x8000_0000_0000_0000},
        // so the key of b cannot lie strictly between them.
        assert(false);
    }
}

/// Each sign has exactly one infinite pattern, so two infinities of matching
/// sign are bit-for-bit equal.
pub proof fn lemma_matching_infinities_equal(a: u64, b: u64)
    ensures
        is_infinite_bits(a) && is_infinite_bits(b) && (sign_positive_bits(a)
            == sign_positive_bits(b)) ==> a == b,
{
    assert((a & 0x7FF0_0000_0000_0000u64 == 0x7FF0_0000_0000_0000 && a & 0x000F_FFFF_FFFF_FFFFu64
        == 0 && b & 0x7FF0_0000_0000_0000u64 == 0x7FF0_0000_0000_0000 && b
        & 0x000F_FFFF_FFFF_FFFFu64 == 0 && ((a & 0x8000_0000_0000_0000u64 == 0) <==> (b
        & 0x8000_0000_0000_0000u64 == 0))) ==> a == b) by (bit_vector);
}

/// A measure of progress, stored as the bit pattern of the double-precision
/// value it stands for.
#[derive(Clone, Copy, Debug, PartialEq, Eq, Structural)]
pub struct FloatBits {
    bits: u64,
}

impl View for FloatBits {
    type V = u64;

    closed spec fn view(&self) -> u64 {
        self.bits
    }
}

impl FloatBits {
    /// Wrap a double-precision bit pattern, as `f64::to_bits` produces it.
    pub fn from_bits(bits: u64) -> (r: Self)
        ensures
            r@ == bits,
    {
        FloatBits { bits }
    }

    /// The wrapped bit pattern, as `f64::from_bits` consumes it.
    pub fn bits(&self) -> (r: u64)
        ensures
            r == self@,
    {
        self.bits
    }
}

/// The operations the state wrapper's convergence policy reads of a measure.
///
/// Every measure views into the space of double-precision bit patterns, and
/// each operation is pinned to the corresponding spec function over that
/// view.
pub trait TrellisFloat: View<V = u64> + Sized {
    /// The strict order of two measures, as `<` orders the values they
    /// encode.
    fn lt(&self, other: &Self) -> (r: bool)
        ensures
            r == lt_bits(self@, other@),
    ;

    /// True when the measure is an infinity of either sign.
    fn is_infinite(&self) -> (r: bool)
        ensures
            r == is_infinite_bits(self@),
    ;

    /// True when the measure's sign bit is clear.
    fn is_sign_positive(&self) -> (r: bool)
        ensures
            r == sign_positive_bits(self@),
    ;

    /// Positive infinity, the sentinel for "no progress observed yet".
    fn infinity() -> (r: Self)
        ensures
            r@ == INFINITY_BITS,
    ;

    /// The default relative tolerance: a finite positive non-zero measure,
    /// the machine epsilon of the encoded precision.
    fn epsilon() -> (r: Self)
        ensures
            !is_nan_bits(r@),
            !is_infinite_bits(r@),
            !is_zero_bits(r@),
            sign_positive_bits(r@),
    ;
}

impl TrellisFloat for FloatBits {
    fn lt(&self, other: &Self) -> (r: bool)
        ensures
            r == lt_bits(self@, other@),
    {
        let a = self.bits;
        let b = other.bits;
        let a_nan = a & EXPONENT_MASK == EXPONENT_MASK && a & FRACTION_MASK != 0;
        let b_nan = b & EXPONENT_MASK == EXPONENT_MASK && b & FRACTION_MASK != 0;
        let both_zero = a & MAGNITUDE_MASK == 0 && b & MAGNITUDE_MASK == 0;
        let a_key = if a & SIGN_MASK == 0 {
            a | SIGN_MASK
        } else {
            !a
        };
        let b_key = if b & SIGN_MASK == 0 {
            b | SIGN_MASK
        } else {
            !b
        };
        !a_nan && !b_nan && !both_zero && a_key < b_key
    }

    fn is_infinite(&self) -> (r: bool)
        ensures
            r == is_infinite_bits(self@),
    {
        self.bits & EXPONENT_MASK == EXPONENT_MASK && self.bits & FRACTION_MASK == 0
    }

    fn is_sign_positive(&self) -> (r: bool)
        ensures
            r == sign_positive_bits(self@),
    {
        self.bits & SIGN_MASK == 0
    }

    fn infinity() -> (r: Self)
        ensures
            r@ == INFINITY_BITS,
    {
        FloatBits { bits: INFINITY_BITS }
    }

    fn epsilon() -> (r: Self)
        ensures
            r@ == EPSILON_BITS,
    {
        proof {
            assert(0x3CB0_0000_0000_0000u64 & 0x7FF0_0000_0000_0000u64
                == 0x3CB0_0000_0000_0000u64) by (bit_vector);
            assert(0x3CB0_0000_0000_0000u64 & 0x7FFF_FFFF_FFFF_FFFFu64
                == 0x3CB0_0000_0000_0000u64) by (bit_vector);
            assert(0x3CB0_0000_0000_0000u64 & 0x8000_0000_0000_0000u64 == 0u64) by (bit_vector);
        }
        FloatBits { bits: EPSILON_BITS }
    }
}

} // verus!
