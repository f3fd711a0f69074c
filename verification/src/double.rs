//! Double-precision numbers as bit patterns, and their position relative to zero.

use vstd::prelude::*;

verus! {

/// A double-precision number, held as its IEEE 754 binary64 bit pattern:
/// one sign bit, eleven exponent bits, fifty-two fraction bits.
#[derive(Clone, Copy, Debug, PartialEq, Eq, Structural)]
pub struct Double {
    pub bits: u64,
}

impl Double {
    /// The sign bit is set. Zeros, infinities and NaNs carry a sign bit too.
    pub open spec fn sign_bit(self) -> bool {
        self.bits / 0x8000_0000_0000_0000 == 1
    }

    /// The eleven exponent bits, read as a number.
    pub open spec fn biased_exponent(self) -> nat {
        ((self.bits / 0x10_0000_0000_0000) % 0x800) as nat
    }

    /// The fifty-two fraction bits, read as a number.
    pub open spec fn fraction(self) -> nat {
        (self.bits % 0x10_0000_0000_0000) as nat
    }

    /// The pattern without its sign bit, read as a number. Among numbers of
    /// one sign, the greater magnitude is the greater absolute value.
    pub open spec fn magnitude(self) -> nat {
        self.biased_exponent() * 0x10_0000_0000_0000 + self.fraction()
    }

    /// Not a number: compares false with everything.
    pub open spec fn is_nan(self) -> bool {
        self.biased_exponent() == 0x7ff && self.fraction() != 0
    }

    /// Positive or negative zero.
    pub open spec fn is_zero(self) -> bool {
        self.biased_exponent() == 0 && self.fraction() == 0
    }

    /// Strictly greater than zero.
    pub open spec fn is_positive(self) -> bool {
        !self.is_nan() && !self.is_zero() && !self.sign_bit()
    }

    /// Strictly less than zero.
    pub open spec fn is_negative(self) -> bool {
        !self.is_nan() && !self.is_zero() && self.sign_bit()
    }

    /// Less than or equal to zero. False for NaN, like every comparison.
    pub open spec fn is_non_positive(self) -> bool {
        self.is_zero() || self.is_negative()
    }

    /// The place of a number on the line: its magnitude, negated under a
    /// sign bit. Both zeros stand at 0. It orders all numbers but NaN.
    pub open spec fn rank(self) -> int {
        if self.sign_bit() {
            -(self.magnitude() as int)
        } else {
            self.magnitude() as int
        }
    }

    /// Less than or equal to the other number. False where either is NaN.
    pub open spec fn is_le(self, other: Double) -> bool {
        !self.is_nan() && !other.is_nan() && self.rank() <= other.rank()
    }

    /// Positive zero, the pattern with no bit set.
    pub open spec fn positive_zero() -> Double {
        Double { bits: 0 }
    }

    /// The number itself where it is greater than zero, positive zero
    /// otherwise; NaN and negative zero become positive zero as well.
    pub open spec fn clamped(self) -> Double {
        if self.is_positive() {
            self
        } else {
            Double::positive_zero()
        }
    }

    /// The number with the given bit pattern.
    pub fn from_bits(bits: u64) -> (d: Double)
        ensures
            d.bits == bits,
    {
        Double { bits }
    }

    /// The bit pattern of the number.
    pub fn to_bits(self) -> (bits: u64)
        ensures
            bits == self.bits,
    {
        self.bits
    }

    /// The pattern with the sign bit cleared. Zero has magnitude 0, and NaN
    /// is what lies above the pattern of infinity.
    fn abs_bits(self) -> (m: u64)
        ensures
            m == self.magnitude(),
            m == 0 <==> self.is_zero(),
            m > 0x7ff0_0000_0000_0000 <==> self.is_nan(),
    {
        let b: u64 = self.bits;
        let m: u64 = b & 0x7fff_ffff_ffff_ffff;
        assert(m == ((b / 0x10_0000_0000_0000) % 0x800) * 0x10_0000_0000_0000 + b
            % 0x10_0000_0000_0000) by (bit_vector)
            requires
                m == b & 0x7fff_ffff_ffff_ffff,
        ;
        m
    }

    /// Whether the sign bit is set.
    fn sign(self) -> (s: bool)
        ensures
            s == self.sign_bit(),
    {
        let b: u64 = self.bits;
        assert((b >> 63 == 1) <==> (b / 0x8000_0000_0000_0000 == 1)) by (bit_vector);
        b >> 63 == 1
    }

    /// Whether the number equals zero.
    pub fn eq_zero(self) -> (r: bool)
        ensures
            r == self.is_zero(),
    {
        self.abs_bits() == 0
    }

    /// Whether the number is greater than zero.
    pub fn gt_zero(self) -> (r: bool)
        ensures
            r == self.is_positive(),
    {
        let m: u64 = self.abs_bits();
        m != 0 && m <= 0x7ff0_0000_0000_0000 && !self.sign()
    }

    /// Whether the number is less than zero.
    pub fn lt_zero(self) -> (r: bool)
        ensures
            r == self.is_negative(),
    {
        let m: u64 = self.abs_bits();
        m != 0 && m <= 0x7ff0_0000_0000_0000 && self.sign()
    }

    /// Whether the number is less than or equal to zero.
    pub fn le_zero(self) -> (r: bool)
        ensures
            r == self.is_non_positive(),
    {
        let m: u64 = self.abs_bits();
        m == 0 || (m <= 0x7ff0_0000_0000_0000 && self.sign())
    }

    /// Whether the number is less than or equal to the other.
    pub fn le(self, other: Double) -> (r: bool)
        ensures
            r == self.is_le(other),
    {
        let a: u64 = self.abs_bits();
        let b: u64 = other.abs_bits();
        if a > 0x7ff0_0000_0000_0000 || b > 0x7ff0_0000_0000_0000 {
            return false;
        }
        if self.sign() {
            if other.sign() {
                b <= a
            } else {
                true
            }
        } else {
            if other.sign() {
                a == 0 && b == 0
            } else {
                a <= b
            }
        }
    }

    /// Replaces everything that is not greater than zero by positive zero.
    pub fn clamp_at_zero(self) -> (r: Double)
        ensures
            r == self.clamped(),
            r.is_positive() || r == Double::positive_zero(),
            !r.is_negative(),
            !r.is_nan(),
    {
        if self.gt_zero() {
            self
        } else {
            let z = Double { bits: 0 };
            assert(!z.is_nan() && !z.is_negative());
            z
        }
    }
}

/// A clamped number is a number, and it is not below zero.
pub proof fn lemma_clamped_sign(d: Double)
    ensures
        !d.clamped().is_nan(),
        !d.clamped().is_negative(),
        d.clamped().is_positive() || d.clamped() == Double::positive_zero(),
        Double::positive_zero().is_le(d.clamped()),
{
    assert(!Double::positive_zero().is_nan() && !Double::positive_zero().is_negative());
    assert(Double::positive_zero().rank() == 0);
}

/// The comparisons with zero are comparisons with positive zero.
pub proof fn lemma_zero_comparisons(d: Double)
    ensures
        d.is_non_positive() <==> d.is_le(Double::positive_zero()),
        d.is_positive() <==> !d.is_nan() && !d.is_le(Double::positive_zero()),
        d.is_negative() <==> d.is_non_positive() && !Double::positive_zero().is_le(d),
        d.is_zero() <==> d.is_le(Double::positive_zero()) && Double::positive_zero().is_le(d),
{
    assert(!Double::positive_zero().is_nan());
    assert(Double::positive_zero().rank() == 0);
}

/// Clamping keeps the order: of two numbers, the one that is not greater is
/// not greater after clamping either.
pub proof fn lemma_clamp_monotone(a: Double, b: Double)
    requires
        a.is_le(b),
    ensures
        a.clamped().is_le(b.clamped()),
{
    lemma_clamped_sign(a);
    lemma_clamped_sign(b);
    lemma_zero_comparisons(a);
    lemma_zero_comparisons(b);
}

/// On numbers that are not NaN, the order is reflexive, transitive and total.
pub proof fn lemma_order(a: Double, b: Double, c: Double)
    ensures
        !a.is_nan() ==> a.is_le(a),
        a.is_le(b) && b.is_le(c) ==> a.is_le(c),
        !a.is_nan() && !b.is_nan() ==> a.is_le(b) || b.is_le(a),
{
}

} // verus!
