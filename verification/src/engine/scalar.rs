//! Finite binary64 numbers, held by their bit patterns and compared exactly.
use vstd::prelude::*;

verus! {

/// The sign bit of a binary64 bit pattern.
pub const SIGN_BIT: u64 = 0x8000_0000_0000_0000;

/// The magnitude of positive infinity: every finite magnitude lies below it.
pub const INFINITY_BITS: u64 = 0x7FF0_0000_0000_0000;

/// The bit pattern of 1.
pub const ONE_BITS: u64 = 0x3FF0_0000_0000_0000;

/// The bit pattern with the sign bit cleared: exponent and fraction.
pub open spec fn magnitude_of(bits: u64) -> int {
    if bits >= SIGN_BIT {
        bits - SIGN_BIT
    } else {
        bits as int
    }
}

/// Whether the bit pattern stands for a finite number, neither infinite nor NaN.
pub open spec fn is_finite_bits(bits: u64) -> bool {
    magnitude_of(bits) < INFINITY_BITS
}

/// Whether the bit pattern stands for no number at all (a NaN).
pub open spec fn is_nan_bits(bits: u64) -> bool {
    magnitude_of(bits) > INFINITY_BITS
}

/// The integer by which a bit pattern is ordered.
///
/// Binary64 is a sign-and-magnitude format in which, among the numbers of
/// one sign, a larger magnitude field means a larger absolute value, the
/// infinities included. So, where neither pattern is a NaN, the number of `a`
/// is less than the number of `b` exactly when `rank_of(a) < rank_of(b)`, and
/// the two are equal as numbers exactly when the ranks are equal. Both zeros
/// have rank 0.
pub open spec fn rank_of(bits: u64) -> int {
    if bits >= SIGN_BIT {
        -magnitude_of(bits)
    } else {
        bits as int
    }
}

/// A finite real number in binary64 form: a cost, a temperature or a rate.
#[derive(Clone, Copy, Debug)]
pub struct Scalar {
    bits: u64,
}

impl Scalar {
    /// Every value is finite.
    #[verifier::type_invariant]
    spec fn finite(self) -> bool {
        is_finite_bits(self.bits)
    }

    /// The bit pattern of the number.
    pub closed spec fn bits(self) -> u64 {
        self.bits
    }

    /// The number with this bit pattern.
    pub closed spec fn of_bits(bits: u64) -> Scalar {
        Scalar { bits }
    }

    /// A number is known by its bit pattern: `of_bits` and `bits` undo each
    /// other.
    pub proof fn lemma_of_bits(self, bits: u64)
        ensures
            Scalar::of_bits(bits).bits() == bits,
            Scalar::of_bits(self.bits()) == self,
    {
    }

    /// The integer by which the number is ordered: see [`rank_of`].
    pub open spec fn rank(self) -> int {
        rank_of(self.bits())
    }

    /// Takes a bit pattern as a number, if it stands for a finite one.
    pub fn from_bits(bits: u64) -> (r: Option<Scalar>)
        ensures
            r.is_some() == is_finite_bits(bits),
            r matches Some(s) ==> s == Scalar::of_bits(bits) && s.bits() == bits,
    {
        let magnitude: u64 = if bits >= SIGN_BIT { bits - SIGN_BIT } else { bits };
        if magnitude < INFINITY_BITS {
            Some(Scalar { bits })
        } else {
            None
        }
    }

    /// The bit pattern of the number.
    pub fn to_bits(&self) -> (bits: u64)
        ensures
            bits == self.bits(),
            is_finite_bits(bits),
    {
        proof {
            use_type_invariant(self);
        }
        self.bits
    }

    /// The number 0.
    pub fn zero() -> (r: Scalar)
        ensures
            r == Scalar::of_bits(0),
            r.bits() == 0,
            r.rank() == 0,
    {
        Scalar { bits: 0 }
    }

    /// The number 1.
    pub fn one() -> (r: Scalar)
        ensures
            r == Scalar::of_bits(ONE_BITS),
            r.bits() == ONE_BITS,
            r.rank() == ONE_BITS,
    {
        Scalar { bits: ONE_BITS }
    }

    /// Whether this number is strictly less than `other`.
    pub fn lt(&self, other: &Scalar) -> (r: bool)
        ensures
            r == (self.rank() < other.rank()),
    {
        bits_lt(self.bits, other.bits)
    }

    /// Whether this number is strictly greater than 0.
    pub fn is_positive(&self) -> (r: bool)
        ensures
            r == (self.rank() > 0),
    {
        0 < self.bits && self.bits < SIGN_BIT
    }

    /// Whether this number is strictly less than what `bits` stands for,
    /// which may be infinite. Nothing is less than a NaN.
    pub fn below_bits(&self, bits: u64) -> (r: bool)
        ensures
            r == (!is_nan_bits(bits) && self.rank() < rank_of(bits)),
    {
        !nan_bits(bits) && bits_lt(self.bits, bits)
    }

    /// Whether this number is strictly greater than what `bits` stands for,
    /// which may be infinite. Nothing is greater than a NaN.
    pub fn above_bits(&self, bits: u64) -> (r: bool)
        ensures
            r == (!is_nan_bits(bits) && rank_of(bits) < self.rank()),
    {
        !nan_bits(bits) && bits_lt(bits, self.bits)
    }
}

/// Whether the bit pattern is a NaN.
fn nan_bits(bits: u64) -> (r: bool)
    ensures
        r == is_nan_bits(bits),
{
    let magnitude: u64 = if bits >= SIGN_BIT { bits - SIGN_BIT } else { bits };
    magnitude > INFINITY_BITS
}

/// Whether the first bit pattern ranks strictly below the second.
fn bits_lt(a: u64, b: u64) -> (r: bool)
    ensures
        r == (rank_of(a) < rank_of(b)),
{
    if a >= SIGN_BIT {
        if b >= SIGN_BIT {
            a > b
        } else {
            a > SIGN_BIT || b > 0
        }
    } else {
        b < SIGN_BIT && a < b
    }
}

} // verus!
