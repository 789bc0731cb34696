//! Similarity scores and thresholds as IEEE-754 binary32 bit patterns.
//!
//! The store and the host exchange scores as single-precision numbers. Here a
//! score is the 32-bit pattern of such a number, and every question the
//! library asks of it (is it a number, is it finite, is it larger than
//! another) is answered on integers.

use vstd::prelude::*;

verus! {

/// The bit that carries the sign.
pub const SIGN_BIT: u32 = 0x8000_0000;

/// The magnitude of positive infinity; larger magnitudes are not numbers.
pub const INFINITY_MAGNITUDE: u32 = 0x7f80_0000;

/// The magnitude of the number one.
pub const ONE_MAGNITUDE: u32 = 0x3f80_0000;

/// A single-precision number, held as its bit pattern.
#[derive(Clone, Copy, Debug)]
pub struct Score {
    pub bits: u32,
}

impl Score {
    /// The pattern without its sign bit.
    pub open spec fn magnitude(self) -> int {
        if self.bits >= SIGN_BIT {
            self.bits - SIGN_BIT
        } else {
            self.bits as int
        }
    }

    /// The sign bit is set (this holds of negative zero too).
    pub open spec fn negative(self) -> bool {
        self.bits >= SIGN_BIT
    }

    /// The pattern is not a number.
    pub open spec fn nan(self) -> bool {
        self.magnitude() > INFINITY_MAGNITUDE
    }

    /// The pattern is a number other than an infinity.
    pub open spec fn finite(self) -> bool {
        self.magnitude() < INFINITY_MAGNITUDE
    }

    /// Where a number stands among all numbers: the signed magnitude. Of two
    /// numbers the larger has the larger rank, and both zeros have rank 0.
    pub open spec fn rank(self) -> int {
        if self.negative() {
            -self.magnitude()
        } else {
            self.magnitude()
        }
    }

    /// `self > other` as numbers: false as soon as one side is not a number.
    pub open spec fn above(self, other: Score) -> bool {
        !self.nan() && !other.nan() && self.rank() > other.rank()
    }

    /// A number from zero to one, both included.
    pub open spec fn unit(self) -> bool {
        !self.nan() && 0 <= self.rank() <= ONE_MAGNITUDE
    }

    /// The score with this bit pattern.
    pub fn from_bits(bits: u32) -> (score: Score)
        ensures
            score.bits == bits,
    {
        Score { bits }
    }

    /// The bit pattern of this score.
    pub fn to_bits(&self) -> (bits: u32)
        ensures
            bits == self.bits,
    {
        self.bits
    }

    fn magnitude_bits(&self) -> (m: u32)
        ensures
            m == self.magnitude(),
    {
        if self.bits >= SIGN_BIT {
            self.bits - SIGN_BIT
        } else {
            self.bits
        }
    }

    fn rank_value(&self) -> (r: i64)
        ensures
            r == self.rank(),
    {
        let m: i64 = self.magnitude_bits() as i64;
        if self.bits >= SIGN_BIT {
            -m
        } else {
            m
        }
    }

    /// Whether this score is not a number.
    pub fn is_nan(&self) -> (b: bool)
        ensures
            b == self.nan(),
    {
        self.magnitude_bits() > INFINITY_MAGNITUDE
    }

    /// Whether this score is a number other than an infinity.
    pub fn is_finite(&self) -> (b: bool)
        ensures
            b == self.finite(),
    {
        self.magnitude_bits() < INFINITY_MAGNITUDE
    }

    /// Whether this score is a number from zero to one.
    pub fn in_unit_interval(&self) -> (b: bool)
        ensures
            b == self.unit(),
    {
        let r: i64 = self.rank_value();
        !self.is_nan() && 0 <= r && r <= ONE_MAGNITUDE as i64
    }

    /// Whether this score is larger than `other`.
    pub fn exceeds(&self, other: &Score) -> (b: bool)
        ensures
            b == self.above(*other),
    {
        !self.is_nan() && !other.is_nan() && self.rank_value() > other.rank_value()
    }
}

/// No score is larger than itself, and of two scores at most one is larger
/// than the other.
pub proof fn above_is_strict(a: Score, b: Score)
    ensures
        !a.above(a),
        a.above(b) ==> !b.above(a),
{
}

/// Being larger carries over: if `a > b` and `b > c` then `a > c`.
pub proof fn above_is_transitive(a: Score, b: Score, c: Score)
    requires
        a.above(b),
        b.above(c),
    ensures
        a.above(c),
{
}

/// Two numbers are ordered or stand at the same rank.
pub proof fn numbers_are_comparable(a: Score, b: Score)
    requires
        !a.nan(),
        !b.nan(),
    ensures
        a.above(b) || b.above(a) || a.rank() == b.rank(),
{
}

/// Two numbers stand at the same rank only if their patterns agree or both
/// are zero, whatever the sign.
pub proof fn same_rank_same_number(a: Score, b: Score)
    requires
        a.rank() == b.rank(),
    ensures
        a.bits == b.bits || (a.magnitude() == 0 && b.magnitude() == 0),
{
}

/// A number in the unit interval is finite.
pub proof fn unit_is_finite(a: Score)
    requires
        a.unit(),
    ensures
        a.finite(),
{
}

} // verus!
