//! Single-precision numbers carried by their bit patterns.
//!
//! Pointer coordinates, scroll amounts and scale factors are IEEE 754 binary32 numbers. The
//! library never computes with them, it only compares them and picks one of several, so it keeps
//! the 32 bits of each and defines the order on those bits. `f32::to_bits` and `f32::from_bits`
//! convert at the edge.

use vstd::prelude::*;

verus! {

/// A binary32 number, given by its bits.
#[derive(Clone, Copy, Debug, PartialEq, Eq, Structural)]
pub struct Scalar {
    pub bits: u32,
}

/// A pair of numbers: a position, a size or a drag distance.
#[derive(Clone, Copy, Debug, PartialEq, Eq, Structural)]
pub struct Vec2 {
    pub x: Scalar,
    pub y: Scalar,
}

/// The bits of `0.0`.
pub const ZERO: u32 = 0;

/// The bits of `1.0`.
pub const ONE: u32 = 0x3f80_0000;

/// The bits of `2.0`.
pub const TWO: u32 = 0x4000_0000;

/// The bit that holds the sign.
pub const SIGN: u32 = 0x8000_0000;

/// The bits of positive infinity: every greater magnitude is that of a NaN.
pub const INFINITY: u32 = 0x7f80_0000;

impl Scalar {
    /// The bits without the sign.
    pub open spec fn magnitude(self) -> int {
        if self.bits >= SIGN {
            self.bits - SIGN
        } else {
            self.bits as int
        }
    }

    /// Whether the bits are those of a NaN.
    pub open spec fn is_nan(self) -> bool {
        self.magnitude() > INFINITY
    }

    /// The position of a number in the order of the binary32 numbers. Both zeros are at 0.
    pub open spec fn rank(self) -> int {
        if self.bits >= SIGN {
            -self.magnitude()
        } else {
            self.magnitude()
        }
    }

    /// `self < other`, which holds of no NaN.
    pub open spec fn below(self, other: Scalar) -> bool {
        !self.is_nan() && !other.is_nan() && self.rank() < other.rank()
    }

    /// `low <= self && self <= high`.
    pub open spec fn within(self, low: Scalar, high: Scalar) -> bool {
        &&& !self.is_nan() && !low.is_nan() && !high.is_nan()
        &&& low.rank() <= self.rank() <= high.rank()
    }

    /// `self`, moved to the nearer bound where it lies outside `low..=high`. A NaN stays.
    pub open spec fn clamped(self, low: Scalar, high: Scalar) -> Scalar {
        if self.below(low) {
            low
        } else if high.below(self) {
            high
        } else {
            self
        }
    }

    /// The greater of two numbers; the other one where one is a NaN.
    pub open spec fn larger(self, other: Scalar) -> Scalar {
        if self.is_nan() || self.below(other) {
            other
        } else {
            self
        }
    }

    /// The lesser of two numbers; the other one where one is a NaN.
    pub open spec fn smaller(self, other: Scalar) -> Scalar {
        if self.is_nan() || other.below(self) {
            other
        } else {
            self
        }
    }

    /// Whether this is not a number.
    pub fn nan(self) -> (r: bool)
        ensures
            r == self.is_nan(),
    {
        if self.bits >= SIGN {
            self.bits - SIGN > INFINITY
        } else {
            self.bits > INFINITY
        }
    }

    /// Whether `self < other` as floating-point numbers.
    pub fn less_than(self, other: Scalar) -> (r: bool)
        ensures
            r == self.below(other),
    {
        if self.nan() || other.nan() {
            return false;
        }
        if self.bits >= SIGN {
            if other.bits >= SIGN {
                self.bits > other.bits
            } else {
                self.bits > SIGN || other.bits > 0
            }
        } else {
            other.bits < SIGN && self.bits < other.bits
        }
    }

    /// Moves the number into `low..=high`.
    pub fn clamp(self, low: Scalar, high: Scalar) -> (r: Scalar)
        requires
            low.within(low, high),
        ensures
            r == self.clamped(low, high),
    {
        if self.less_than(low) {
            low
        } else if high.less_than(self) {
            high
        } else {
            self
        }
    }

    /// The greater of two numbers.
    pub fn max(self, other: Scalar) -> (r: Scalar)
        ensures
            r == self.larger(other),
    {
        if self.nan() || self.less_than(other) {
            other
        } else {
            self
        }
    }

    /// The lesser of two numbers.
    pub fn min(self, other: Scalar) -> (r: Scalar)
        ensures
            r == self.smaller(other),
    {
        if self.nan() || other.less_than(self) {
            other
        } else {
            self
        }
    }
}

/// A clamped number lies between the bounds, and one that already did is not moved.
pub proof fn clamped_is_within(n: Scalar, low: Scalar, high: Scalar)
    requires
        low.within(low, high),
        !n.is_nan(),
    ensures
        n.clamped(low, high).within(low, high),
        n.within(low, high) ==> n.clamped(low, high) == n,
{
}

/// Clamping twice is clamping once.
pub proof fn clamped_twice(n: Scalar, low: Scalar, high: Scalar)
    requires
        low.within(low, high),
    ensures
        n.clamped(low, high).clamped(low, high) == n.clamped(low, high),
{
}

/// The order is that of binary32 numbers: of two positive ones the one with the lesser bits is the
/// lesser, of two negative ones the one with the greater bits, every negative number is below every
/// positive one, the two zeros are equal, and a NaN is ordered with nothing.
pub proof fn the_order_is_that_of_the_bits(a: Scalar, b: Scalar)
    ensures
        a.bits <= 0x7f80_0000 && b.bits <= 0x7f80_0000 ==> (a.below(b) <==> a.bits < b.bits),
        0x8000_0000 <= a.bits <= 0xff80_0000 && 0x8000_0000 <= b.bits <= 0xff80_0000 ==> (a.below(b)
            <==> a.bits > b.bits),
        0x8000_0000 <= a.bits <= 0xff80_0000 && b.bits <= 0x7f80_0000 ==> (a.below(b) <==> !(a.bits
            == 0x8000_0000 && b.bits == 0)),
        a.bits <= 0x7f80_0000 && 0x8000_0000 <= b.bits <= 0xff80_0000 ==> !a.below(b),
        a.is_nan() <==> (0x7f80_0000 < a.bits < 0x8000_0000 || a.bits > 0xff80_0000),
        a.is_nan() || b.is_nan() ==> !a.below(b),
{
}

/// Numbers are ordered strictly and without gaps: no number is below itself, of two numbers at most
/// one is below the other, and what is below a number is below everything that the number is below.
pub proof fn the_order_is_strict(a: Scalar, b: Scalar, c: Scalar)
    ensures
        !a.below(a),
        a.below(b) ==> !b.below(a),
        a.below(b) && b.below(c) ==> a.below(c),
        b.within(a, c) <==> !a.is_nan() && !b.is_nan() && !c.is_nan() && !b.below(a) && !c.below(b),
{
}

/// The greater and the lesser of two numbers are among the two, neither is on the wrong side of the
/// other number, and a NaN gives way to a number.
pub proof fn the_greater_and_the_lesser_are_among_the_two(a: Scalar, b: Scalar)
    ensures
        a.larger(b) == a || a.larger(b) == b,
        a.smaller(b) == a || a.smaller(b) == b,
        !a.larger(b).below(a) && !a.larger(b).below(b),
        !a.below(a.smaller(b)) && !b.below(a.smaller(b)),
        a.is_nan() ==> a.larger(b) == b && a.smaller(b) == b,
        b.is_nan() && !a.is_nan() ==> a.larger(b) == a && a.smaller(b) == a,
{
}

/// A number below the bounds becomes the lower one, a number above them the upper one, and any other
/// stays, a NaN included.
pub proof fn a_number_is_clamped_to_the_nearer_bound(n: Scalar, low: Scalar, high: Scalar)
    requires
        low.within(low, high),
    ensures
        n.below(low) ==> n.clamped(low, high) == low,
        high.below(n) ==> n.clamped(low, high) == high,
        !n.below(low) && !high.below(n) ==> n.clamped(low, high) == n,
        n.is_nan() ==> n.clamped(low, high) == n,
{
}

} // verus!
