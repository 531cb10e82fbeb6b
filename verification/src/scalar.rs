//! Double-precision values carried by their IEEE 754 bits. The engine never computes with them
//! here: it orders them, picks between them and hands them back unchanged.
use vstd::prelude::*;

verus! {

/// The sign bit.
pub const SIGN: u64 = 0x8000_0000_0000_0000;

/// The bits of positive infinity; larger magnitudes stand for no number.
pub const INFINITY: u64 = 0x7ff0_0000_0000_0000;

/// The bits of 1.0.
pub const ONE: u64 = 0x3ff0_0000_0000_0000;

/// The bits of the lowest finite value.
pub const LOWEST: u64 = 0xffef_ffff_ffff_ffff;

/// The bits of the distance between 1.0 and the next larger value.
pub const EPSILON: u64 = 0x3cb0_0000_0000_0000;

/// A double-precision value, by its bits.
#[derive(Clone, Copy, Debug, PartialEq, Eq, Structural)]
pub struct Scalar {
    pub bits: u64,
}

impl Scalar {
    /// The bits without the sign.
    pub open spec fn magnitude(self) -> int {
        self.bits as int % SIGN as int
    }

    /// Whether the bits stand for a number (possibly infinite).
    pub open spec fn is_number(self) -> bool {
        self.magnitude() <= INFINITY
    }

    /// The place of a number among all numbers: larger numbers have larger ranks, and the two
    /// zeros share one.
    pub open spec fn rank(self) -> int {
        if self.bits < SIGN {
            self.magnitude()
        } else {
            -self.magnitude()
        }
    }

    /// Both are numbers and `self` is the smaller.
    pub open spec fn below(self, other: Scalar) -> bool {
        self.is_number() && other.is_number() && self.rank() < other.rank()
    }

    /// Both are numbers and `self` is not the larger.
    pub open spec fn at_most(self, other: Scalar) -> bool {
        self.is_number() && other.is_number() && self.rank() <= other.rank()
    }

    /// A number above zero.
    pub open spec fn positive(self) -> bool {
        Scalar::of(0).below(self)
    }

    /// The value with these bits.
    pub open spec fn of(bits: u64) -> Scalar {
        Scalar { bits }
    }

    /// The larger number; a number is preferred over what is none.
    pub open spec fn larger(a: Scalar, b: Scalar) -> Scalar {
        if !a.is_number() || a.below(b) {
            b
        } else {
            a
        }
    }

    /// The smaller number; a number is preferred over what is none.
    pub open spec fn smaller(a: Scalar, b: Scalar) -> Scalar {
        if !a.is_number() || b.below(a) {
            b
        } else {
            a
        }
    }

    /// The value with these bits.
    pub fn from_bits(bits: u64) -> (r: Scalar)
        ensures
            r == Scalar::of(bits),
    {
        Scalar { bits }
    }

    /// The bits of the value.
    pub fn to_bits(&self) -> (r: u64)
        ensures
            r == self.bits,
    {
        self.bits
    }

    /// Zero.
    pub fn zero() -> (r: Scalar)
        ensures
            r == Scalar::of(0),
    {
        Scalar { bits: 0 }
    }

    fn number(&self) -> (r: bool)
        ensures
            r == self.is_number(),
    {
        self.bits % SIGN <= INFINITY
    }

    fn place(&self) -> (r: i64)
        ensures
            r == self.rank(),
    {
        let magnitude: i64 = (self.bits % SIGN) as i64;
        if self.bits < SIGN {
            magnitude
        } else {
            -magnitude
        }
    }

    /// `self < other`; false where either is no number.
    pub fn lt(&self, other: &Scalar) -> (r: bool)
        ensures
            r == self.below(*other),
    {
        self.number() && other.number() && self.place() < other.place()
    }

    /// `self <= other`; false where either is no number.
    pub fn le(&self, other: &Scalar) -> (r: bool)
        ensures
            r == self.at_most(*other),
    {
        self.number() && other.number() && self.place() <= other.place()
    }

    /// Whether the value is a number above zero.
    pub fn is_positive(&self) -> (r: bool)
        ensures
            r == self.positive(),
    {
        Scalar::zero().lt(self)
    }

    /// The larger of the two; the other one where one of them is no number.
    pub fn max(&self, other: &Scalar) -> (r: Scalar)
        ensures
            r == Scalar::larger(*self, *other),
    {
        if !self.number() || self.lt(other) {
            *other
        } else {
            *self
        }
    }

    /// The smaller of the two; the other one where one of them is no number.
    pub fn min(&self, other: &Scalar) -> (r: Scalar)
        ensures
            r == Scalar::smaller(*self, *other),
    {
        if !self.number() || other.lt(self) {
            *other
        } else {
            *self
        }
    }

    /// The value without its sign.
    pub fn abs(&self) -> (r: Scalar)
        ensures
            r.bits == self.magnitude(),
    {
        Scalar { bits: self.bits % SIGN }
    }
}

/// Of two numbers one is below the other or they are in the same place, and never two of these
/// at once; what is no number is in no relation to anything.
pub proof fn law_order_is_total_on_numbers(a: Scalar, b: Scalar)
    ensures
        a.is_number() && b.is_number() ==> (a.below(b) || b.below(a) || a.rank() == b.rank()),
        !(a.below(b) && b.at_most(a)),
        a.at_most(b) == (a.is_number() && b.is_number() && !b.below(a)),
        !a.is_number() ==> !a.below(b) && !b.below(a) && !a.at_most(b) && !b.at_most(a),
{
}

/// Of values without the sign bit, up to infinity, the one with the larger bits is the larger;
/// with the sign bit it is the smaller, and not above any value without it. The two zeros are
/// equal, and what lies beyond infinity is in no relation to anything.
pub proof fn law_numbers_are_ordered_by_their_bits(a: u64, b: u64)
    ensures
        a <= INFINITY && b <= INFINITY ==> (Scalar::of(a).below(Scalar::of(b)) <==> a < b),
        a <= INFINITY && b <= INFINITY ==> (Scalar::of(a).at_most(Scalar::of(b)) <==> a <= b),
        SIGN <= a <= SIGN + INFINITY && SIGN <= b <= SIGN + INFINITY ==> (Scalar::of(a).below(
            Scalar::of(b),
        ) <==> b < a),
        SIGN <= a <= SIGN + INFINITY && SIGN <= b <= SIGN + INFINITY ==> (Scalar::of(a).at_most(
            Scalar::of(b),
        ) <==> b <= a),
        SIGN <= a <= SIGN + INFINITY && b <= INFINITY ==> Scalar::of(a).at_most(Scalar::of(b)) && (
        Scalar::of(a).below(Scalar::of(b)) <==> a != SIGN || b != 0),
        INFINITY < a < SIGN || a > SIGN + INFINITY ==> !Scalar::of(a).at_most(Scalar::of(b))
            && !Scalar::of(b).at_most(Scalar::of(a)),
        Scalar::of(a).positive() <==> 0 < a <= INFINITY,
        a < SIGN ==> Scalar::of(a).magnitude() == a,
        a >= SIGN ==> Scalar::of(a).magnitude() == a - SIGN,
{
}

/// The larger of two values is one of them and not below either, the smaller one of them and not
/// above either; where one is no number it is the other.
pub proof fn law_larger_and_smaller(a: Scalar, b: Scalar)
    ensures
        Scalar::larger(a, b) == a || Scalar::larger(a, b) == b,
        Scalar::smaller(a, b) == a || Scalar::smaller(a, b) == b,
        a.is_number() ==> a.at_most(Scalar::larger(a, b)) && Scalar::smaller(a, b).at_most(a),
        b.is_number() ==> b.at_most(Scalar::larger(a, b)) && Scalar::smaller(a, b).at_most(b),
        !a.is_number() ==> Scalar::larger(a, b) == b && Scalar::smaller(a, b) == b,
        a.is_number() && !b.is_number() ==> Scalar::larger(a, b) == a && Scalar::smaller(a, b) == a,
{
}

} // verus!
