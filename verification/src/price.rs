//! Prices as IEEE 754 binary64 bit patterns.
//!
//! A price is carried as the 64 bits of a double-precision number, so that it can be
//! stored and compared with integer arithmetic alone. The order defined here is the
//! numeric order of the numbers those bits denote: negative before positive, the two
//! zeros equal, and a NaN comparable with nothing, itself included.

use vstd::prelude::*;

verus! {

/// The sign bit of a binary64 pattern.
pub const SIGN_BIT: u64 = 0x8000_0000_0000_0000;

/// The pattern of positive infinity: exponent all ones, fraction zero.
/// A pattern whose magnitude lies above it is a NaN.
pub const INFINITY_BITS: u64 = 0x7FF0_0000_0000_0000;

/// A price, held as the bit pattern of a binary64 number.
///
/// `==` on two prices compares the patterns; [`Price::same_amount`] compares the
/// numbers they denote.
#[derive(Clone, Copy, Debug, PartialEq, Eq, Structural)]
pub struct Price {
    pub bits: u64,
}

impl Price {
    /// The pattern with the sign bit cleared.
    pub open spec fn magnitude(self) -> int {
        self.bits as int % SIGN_BIT as int
    }

    /// Whether the sign bit is set.
    pub open spec fn is_negative(self) -> bool {
        self.bits >= SIGN_BIT
    }

    /// Whether the pattern denotes no number.
    pub open spec fn is_nan(self) -> bool {
        self.magnitude() > INFINITY_BITS
    }

    /// The place of the denoted number on the number line, as a signed magnitude.
    /// For patterns that denote numbers, a smaller rank is a smaller number and an
    /// equal rank is an equal number.
    pub open spec fn rank(self) -> int {
        if self.is_negative() {
            -self.magnitude()
        } else {
            self.magnitude()
        }
    }

    /// `self <= other` as numbers.
    pub open spec fn le(self, other: Price) -> bool {
        &&& !self.is_nan()
        &&& !other.is_nan()
        &&& self.rank() <= other.rank()
    }

    /// `self >= other` as numbers.
    pub open spec fn ge(self, other: Price) -> bool {
        other.le(self)
    }

    /// `self == other` as numbers.
    pub open spec fn num_eq(self, other: Price) -> bool {
        &&& !self.is_nan()
        &&& !other.is_nan()
        &&& self.rank() == other.rank()
    }

    /// A price is at most and at least another exactly when the two are the same
    /// amount.
    pub proof fn lemma_le_and_ge_is_equal(a: Price, b: Price)
        ensures
            a.le(b) && a.ge(b) <==> a.num_eq(b),
    {
    }

    /// Prices that are numbers are totally ordered: of two, one is at most the
    /// other, and the order is transitive. A price that is not a number is in no
    /// order with any price.
    pub proof fn lemma_order_of_numbers(a: Price, b: Price, c: Price)
        ensures
            !a.is_nan() && !b.is_nan() ==> a.le(b) || b.le(a),
            a.le(b) && b.le(c) ==> a.le(c),
            a.is_nan() ==> !a.le(b) && !b.le(a) && !a.num_eq(b),
            !a.is_nan() ==> a.le(a),
    {
    }

    /// The price with the given binary64 bit pattern.
    pub fn from_bits(bits: u64) -> (p: Price)
        ensures
            p.bits == bits,
    {
        Price { bits }
    }

    /// The binary64 bit pattern of this price.
    pub fn to_bits(&self) -> (bits: u64)
        ensures
            bits == self.bits,
    {
        self.bits
    }

    /// Whether this price denotes no number.
    pub fn is_not_a_number(&self) -> (r: bool)
        ensures
            r == self.is_nan(),
    {
        self.bits % SIGN_BIT > INFINITY_BITS
    }

    /// Whether this price is at most `limit`, as numbers.
    pub fn at_most(&self, limit: &Price) -> (r: bool)
        ensures
            r == self.le(*limit),
    {
        if self.is_not_a_number() || limit.is_not_a_number() {
            return false;
        }
        let a: u64 = self.bits % SIGN_BIT;
        let b: u64 = limit.bits % SIGN_BIT;
        if self.bits >= SIGN_BIT {
            if limit.bits >= SIGN_BIT {
                a >= b
            } else {
                true
            }
        } else {
            if limit.bits >= SIGN_BIT {
                a == 0 && b == 0
            } else {
                a <= b
            }
        }
    }

    /// Whether this price is at least `limit`, as numbers.
    pub fn at_least(&self, limit: &Price) -> (r: bool)
        ensures
            r == self.ge(*limit),
    {
        limit.at_most(self)
    }

    /// Whether this price and `other` denote the same number.
    pub fn same_amount(&self, other: &Price) -> (r: bool)
        ensures
            r == self.num_eq(*other),
    {
        self.at_most(other) && other.at_most(self)
    }
}

} // verus!
