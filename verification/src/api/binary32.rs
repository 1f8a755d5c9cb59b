use vstd::prelude::*;

verus! {

/// A single-precision IEEE 754 number, held as its 32-bit pattern: one sign
/// bit, eight exponent bits and twenty-three fraction bits.
#[derive(Clone, Copy, Debug, PartialEq, Eq, Structural)]
pub struct Binary32 {
    pub bits: u32,
}

impl Binary32 {
    /// The pattern with the sign bit cleared.
    pub open spec fn magnitude(self) -> int {
        self.bits as int % 0x8000_0000
    }

    pub open spec fn is_negative(self) -> bool {
        self.bits >= 0x8000_0000
    }

    /// Not a number: every exponent bit set and a fraction that is not zero.
    pub open spec fn is_nan(self) -> bool {
        self.magnitude() > 0x7f80_0000
    }

    /// The position of the number on the integer line that orders all
    /// patterns but the NaNs as their values are ordered. Both zeros stand
    /// at 0.
    pub open spec fn rank(self) -> int {
        if self.is_negative() {
            -self.magnitude()
        } else {
            self.magnitude()
        }
    }

    /// `self < other` as IEEE 754 compares: false whenever either is a NaN.
    pub open spec fn lt(self, other: Binary32) -> bool {
        !self.is_nan() && !other.is_nan() && self.rank() < other.rank()
    }

    /// `self <= other` as IEEE 754 compares: false whenever either is a NaN.
    pub open spec fn le(self, other: Binary32) -> bool {
        !self.is_nan() && !other.is_nan() && self.rank() <= other.rank()
    }

    /// Whether the number lies in the closed range from `low` to `high`. A
    /// NaN lies in no range.
    pub open spec fn within(self, low: Binary32, high: Binary32) -> bool {
        low.le(self) && self.le(high)
    }

    pub fn from_bits(bits: u32) -> (number: Binary32)
        ensures
            number.bits == bits,
    {
        Binary32 { bits }
    }

    pub fn to_bits(self) -> (bits: u32)
        ensures
            bits == self.bits,
    {
        self.bits
    }

    /// The number 0.0.
    pub fn zero() -> (number: Binary32)
        ensures
            number.bits == 0,
    {
        Binary32 { bits: 0 }
    }

    /// The number 1.0: exponent field 127, fraction 0.
    pub fn one() -> (number: Binary32)
        ensures
            number.bits == 0x3f80_0000,
    {
        Binary32 { bits: 0x3f80_0000 }
    }

    /// The number 2.0: exponent field 128, fraction 0.
    pub fn two() -> (number: Binary32)
        ensures
            number.bits == 0x4000_0000,
    {
        Binary32 { bits: 0x4000_0000 }
    }

    pub fn not_a_number(self) -> (nan: bool)
        ensures
            nan == self.is_nan(),
    {
        self.bits % 0x8000_0000 > 0x7f80_0000
    }

    pub fn less_than(self, other: Binary32) -> (less: bool)
        ensures
            less == self.lt(other),
    {
        if self.not_a_number() || other.not_a_number() {
            return false;
        }
        let a: u32 = self.bits % 0x8000_0000;
        let b: u32 = other.bits % 0x8000_0000;
        let a_negative: bool = self.bits >= 0x8000_0000;
        let b_negative: bool = other.bits >= 0x8000_0000;
        if a_negative {
            if b_negative {
                b < a
            } else {
                a > 0 || b > 0
            }
        } else {
            if b_negative {
                false
            } else {
                a < b
            }
        }
    }

    pub fn at_most(self, other: Binary32) -> (at_most: bool)
        ensures
            at_most == self.le(other),
    {
        if self.not_a_number() || other.not_a_number() {
            return false;
        }
        !other.less_than(self)
    }

    /// Whether the number lies in the closed range from `low` to `high`.
    pub fn is_within(self, low: Binary32, high: Binary32) -> (inside: bool)
        ensures
            inside == self.within(low, high),
    {
        low.at_most(self) && self.at_most(high)
    }
}

/// No number is less than itself.
pub proof fn law_lt_is_irreflexive(number: Binary32)
    ensures
        !number.lt(number),
{
}

/// Less-than carries over: from `a < b` and `b < c` follows `a < c`.
pub proof fn law_lt_is_transitive(a: Binary32, b: Binary32, c: Binary32)
    requires
        a.lt(b),
        b.lt(c),
    ensures
        a.lt(c),
{
}

/// Of two numbers that are no NaN and differ in value, one is less than the
/// other; two numbers have the same value where they have the same pattern
/// or are the two zeros.
pub proof fn law_lt_is_total_on_numbers(a: Binary32, b: Binary32)
    requires
        !a.is_nan(),
        !b.is_nan(),
    ensures
        a.lt(b) || b.lt(a) || a.bits == b.bits || (a.magnitude() == 0 && b.magnitude() == 0),
{
}

/// At most is less than or of the same value.
pub proof fn law_le_is_lt_or_same_value(a: Binary32, b: Binary32)
    ensures
        a.le(b) <==> a.lt(b) || (!a.is_nan() && !b.is_nan() && a.rank() == b.rank()),
{
}

/// A NaN lies in no range, whatever its ends.
pub proof fn law_nan_is_in_no_range(nan: Binary32, low: Binary32, high: Binary32)
    requires
        nan.is_nan(),
    ensures
        !nan.within(low, high),
{
}

/// Among numbers that are no NaN, to lie in a range is to be neither below
/// its low end nor above its high end.
pub proof fn law_within_is_between(number: Binary32, low: Binary32, high: Binary32)
    requires
        !number.is_nan(),
        !low.is_nan(),
        !high.is_nan(),
    ensures
        number.within(low, high) <==> !number.lt(low) && !high.lt(number),
{
}

/// A NaN is less than nothing, and nothing is less than a NaN.
pub proof fn law_nan_is_unordered(nan: Binary32, other: Binary32)
    requires
        nan.is_nan(),
    ensures
        !nan.lt(other),
        !other.lt(nan),
{
}

/// The named numbers stand in their order: 0.0 < 1.0 < 2.0.
pub proof fn law_named_numbers_in_order()
    ensures
        (Binary32 { bits: 0 }).lt(Binary32 { bits: 0x3f80_0000 }),
        (Binary32 { bits: 0x3f80_0000 }).lt(Binary32 { bits: 0x4000_0000 }),
{
}

} // verus!
