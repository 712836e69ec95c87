//! Single-precision numbers as bit patterns, and their order.
//!
//! The library never computes with fractional numbers: it only carries them
//! and puts them in order. A [`Scalar`] holds the 32 bits of an IEEE 754
//! binary32 value: one sign bit, then 31 bits of magnitude (exponent and
//! fraction). Among the values that are numbers, a larger magnitude is
//! farther from zero, which makes the order a matter of integers.

use vstd::arithmetic::div_mod::lemma_div_is_ordered;
use vstd::prelude::*;

verus! {

/// The sign bit of a bit pattern.
pub const SIGN_BIT: u32 = 0x8000_0000;

/// The bit pattern of positive infinity; every larger magnitude is not a
/// number.
pub const INFINITY_BITS: u32 = 0x7F80_0000;

/// The bit pattern of 1.
pub const ONE_BITS: u32 = 0x3F80_0000;

/// The bit pattern of the gap between 1 and the next larger value, 2^-23.
pub const EPSILON_BITS: u32 = 0x3400_0000;

/// The weight of the lowest exponent bit: below it lie the 23 bits of the
/// fraction.
pub const FRACTION_RANGE: u32 = 0x80_0000;

/// The power of two with exponent `n`.
pub open spec fn two_to(n: nat) -> nat
    decreases n,
{
    if n == 0 {
        1
    } else {
        2 * two_to((n - 1) as nat)
    }
}

/// A single-precision number, held as its bit pattern.
#[derive(Clone, Copy, Debug)]
pub struct Scalar {
    pub bits: u32,
}

impl Scalar {
    /// The sign bit is set.
    pub open spec fn sign_negative(self) -> bool {
        self.bits >= SIGN_BIT
    }

    /// The 31 bits below the sign bit.
    pub open spec fn magnitude(self) -> int {
        if self.bits >= SIGN_BIT {
            self.bits - SIGN_BIT
        } else {
            self.bits as int
        }
    }

    /// The pattern stands for no number.
    pub open spec fn nan(self) -> bool {
        self.magnitude() > INFINITY_BITS
    }

    /// The place of the value on the number line: the magnitude, counted
    /// downwards from zero where the sign bit is set. Both zeros share the
    /// place 0.
    pub open spec fn rank(self) -> int {
        if self.sign_negative() {
            -self.magnitude()
        } else {
            self.magnitude()
        }
    }

    /// The exponent field: the value of a number with exponent field `e`
    /// between 1 and 254 is its significand times two to the power `e - 150`.
    pub open spec fn exponent(self) -> int {
        self.magnitude() / (FRACTION_RANGE as int)
    }

    /// The significand of such a number: the fraction bits below a leading
    /// one.
    pub open spec fn significand(self) -> int {
        FRACTION_RANGE + self.magnitude() % (FRACTION_RANGE as int)
    }

    /// The whole part of the value, kept within the range of eight bits:
    /// 0 for what is no number, for what is negative and for what lies below
    /// one; 255 for what is 256 or more; and else the value without what
    /// follows the point.
    pub open spec fn whole_u8(self) -> int {
        if self.nan() || self.sign_negative() || self.exponent() < 127 {
            0
        } else if self.exponent() > 134 {
            255
        } else {
            self.significand() / (two_to((150 - self.exponent()) as nat) as int)
        }
    }

    /// The same magnitude with the other sign.
    pub open spec fn neg(self) -> Scalar {
        if self.bits >= SIGN_BIT {
            Scalar { bits: (self.bits - SIGN_BIT) as u32 }
        } else {
            Scalar { bits: (self.bits + SIGN_BIT) as u32 }
        }
    }

    /// `self < other` as numbers: both are numbers, and `self` comes first on
    /// the number line.
    pub open spec fn lt(self, other: Scalar) -> bool {
        !self.nan() && !other.nan() && self.rank() < other.rank()
    }

    /// The value with the given bit pattern.
    pub fn from_bits(bits: u32) -> (s: Scalar)
        ensures
            s.bits == bits,
    {
        Scalar { bits }
    }

    /// The bit pattern of the value.
    pub fn to_bits(&self) -> (bits: u32)
        ensures
            bits == self.bits,
    {
        self.bits
    }

    /// Positive zero.
    pub fn zero() -> (s: Scalar)
        ensures
            s.bits == 0,
    {
        Scalar { bits: 0 }
    }

    /// One.
    pub fn one() -> (s: Scalar)
        ensures
            s.bits == ONE_BITS,
    {
        Scalar { bits: ONE_BITS }
    }

    /// Positive infinity.
    pub fn infinity() -> (s: Scalar)
        ensures
            s.bits == INFINITY_BITS,
    {
        Scalar { bits: INFINITY_BITS }
    }

    /// The gap between 1 and the next larger value.
    pub fn epsilon() -> (s: Scalar)
        ensures
            s.bits == EPSILON_BITS,
    {
        Scalar { bits: EPSILON_BITS }
    }

    /// Whether the pattern stands for no number.
    pub fn is_nan(&self) -> (r: bool)
        ensures
            r == self.nan(),
    {
        let magnitude: u32 = if self.bits >= SIGN_BIT {
            self.bits - SIGN_BIT
        } else {
            self.bits
        };
        magnitude > INFINITY_BITS
    }

    /// The same magnitude with the other sign.
    pub fn negated(&self) -> (s: Scalar)
        ensures
            s == self.neg(),
    {
        if self.bits >= SIGN_BIT {
            Scalar { bits: self.bits - SIGN_BIT }
        } else {
            Scalar { bits: self.bits + SIGN_BIT }
        }
    }

    /// The whole part of the value, kept within the range of eight bits.
    pub fn to_u8(&self) -> (whole: u8)
        ensures
            whole == self.whole_u8(),
    {
        if self.bits >= SIGN_BIT || self.bits > INFINITY_BITS {
            return 0;
        }
        let exponent: u32 = self.bits / FRACTION_RANGE;
        if exponent < 127 {
            return 0;
        }
        if exponent > 134 {
            return 255;
        }
        let significand: u32 = FRACTION_RANGE + self.bits % FRACTION_RANGE;
        let mut divisor: u32 = 0x1_0000;
        let mut e: u32 = 134;
        proof {
            two_to_from_16_to_23();
        }
        while e > exponent
            invariant
                127 <= exponent <= e <= 134,
                divisor == two_to((150 - e) as nat),
                two_to(16) == 0x1_0000,
                two_to(23) == 0x80_0000,
            decreases e,
        {
            proof {
                two_to_grows((150 - e) as nat, 22);
                reveal_with_fuel(two_to, 2);
            }
            divisor = divisor * 2;
            e = e - 1;
        }
        proof {
            two_to_grows(16, (150 - e) as nat);
            assert(significand / divisor <= 255) by (nonlinear_arith)
                requires
                    significand < 0x100_0000,
                    divisor >= 0x1_0000,
            ;
        }
        (significand / divisor) as u8
    }

    /// Whether `self < other` as numbers. False as soon as one of the two is
    /// not a number.
    pub fn less_than(&self, other: &Scalar) -> (r: bool)
        ensures
            r == self.lt(*other),
    {
        if self.is_nan() || other.is_nan() {
            return false;
        }
        let a: i64 = if self.bits >= SIGN_BIT {
            -((self.bits - SIGN_BIT) as i64)
        } else {
            self.bits as i64
        };
        let b: i64 = if other.bits >= SIGN_BIT {
            -((other.bits - SIGN_BIT) as i64)
        } else {
            other.bits as i64
        };
        a < b
    }
}

/// Powers of two grow with the exponent.
pub proof fn two_to_grows(n: nat, m: nat)
    requires
        n <= m,
    ensures
        1 <= two_to(n) <= two_to(m),
    decreases m,
{
    if n < m {
        two_to_grows(n, (m - 1) as nat);
    } else if n > 0 {
        two_to_grows((n - 1) as nat, (m - 1) as nat);
    }
}

/// The powers of two between which the divisors of a truncation lie.
proof fn two_to_from_16_to_23()
    ensures
        two_to(16) == 0x1_0000,
        two_to(22) == 0x40_0000,
        two_to(23) == 0x80_0000,
{
    reveal_with_fuel(two_to, 24);
}

/// The whole part of a number between 1 and 256 lies between the power of
/// two that its exponent names and the next one.
pub proof fn whole_part_bounds(x: Scalar)
    requires
        !x.sign_negative(),
        127 <= x.exponent() <= 134,
    ensures
        two_to((x.exponent() - 127) as nat) <= x.whole_u8() < 2 * two_to(
            (x.exponent() - 127) as nat,
        ),
        1 <= x.whole_u8() <= 255,
{
    reveal_with_fuel(two_to, 24);
    let e = x.exponent();
    let s = x.significand();
    assert(0x80_0000 <= s < 0x100_0000);
    assert(!x.nan());
    if e == 127 {
        assert(x.whole_u8() == s / 0x80_0000);
    } else if e == 128 {
        assert(x.whole_u8() == s / 0x40_0000);
    } else if e == 129 {
        assert(x.whole_u8() == s / 0x20_0000);
    } else if e == 130 {
        assert(x.whole_u8() == s / 0x10_0000);
    } else if e == 131 {
        assert(x.whole_u8() == s / 0x8_0000);
    } else if e == 132 {
        assert(x.whole_u8() == s / 0x4_0000);
    } else if e == 133 {
        assert(x.whole_u8() == s / 0x2_0000);
    } else {
        assert(x.whole_u8() == s / 0x1_0000);
    }
}

/// The whole part lies within eight bits, and grows with the value: the
/// smaller of two numbers never has the larger whole part.
pub proof fn whole_part_grows(a: Scalar, b: Scalar)
    requires
        a.lt(b),
    ensures
        0 <= a.whole_u8() <= b.whole_u8() <= 255,
{
    let ea = a.exponent();
    let eb = b.exponent();
    if !b.sign_negative() && 127 <= eb <= 134 {
        whole_part_bounds(b);
    }
    if !a.sign_negative() && 127 <= ea <= 134 {
        whole_part_bounds(a);
        assert(a.bits < b.bits);
        assert(ea <= eb);
        if eb <= 134 {
            if ea == eb {
                let d = two_to((150 - ea) as nat) as int;
                two_to_grows(0, (150 - ea) as nat);
                assert(a.significand() <= b.significand());
                lemma_div_is_ordered(a.significand(), b.significand(), d);
            } else {
                two_to_grows((ea - 126) as nat, (eb - 127) as nat);
                reveal_with_fuel(two_to, 2);
            }
        }
    }
}

/// Changing the sign keeps the magnitude, mirrors the place on the number
/// line, and is undone by changing it again.
pub proof fn neg_mirrors(a: Scalar)
    ensures
        a.neg().magnitude() == a.magnitude(),
        a.neg().sign_negative() == !a.sign_negative(),
        a.neg().rank() == -a.rank(),
        a.neg().nan() == a.nan(),
        a.neg().neg() == a,
{
}

/// The order is strict: nothing comes before itself, and of two values at
/// most one comes before the other.
pub proof fn lt_is_strict(a: Scalar, b: Scalar)
    ensures
        !a.lt(a),
        a.lt(b) ==> !b.lt(a),
{
}

/// The order is transitive.
pub proof fn lt_is_transitive(a: Scalar, b: Scalar, c: Scalar)
    requires
        a.lt(b),
        b.lt(c),
    ensures
        a.lt(c),
{
}

/// Two numbers are comparable unless they share a place on the number line.
pub proof fn lt_is_total_on_numbers(a: Scalar, b: Scalar)
    requires
        !a.nan(),
        !b.nan(),
    ensures
        a.lt(b) || b.lt(a) || a.rank() == b.rank(),
{
}

} // verus!
