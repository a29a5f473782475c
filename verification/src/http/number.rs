//! Single-precision numbers, held by their bit patterns.

use vstd::prelude::*;
use vstd::arithmetic::mul::{lemma_mul_inequality, lemma_mul_strict_inequality};
use vstd::arithmetic::power2::{
    lemma2_to64, lemma_pow2_adds, lemma_pow2_pos, lemma_pow2_strictly_increases, pow2,
};

verus! {

/// The bit that holds the sign.
pub const SIGN: u32 = 0x8000_0000;

/// The bit pattern of positive infinity: every pattern whose magnitude lies
/// above it is no number.
pub const INFINITY: u32 = 0x7f80_0000;

/// The bit pattern of the number one.
pub const ONE: u32 = 0x3f80_0000;

/// The weight of the lowest bit of the exponent: two to the power of the 23
/// bits of the fraction below it.
pub const HIDDEN: u32 = 0x80_0000;

/// A single-precision number in the interchange format binary32 of IEEE 754,
/// held by its 32 bits: the sign, eight bits of exponent and 23 of fraction.
///
/// Two values are equal when their bits are, so a zero with the sign set
/// differs from one without, and a pattern that holds no number equals
/// itself.
#[derive(Clone, Copy, Debug, PartialEq, Eq, Structural)]
pub struct Binary32 {
    /// The 32 bits, the sign bit being the highest.
    pub bits: u32,
}

impl Binary32 {
    /// The bits without the sign.
    pub open spec fn magnitude(self) -> int {
        if self.bits >= SIGN {
            self.bits - SIGN
        } else {
            self.bits as int
        }
    }

    /// Whether the sign bit is set; it may be on a zero.
    pub open spec fn signed(self) -> bool {
        self.bits >= SIGN
    }

    /// The eight bits of the exponent.
    pub open spec fn exponent(self) -> int {
        self.magnitude() / (HIDDEN as int)
    }

    /// The 23 bits of the fraction.
    pub open spec fn fraction(self) -> int {
        self.magnitude() % (HIDDEN as int)
    }

    /// Whether the bits hold no number.
    pub open spec fn nan(self) -> bool {
        self.exponent() == 255 && self.fraction() != 0
    }

    /// Whether the bits hold an infinity.
    pub open spec fn infinite(self) -> bool {
        self.exponent() == 255 && self.fraction() == 0
    }

    /// The size of the number, sign aside, counted in units of two to the
    /// power of -149, in which every finite number is whole. With the
    /// exponent at zero it is the fraction; above that, the fraction with a
    /// leading one before it, doubled once for each step of the exponent
    /// above one.
    pub open spec fn scaled(self) -> int {
        if self.exponent() == 0 {
            self.fraction()
        } else {
            (HIDDEN + self.fraction()) * pow2((self.exponent() - 1) as nat)
        }
    }

    /// The number one in the units of [`Binary32::scaled`].
    pub open spec fn unit() -> int {
        pow2(149) as int
    }

    /// Whether the number is greater than one. What holds no number is not.
    pub open spec fn above_one(self) -> bool {
        !self.nan() && !self.signed() && (self.infinite() || self.scaled() > Self::unit())
    }

    /// Whether the number is less than zero. A zero of either sign is not,
    /// and neither is what holds no number.
    pub open spec fn below_zero(self) -> bool {
        !self.nan() && self.signed() && (self.infinite() || self.scaled() > 0)
    }

    /// The number with the given bits.
    pub fn from_bits(bits: u32) -> (r: Binary32)
        ensures
            r.bits == bits,
    {
        Binary32 { bits }
    }

    /// The bits of the number.
    pub fn to_bits(self) -> (bits: u32)
        ensures
            bits == self.bits,
    {
        self.bits
    }

    /// Whether the number is greater than one.
    pub fn is_above_one(self) -> (r: bool)
        ensures
            r == self.above_one(),
    {
        proof {
            lemma_order_of_bits(self);
        }
        ONE < self.bits && self.bits <= INFINITY
    }

    /// Whether the number is less than zero.
    pub fn is_below_zero(self) -> (r: bool)
        ensures
            r == self.below_zero(),
    {
        proof {
            lemma_order_of_bits(self);
        }
        SIGN < self.bits && self.bits - SIGN <= INFINITY
    }
}

/// Among the numbers of one sign, the greater number has the greater bits:
/// a number lies above one exactly when its bits lie above those of one and
/// not above those of infinity, and it lies below zero exactly when the sign
/// is set on bits that are neither zero nor above those of infinity.
pub proof fn lemma_order_of_bits(x: Binary32)
    ensures
        x.above_one() <==> ONE < x.bits <= INFINITY,
        x.below_zero() <==> x.signed() && 0 < x.magnitude() <= INFINITY,
{
    let e = x.exponent();
    let m = x.fraction();
    let h = HIDDEN as int;
    assert(x.magnitude() == e * h + m && 0 <= m < h && 0 <= e <= 255) by {
        assert(0 <= x.magnitude() < 0x8000_0000);
    }
    lemma2_to64();
    assert(pow2(23) == h);
    if 1 <= e <= 254 {
        let p = pow2((e - 1) as nat) as int;
        lemma_pow2_pos((e - 1) as nat);
        assert(x.scaled() == (h + m) * p);
        assert(h * p <= (h + m) * p) by {
            lemma_mul_inequality(h, h + m, p);
        }
        assert(h * p > 0) by {
            lemma_mul_strict_inequality(0, h, p);
        }
        assert(h * p == pow2((e + 22) as nat)) by {
            lemma_pow2_adds(23, (e - 1) as nat);
        }
        if e >= 128 {
            lemma_pow2_strictly_increases(149, (e + 22) as nat);
        } else if e == 127 {
            if m > 0 {
                lemma_mul_strict_inequality(h, h + m, p);
            }
        } else {
            assert((h + m) * p < (2 * h) * p) by {
                lemma_mul_strict_inequality(h + m, 2 * h, p);
            }
            assert((2 * h) * p == pow2((e + 23) as nat)) by {
                assert(pow2(24) == 2 * h);
                lemma_pow2_adds(24, (e - 1) as nat);
            }
            if e < 126 {
                lemma_pow2_strictly_increases((e + 23) as nat, 149);
            }
        }
    } else if e == 0 {
        lemma_pow2_strictly_increases(23, 149);
    }
}

} // verus!
