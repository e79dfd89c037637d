//! The heap-growth factor: a double-precision number held by its bit pattern,
//! and the exact product of such a number with a heap size.
//!
//! The engine multiplies a 32-bit heap size by the factor, in double
//! precision, and truncates the product to an unsigned 64-bit integer. Here
//! that is computed on integers alone: the exact product is rounded to 53
//! significant bits, ties to even, and what is left of it after the binary
//! point is dropped.

use vstd::arithmetic::div_mod::{lemma_basic_div, lemma_div_denominator};
use vstd::arithmetic::mul::{lemma_mul_basics, lemma_mul_inequality};
use vstd::arithmetic::power2::{
    lemma2_to64, lemma2_to64_rest, lemma_pow2_pos, lemma_pow2_strictly_increases,
    lemma_pow2_unfold, pow2,
};
use vstd::bits::lemma_u64_shl_is_mul;
use vstd::prelude::*;

verus! {

/// Two to the 63rd: the weight of the sign bit.
pub const SIGN_UNIT: u64 = 0x8000_0000_0000_0000;

/// Two to the 52nd: the weight of the lowest exponent bit, and the implicit
/// leading bit of a normal significand.
pub const FRACTION_UNIT: u64 = 0x10_0000_0000_0000;

/// Two to the 53rd: every significand is below it.
pub const SIGNIFICAND_LIMIT: u64 = 0x20_0000_0000_0000;

/// The number of values of the exponent field.
pub const EXPONENT_RANGE: u64 = 2048;

/// The exponent field of infinities and of values that are not numbers.
pub const EXPONENT_SPECIAL: u64 = 2047;

/// What is subtracted from the exponent field of a normal number to get the
/// power of two that its integer significand is multiplied by.
pub const EXPONENT_BIAS: i64 = 1075;

/// The power of two of every subnormal number.
pub const EXPONENT_SUBNORMAL: i64 = -1074;

/// What a growth factor stands for.
pub enum FactorValue {
    /// Not a number.
    NotANumber,
    /// An infinity.
    Infinite { negative: bool },
    /// `significand * 2^exponent`, negated where `negative` is set.
    Finite { negative: bool, significand: nat, exponent: int },
}

/// A double-precision number in its interchange format: one sign bit, eleven
/// exponent bits and 52 fraction bits, from the highest bit down.
#[derive(Debug, Clone, Copy, PartialEq, Eq, Structural)]
pub struct GrowthFactor {
    pub bits: u64,
}

impl View for GrowthFactor {
    type V = FactorValue;

    open spec fn view(&self) -> FactorValue {
        let negative = self.bits >= SIGN_UNIT;
        let biased = (self.bits / FRACTION_UNIT) % EXPONENT_RANGE;
        let fraction = self.bits % FRACTION_UNIT;
        if biased == EXPONENT_SPECIAL {
            if fraction == 0 {
                FactorValue::Infinite { negative }
            } else {
                FactorValue::NotANumber
            }
        } else if biased == 0 {
            FactorValue::Finite {
                negative,
                significand: fraction as nat,
                exponent: EXPONENT_SUBNORMAL as int,
            }
        } else {
            FactorValue::Finite {
                negative,
                significand: (FRACTION_UNIT + fraction) as nat,
                exponent: biased - EXPONENT_BIAS,
            }
        }
    }
}

/// The number of low-order bits that `n` has beyond 53 significant ones.
pub open spec fn excess_bits(n: nat) -> nat
    decreases n,
{
    if n < SIGNIFICAND_LIMIT {
        0
    } else {
        1 + excess_bits(n / 2)
    }
}

/// `n` counted in units of `2^shift` and rounded to the nearest whole unit;
/// half way between two, to the even one.
pub open spec fn round_half_even(n: nat, shift: nat) -> nat {
    let unit = pow2(shift);
    let whole = n / unit;
    let rest = n % unit;
    if 2 * rest < unit || (2 * rest == unit && whole % 2 == 0) {
        whole
    } else {
        whole + 1
    }
}

/// The integer part of `m * 2^e`.
pub open spec fn floor_scaled(m: nat, e: int) -> nat {
    if e >= 0 {
        m * pow2(e as nat)
    } else {
        m / pow2((-e) as nat)
    }
}

/// `n`, or the largest unsigned 64-bit integer where `n` is beyond it.
pub open spec fn saturated(n: nat) -> u64 {
    if n > u64::MAX {
        u64::MAX
    } else {
        n as u64
    }
}

/// The integer part of the double nearest to `x * significand * 2^exponent`.
///
/// The product is rounded to 53 significant bits. A double whose exponent is
/// below the normal range has fewer, but every such value is below one, and so
/// is what it is rounded to here: the integer part is zero either way.
pub open spec fn product_floor(x: nat, significand: nat, exponent: int) -> nat {
    let exact = x * significand;
    let shift = excess_bits(exact);
    floor_scaled(round_half_even(exact, shift), exponent + shift)
}

/// `2^e` for an exponent below 64.
fn power_of_two(e: u32) -> (p: u64)
    requires
        e < 64,
    ensures
        p == pow2(e as nat),
{
    proof {
        lemma2_to64_rest();
        if e < 63 {
            lemma_pow2_strictly_increases(e as nat, 63);
        }
        lemma_u64_shl_is_mul(1, e as u64);
    }
    1u64 << e
}

/// Rounds `n` to 53 significant bits. Returns the rounded significand and the
/// number of bits that were rounded away.
fn round_to_significand(n: u128) -> (r: (u64, u32))
    requires
        n < 0x20_0000_0000_0000_0000_0000,
    ensures
        r.1 == excess_bits(n as nat),
        r.1 <= 32,
        r.0 == round_half_even(n as nat, r.1 as nat),
        r.0 <= SIGNIFICAND_LIMIT,
{
    let mut whole: u128 = n;
    let mut unit: u128 = 1;
    let mut shift: u32 = 0;
    proof {
        lemma2_to64();
    }
    while shift < 32 && whole >= SIGNIFICAND_LIMIT as u128
        invariant
            shift <= 32,
            n < 0x20_0000_0000_0000_0000_0000,
            pow2(32) == 0x1_0000_0000,
            unit == pow2(shift as nat),
            0 < unit <= 0x1_0000_0000,
            whole == n / unit,
            excess_bits(n as nat) == shift + excess_bits(whole as nat),
        decreases 32 - shift,
    {
        proof {
            lemma_pow2_unfold((shift + 1) as nat);
            lemma_div_denominator(n as int, unit as int, 2);
            if shift + 1 < 32 {
                lemma_pow2_strictly_increases((shift + 1) as nat, 32);
            }
        }
        whole = whole / 2;
        unit = unit * 2;
        shift = shift + 1;
    }
    assert(whole < SIGNIFICAND_LIMIT) by {
        if shift == 32 {
            assert(unit == 0x1_0000_0000);
            assert(n / 0x1_0000_0000 < SIGNIFICAND_LIMIT);
        }
    }
    let rest: u128 = n % unit;
    let twice: u128 = 2 * rest;
    let rounded: u128 = if twice > unit || (twice == unit && whole % 2 == 1) {
        whole + 1
    } else {
        whole
    };
    (rounded as u64, shift)
}

/// The integer part of `m * 2^e`, held to the range of the result.
fn floor_scaled_saturating(m: u64, e: i64) -> (r: u64)
    ensures
        r == saturated(floor_scaled(m as nat, e as int)),
{
    if m == 0 {
        proof {
            if e >= 0 {
                lemma_mul_basics(pow2(e as nat) as int);
            } else {
                lemma_pow2_pos((-e) as nat);
            }
        }
        0
    } else if e >= 64 {
        proof {
            lemma2_to64_rest();
            if e > 64 {
                lemma_pow2_strictly_increases(64, e as nat);
            }
            lemma_mul_inequality(1, m as int, pow2(e as nat) as int);
        }
        u64::MAX
    } else if e >= 0 {
        let p: u64 = power_of_two(e as u32);
        assert(m * p <= 0xFFFF_FFFF_FFFF_FFFF * 0xFFFF_FFFF_FFFF_FFFF) by (nonlinear_arith)
            requires
                m <= 0xFFFF_FFFF_FFFF_FFFF,
                p <= 0xFFFF_FFFF_FFFF_FFFF,
        ;
        let product: u128 = m as u128 * p as u128;
        if product > u64::MAX as u128 {
            u64::MAX
        } else {
            product as u64
        }
    } else if e <= -64 {
        proof {
            lemma2_to64_rest();
            if e < -64 {
                lemma_pow2_strictly_increases(64, (-e) as nat);
            }
            lemma_basic_div(m as int, pow2((-e) as nat) as int);
        }
        0
    } else {
        let p: u64 = power_of_two((-e) as u32);
        proof {
            lemma_pow2_pos((-e) as nat);
        }
        m / p
    }
}

impl GrowthFactor {
    /// The factor with the given bit pattern.
    pub fn from_bits(bits: u64) -> (factor: Self)
        ensures
            factor.bits == bits,
    {
        GrowthFactor { bits }
    }

    /// The bit pattern of the factor.
    pub fn to_bits(&self) -> (bits: u64)
        ensures
            bits == self.bits,
    {
        self.bits
    }

    /// The product of `x` and the factor, as double-precision arithmetic
    /// gives it, converted to an unsigned integer: the fraction is dropped, a
    /// product beyond the range becomes the largest integer, a negative one
    /// zero, and one that is not a number zero.
    pub open spec fn spec_scale(&self, x: u32) -> u64 {
        match self@ {
            FactorValue::NotANumber => 0,
            FactorValue::Infinite { negative } => if negative || x == 0 {
                0
            } else {
                u64::MAX
            },
            FactorValue::Finite { negative, significand, exponent } => if negative {
                0
            } else {
                saturated(product_floor(x as nat, significand, exponent))
            },
        }
    }

    /// Multiplies `x` by the factor.
    pub fn scale(&self, x: u32) -> (scaled: u64)
        ensures
            scaled == self.spec_scale(x),
    {
        let negative: bool = self.bits >= SIGN_UNIT;
        let biased: u64 = (self.bits / FRACTION_UNIT) % EXPONENT_RANGE;
        let fraction: u64 = self.bits % FRACTION_UNIT;
        if biased == EXPONENT_SPECIAL {
            if fraction == 0 && !negative && x != 0 {
                u64::MAX
            } else {
                0
            }
        } else if negative {
            0
        } else {
            let significand: u64 = if biased == 0 {
                fraction
            } else {
                FRACTION_UNIT + fraction
            };
            let exponent: i64 = if biased == 0 {
                EXPONENT_SUBNORMAL
            } else {
                biased as i64 - EXPONENT_BIAS
            };
            assert(x * significand <= 0xFFFF_FFFF * 0x1F_FFFF_FFFF_FFFF) by (nonlinear_arith)
                requires
                    x <= 0xFFFF_FFFF,
                    significand <= 0x1F_FFFF_FFFF_FFFF,
            ;
            let exact: u128 = x as u128 * significand as u128;
            let (rounded, shift) = round_to_significand(exact);
            floor_scaled_saturating(rounded, exponent + shift as i64)
        }
    }
}

} // verus!
