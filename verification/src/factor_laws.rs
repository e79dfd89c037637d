//! What holds of the product of a heap size and a growth factor.

use crate::config::DEFAULT_GROWTH_FACTOR_BITS;
use crate::factor::{
    excess_bits, floor_scaled, product_floor, round_half_even, saturated, FactorValue,
    GrowthFactor, SIGNIFICAND_LIMIT,
};
use vstd::arithmetic::div_mod::{
    lemma_div_by_multiple, lemma_div_denominator, lemma_fundamental_div_mod,
    lemma_mod_multiples_basic,
};
use vstd::arithmetic::mul::{
    lemma_mul_basics, lemma_mul_is_associative, lemma_mul_is_distributive_add_other_way,
    lemma_mul_nonnegative, lemma_mul_strict_inequality,
};
use vstd::arithmetic::power2::{
    lemma2_to64, lemma2_to64_rest, lemma_pow2_adds, lemma_pow2_pos, lemma_pow2_unfold, pow2,
};
use vstd::prelude::*;

verus! {

/// The number of bits beyond 53 is the least number of low-order bits to
/// drop from `n` for what is left to be below `2^53`; what is left, rounded,
/// is not above `2^53`.
pub proof fn lemma_excess_bits_least(n: nat)
    ensures
        n / pow2(excess_bits(n)) < SIGNIFICAND_LIMIT,
        excess_bits(n) > 0 ==> n / pow2((excess_bits(n) - 1) as nat) >= SIGNIFICAND_LIMIT,
        round_half_even(n, excess_bits(n)) <= SIGNIFICAND_LIMIT,
    decreases n,
{
    lemma2_to64();
    if n >= SIGNIFICAND_LIMIT {
        let fewer = excess_bits(n / 2);
        lemma_excess_bits_least(n / 2);
        lemma_pow2_pos(fewer);
        lemma_pow2_unfold(fewer + 1);
        lemma_div_denominator(n as int, 2, pow2(fewer) as int);
        if fewer > 0 {
            lemma_pow2_pos((fewer - 1) as nat);
            lemma_pow2_unfold(fewer);
            lemma_div_denominator(n as int, 2, pow2((fewer - 1) as nat) as int);
        }
    }
}

/// Rounding moves a number by half a unit at most, and by exactly half a
/// unit only to an even number of units.
pub proof fn lemma_round_half_even_nearest(n: nat, shift: nat)
    ensures
        ({
            let unit = pow2(shift) as int;
            let rounded = round_half_even(n, shift) * unit;
            &&& -unit <= 2 * (rounded - n) <= unit
            &&& (2 * (rounded - n) == unit || 2 * (n - rounded) == unit) ==> round_half_even(
                n,
                shift,
            ) % 2 == 0
        }),
{
    let unit = pow2(shift) as int;
    let whole = n as int / unit;
    lemma_pow2_pos(shift);
    lemma_fundamental_div_mod(n as int, unit);
    lemma_mul_is_distributive_add_other_way(unit, whole, 1);
    assert(whole * unit == unit * whole) by (nonlinear_arith);
}

/// A number below `2^(53 + k)` has at most `k` bits beyond 53.
pub proof fn lemma_excess_bits_bound(n: nat, k: nat)
    requires
        n < SIGNIFICAND_LIMIT * pow2(k),
    ensures
        excess_bits(n) <= k,
    decreases k,
{
    if n >= SIGNIFICAND_LIMIT {
        if k == 0 {
            lemma2_to64();
        } else {
            lemma_pow2_unfold(k);
            lemma_excess_bits_bound(n / 2, (k - 1) as nat);
        }
    }
}

/// Moving a power of two from the number into the exponent leaves the
/// integer part of the scaled number as it is.
pub proof fn lemma_floor_scaled_shift(a: nat, d: nat, e: int)
    ensures
        floor_scaled(a * pow2(d), e) == floor_scaled(a, e + d),
{
    lemma_pow2_pos(d);
    lemma_mul_nonnegative(a as int, pow2(d) as int);
    if e >= 0 {
        lemma_pow2_adds(d, e as nat);
        lemma_mul_is_associative(a as int, pow2(d) as int, pow2(e as nat) as int);
    } else if e + d >= 0 {
        let g = (-e) as nat;
        let rest = (d - g) as nat;
        lemma_pow2_adds(rest, g);
        lemma_pow2_pos(g);
        lemma_pow2_pos(rest);
        lemma_mul_is_associative(a as int, pow2(rest) as int, pow2(g) as int);
        lemma_mul_nonnegative(a as int, pow2(rest) as int);
        lemma_div_by_multiple((a * pow2(rest)) as int, pow2(g) as int);
    } else {
        let g = (-e) as nat;
        let rest = (g - d) as nat;
        lemma_pow2_adds(d, rest);
        lemma_pow2_pos(rest);
        lemma_div_denominator((a * pow2(d)) as int, pow2(d) as int, pow2(rest) as int);
        lemma_div_by_multiple(a as int, pow2(d) as int);
    }
}

/// Where the heap size times the odd part of the significand has no more
/// than 53 bits, nothing is rounded away: the result is the integer part of
/// the exact product.
pub proof fn lemma_product_floor_exact(x: nat, m: nat, k: nat, exponent: int)
    requires
        x * m < SIGNIFICAND_LIMIT,
    ensures
        product_floor(x, m * pow2(k), exponent) == floor_scaled(x * m, exponent + k),
{
    let a = x * m;
    let exact = x * (m * pow2(k));
    lemma_pow2_pos(k);
    lemma_mul_is_associative(x as int, m as int, pow2(k) as int);
    assert(exact == a * pow2(k));
    lemma_mul_strict_inequality(a as int, SIGNIFICAND_LIMIT as int, pow2(k) as int);
    lemma_excess_bits_bound(exact, k);
    let shift = excess_bits(exact);
    let kept = (k - shift) as nat;
    lemma_pow2_adds(kept, shift);
    lemma_pow2_pos(shift);
    lemma_pow2_pos(kept);
    lemma_mul_is_associative(a as int, pow2(kept) as int, pow2(shift) as int);
    lemma_mul_nonnegative(a as int, pow2(kept) as int);
    assert(exact == (a * pow2(kept)) * pow2(shift));
    lemma_div_by_multiple((a * pow2(kept)) as int, pow2(shift) as int);
    lemma_mod_multiples_basic((a * pow2(kept)) as int, pow2(shift) as int);
    assert(round_half_even(exact, shift) == a * pow2(kept));
    lemma_floor_scaled_shift(a, kept, exponent + shift);
}

/// Any factor times nothing is nothing.
pub proof fn lemma_scale_zero(factor: GrowthFactor)
    ensures
        factor.spec_scale(0) == 0,
{
    match factor@ {
        FactorValue::Finite { negative, significand, exponent } => {
            lemma2_to64();
            lemma_mul_basics(significand as int);
            lemma_product_floor_exact(0, significand, 0, exponent);
            lemma_floor_scaled_shift(0, 0, exponent);
            if exponent >= 0 {
                lemma_mul_basics(pow2(exponent as nat) as int);
            } else {
                lemma_pow2_pos((-exponent) as nat);
            }
        },
        _ => {},
    }
}

/// A factor that is not negative and whose significand is `m * 2^k`, taken
/// times a heap size `x` for which `x * m` has no more than 53 bits, gives the
/// integer part of the exact product, held to the range of the result.
pub proof fn lemma_scale_exact(factor: GrowthFactor, x: u32, m: nat, k: nat)
    requires
        factor@ matches FactorValue::Finite { negative, significand, .. } && !negative
            && significand == m * pow2(k),
        x * m < SIGNIFICAND_LIMIT,
    ensures
        factor@ matches FactorValue::Finite { exponent, .. } && factor.spec_scale(x) == saturated(
            floor_scaled(x as nat * m, exponent + k),
        ),
{
    match factor@ {
        FactorValue::Finite { negative, significand, exponent } => {
            lemma_product_floor_exact(x as nat, m, k, exponent);
        },
        _ => {},
    }
}

/// The default growth factor takes a heap size times three halves and drops
/// the half.
pub proof fn lemma_scale_default(x: u32)
    ensures
        (GrowthFactor { bits: DEFAULT_GROWTH_FACTOR_BITS }).spec_scale(x) == x * 3 / 2,
{
    let factor = GrowthFactor { bits: DEFAULT_GROWTH_FACTOR_BITS };
    lemma2_to64();
    lemma2_to64_rest();
    assert(factor@ == FactorValue::Finite {
        negative: false,
        significand: 0x18_0000_0000_0000,
        exponent: -52,
    });
    assert(0x18_0000_0000_0000 == 3 * pow2(51));
    lemma_scale_exact(factor, x, 3, 51);
    assert(floor_scaled(x as nat * 3, -1) == x * 3 / 2);
}

} // verus!
