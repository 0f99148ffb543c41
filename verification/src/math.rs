//! Fixed-point arithmetic on token amounts.
//!
//! Amounts are `u128`. A [`Decimal`] is an unsigned fixed-point number with
//! eighteen fractional digits, held as its count of 10^-18 units. Every
//! operation here rounds towards zero and reports a result that does not fit
//! in 128 bits instead of wrapping.

use vstd::prelude::*;

verus! {

/// Number of 10^-18 units in one whole.
pub const DECIMAL_FRACTIONAL: u128 = 1_000_000_000_000_000_000;

/// `amount * numerator / denominator`, rounded towards zero.
pub open spec fn ratio(amount: int, numerator: int, denominator: int) -> int {
    amount * numerator / denominator
}

/// A share of `amount` never exceeds `amount` when the numerator does not
/// exceed the denominator.
pub proof fn lemma_ratio_bounded(amount: int, numerator: int, denominator: int)
    requires
        0 <= amount,
        0 <= numerator <= denominator,
        0 < denominator,
    ensures
        0 <= ratio(amount, numerator, denominator) <= amount,
{
    assert(amount * numerator <= amount * denominator) by (nonlinear_arith)
        requires
            0 <= amount,
            numerator <= denominator,
    ;
    assert(0 <= amount * numerator) by (nonlinear_arith)
        requires
            0 <= amount,
            0 <= numerator,
    ;
    assert((amount * denominator) / denominator == amount) by (nonlinear_arith)
        requires
            0 < denominator,
    ;
    vstd::arithmetic::div_mod::lemma_div_is_ordered(
        amount * numerator,
        amount * denominator,
        denominator,
    );
    vstd::arithmetic::div_mod::lemma_div_pos_is_pos(amount * numerator, denominator);
}

/// Splitting the numerator into whole multiples of the denominator and a
/// remainder splits the ratio the same way.
pub proof fn lemma_ratio_split(amount: int, numerator: int, denominator: int)
    requires
        0 <= amount,
        0 <= numerator,
        0 < denominator,
    ensures
        ratio(amount, numerator, denominator) == amount * (numerator / denominator) + ratio(
            amount,
            numerator % denominator,
            denominator,
        ),
{
    let q = numerator / denominator;
    let r = numerator % denominator;
    vstd::arithmetic::div_mod::lemma_fundamental_div_mod(numerator, denominator);
    assert(amount * numerator == denominator * (amount * q) + amount * r) by (nonlinear_arith)
        requires
            numerator == denominator * q + r,
    ;
    vstd::arithmetic::div_mod::lemma_div_multiples_vanish_fancy(amount * q, 0, denominator);
    vstd::arithmetic::div_mod::lemma_hoist_over_denominator(
        amount * r,
        amount * q,
        denominator as nat,
    );
    assert(amount * r / denominator + amount * q == (amount * r + amount * q * denominator)
        / denominator);
    assert(amount * q * denominator == denominator * (amount * q)) by (nonlinear_arith);
}

/// A floored quotient reaches an integer bound exactly when the dividend
/// reaches the bound times the divisor.
pub proof fn lemma_floor_reaches(dividend: int, divisor: int, bound: int)
    requires
        0 <= dividend,
        0 < divisor,
    ensures
        (dividend / divisor >= bound) <==> (dividend >= bound * divisor),
{
    vstd::arithmetic::div_mod::lemma_fundamental_div_mod(dividend, divisor);
    vstd::arithmetic::div_mod::lemma_mod_bound(dividend, divisor);
    let q = dividend / divisor;
    if q >= bound {
        assert(q * divisor >= bound * divisor) by (nonlinear_arith)
            requires
                q >= bound,
                divisor > 0,
        ;
        assert(divisor * q == q * divisor) by (nonlinear_arith);
    } else {
        assert((q + 1) * divisor <= bound * divisor) by (nonlinear_arith)
            requires
                q + 1 <= bound,
                divisor > 0,
        ;
        assert((q + 1) * divisor == divisor * q + divisor) by (nonlinear_arith);
    }
}

/// Calls `cosmwasm_std::Uint128::multiply_ratio`, which multiplies in 256
/// bits and divides rounding down. It panics on a zero denominator and on a
/// quotient beyond 128 bits, so both are excluded here.
#[verifier::external_body]
fn multiply_ratio_unchecked(amount: u128, numerator: u128, denominator: u128) -> (r: u128)
    requires
        denominator != 0,
        ratio(amount as int, numerator as int, denominator as int) <= u128::MAX,
    ensures
        r == ratio(amount as int, numerator as int, denominator as int),
{
    cosmwasm_std::Uint128::new(amount).multiply_ratio(numerator, denominator).u128()
}

/// `amount * numerator / denominator` rounded towards zero, or `None` when
/// the quotient does not fit in 128 bits. The product itself may exceed 128
/// bits.
pub fn multiply_ratio(amount: u128, numerator: u128, denominator: u128) -> (r: Option<u128>)
    requires
        denominator != 0,
    ensures
        match r {
            Some(v) => v == ratio(amount as int, numerator as int, denominator as int),
            None => ratio(amount as int, numerator as int, denominator as int) > u128::MAX,
        },
{
    let whole: u128 = numerator / denominator;
    let rest: u128 = numerator % denominator;
    proof {
        lemma_ratio_split(amount as int, numerator as int, denominator as int);
        lemma_ratio_bounded(amount as int, rest as int, denominator as int);
    }
    let low: u128 = multiply_ratio_unchecked(amount, rest, denominator);
    match amount.checked_mul(whole) {
        None => None,
        Some(high) => high.checked_add(low),
    }
}

/// An unsigned fixed-point number with eighteen fractional digits.
#[derive(Clone, Copy, Debug, PartialEq, Eq, PartialOrd, Ord, Structural)]
pub struct Decimal {
    /// The value in units of 10^-18.
    pub atomics: u128,
}

impl Decimal {
    /// The value 0.
    pub fn zero() -> (r: Decimal)
        ensures
            r.atomics == 0,
    {
        Decimal { atomics: 0 }
    }

    /// The value 1.
    pub fn one() -> (r: Decimal)
        ensures
            r.atomics == DECIMAL_FRACTIONAL,
    {
        Decimal { atomics: DECIMAL_FRACTIONAL }
    }

    /// `x` hundredths.
    pub fn percent(x: u64) -> (r: Decimal)
        ensures
            r.atomics == x * 10_000_000_000_000_000,
    {
        let wide: u128 = x as u128;
        Decimal { atomics: wide * 10_000_000_000_000_000 }
    }

    /// `x` thousandths.
    pub fn permille(x: u64) -> (r: Decimal)
        ensures
            r.atomics == x * 1_000_000_000_000_000,
    {
        let wide: u128 = x as u128;
        Decimal { atomics: wide * 1_000_000_000_000_000 }
    }

    /// Whether the value is 0.
    pub fn is_zero(&self) -> (r: bool)
        ensures
            r == (self.atomics == 0),
    {
        self.atomics == 0
    }

    /// Whether the value lies in the closed interval from 0 to 1.
    pub open spec fn is_fraction(&self) -> bool {
        self.atomics <= DECIMAL_FRACTIONAL
    }

    /// The quotient `numerator / denominator` cut to eighteen digits, or
    /// `None` when it does not fit.
    pub fn from_ratio(numerator: u128, denominator: u128) -> (r: Option<Decimal>)
        requires
            denominator != 0,
        ensures
            match r {
                Some(d) => d.atomics == ratio(
                    numerator as int,
                    DECIMAL_FRACTIONAL as int,
                    denominator as int,
                ),
                None => ratio(numerator as int, DECIMAL_FRACTIONAL as int, denominator as int)
                    > u128::MAX,
            },
    {
        match multiply_ratio(numerator, DECIMAL_FRACTIONAL, denominator) {
            Some(atomics) => Some(Decimal { atomics }),
            None => None,
        }
    }

    /// The sum of two values, or `None` when it does not fit.
    pub fn checked_add(&self, other: &Decimal) -> (r: Option<Decimal>)
        ensures
            match r {
                Some(d) => d.atomics == self.atomics + other.atomics,
                None => self.atomics + other.atomics > u128::MAX,
            },
    {
        match self.atomics.checked_add(other.atomics) {
            Some(atomics) => Some(Decimal { atomics }),
            None => None,
        }
    }

    /// This share of `amount`, rounded towards zero, or `None` when it does
    /// not fit.
    pub fn checked_mul_amount(&self, amount: u128) -> (r: Option<u128>)
        ensures
            match r {
                Some(v) => v == ratio(amount as int, self.atomics as int, DECIMAL_FRACTIONAL as int),
                None => ratio(amount as int, self.atomics as int, DECIMAL_FRACTIONAL as int)
                    > u128::MAX,
            },
    {
        multiply_ratio(amount, self.atomics, DECIMAL_FRACTIONAL)
    }

    /// This share of `amount` for a value of at most 1; the share then never
    /// exceeds `amount`.
    pub fn mul_amount(&self, amount: u128) -> (r: u128)
        requires
            self.is_fraction(),
        ensures
            r == ratio(amount as int, self.atomics as int, DECIMAL_FRACTIONAL as int),
            r <= amount,
    {
        proof {
            lemma_ratio_bounded(amount as int, self.atomics as int, DECIMAL_FRACTIONAL as int);
        }
        multiply_ratio_unchecked(amount, self.atomics, DECIMAL_FRACTIONAL)
    }
}

} // verus!
