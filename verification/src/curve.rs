//! Pure arithmetic over the constant-product invariant `x * y = k`.
//!
//! Both quote functions are referentially transparent: their whole
//! behaviour, errors included, equals a spec function of the arguments
//! alone, so identical inputs always yield identical outputs. Intermediate
//! products are taken in 128 bits, which a product of two 64-bit reserves
//! can never exceed.

use vstd::prelude::*;
use vstd::arithmetic::div_mod::{
    lemma_basic_div, lemma_div_by_self, lemma_div_is_ordered, lemma_div_multiples_vanish,
    lemma_div_pos_is_pos, lemma_fundamental_div_mod, lemma_mod_division_less_than_divisor,
    lemma_multiply_divide_lt,
};
use vstd::arithmetic::mul::{lemma_mul_is_commutative, lemma_mul_upper_bound};

use crate::errors::AmmError;

verus! {

/// Amount of Y released when `delta_x` of X is deposited into reserves
/// `(x, y)`: `y - floor(x * y / (x + delta_x))`.
pub open spec fn spec_delta_y(x: int, y: int, delta_x: int) -> int {
    y - (x * y) / (x + delta_x)
}

/// Amount of X released when `delta_y` of Y is deposited into reserves
/// `(x, y)`: `x - floor(x * y / (y + delta_y))`.
pub open spec fn spec_delta_x(x: int, y: int, delta_y: int) -> int {
    x - (x * y) / (y + delta_y)
}

/// The complete input/output behaviour of [`delta_y_from_x_swap_amount`].
pub open spec fn spec_delta_y_checked(x: u64, y: u64, delta_x: u64) -> Result<u64, AmmError> {
    if x == 0 || y == 0 {
        Err(AmmError::InvalidReserves)
    } else if delta_x == 0 {
        Err(AmmError::InvalidAmount)
    } else {
        Ok(spec_delta_y(x as int, y as int, delta_x as int) as u64)
    }
}

/// The complete input/output behaviour of [`delta_x_from_y_swap_amount`].
pub open spec fn spec_delta_x_checked(x: u64, y: u64, delta_y: u64) -> Result<u64, AmmError> {
    if x == 0 || y == 0 {
        Err(AmmError::InvalidReserves)
    } else if delta_y == 0 {
        Err(AmmError::InvalidAmount)
    } else {
        Ok(spec_delta_x(x as int, y as int, delta_y as int) as u64)
    }
}

/// The truncated quotient `floor(x * y / (x + d))` lies strictly below `y`
/// whenever a positive amount `d` is being deposited.
pub proof fn lemma_quotient_bounds(x: int, y: int, d: int)
    requires
        1 <= x,
        1 <= y,
        1 <= d,
    ensures
        0 <= (x * y) / (x + d) < y,
{
    assert(0 <= x * y && x * y < (x + d) * y) by (nonlinear_arith)
        requires
            1 <= x,
            1 <= y,
            1 <= d,
    ;
    lemma_div_pos_is_pos(x * y, x + d);
    lemma_multiply_divide_lt(x * y, x + d, y);
}

/// The released amount is at least one unit and at most the whole
/// counter-reserve.
pub proof fn lemma_output_bounds(x: int, y: int, delta_x: int)
    requires
        1 <= x,
        1 <= y,
        1 <= delta_x,
    ensures
        1 <= spec_delta_y(x, y, delta_x) <= y,
{
    lemma_quotient_bounds(x, y, delta_x);
}

/// Mirror of [`lemma_output_bounds`] for the Y-deposit direction.
pub proof fn lemma_output_bounds_x(x: int, y: int, delta_y: int)
    requires
        1 <= x,
        1 <= y,
        1 <= delta_y,
    ensures
        1 <= spec_delta_x(x, y, delta_y) <= x,
{
    lemma_mul_is_commutative(x, y);
    lemma_quotient_bounds(y, x, delta_y);
}

/// A single trade never drains the whole counter-reserve, provided the
/// pool's product covers the post-deposit input reserve
/// (`x * y >= x + delta_x`). On the remaining inputs the quotient truncates
/// to zero and the full reserve `y` is released: see [`lemma_full_drain`].
pub proof fn lemma_no_full_drain(x: int, y: int, delta_x: int)
    requires
        1 <= x,
        1 <= y,
        1 <= delta_x,
        x + delta_x <= x * y,
    ensures
        spec_delta_y(x, y, delta_x) < y,
{
    lemma_div_by_self(x + delta_x);
    lemma_div_is_ordered(x + delta_x, x * y, x + delta_x);
}

/// Boundary of [`lemma_no_full_drain`]: when the product does not cover the
/// post-deposit input reserve, the whole counter-reserve is released.
pub proof fn lemma_full_drain(x: int, y: int, delta_x: int)
    requires
        1 <= x,
        1 <= y,
        1 <= delta_x,
        x * y < x + delta_x,
    ensures
        spec_delta_y(x, y, delta_x) == y,
{
    assert(0 <= x * y) by (nonlinear_arith)
        requires
            1 <= x,
            1 <= y,
    ;
    lemma_basic_div(x * y, x + delta_x);
}

/// The product after the trade never exceeds the product before it, and
/// falls short of it by less than one unit of the post-deposit input
/// reserve: `x*y - (x + delta_x) < (x + delta_x) * (y - delta_y) <= x*y`.
pub proof fn lemma_invariant_slack(x: int, y: int, delta_x: int)
    requires
        1 <= x,
        1 <= y,
        1 <= delta_x,
    ensures
        x * y - (x + delta_x) < (x + delta_x) * (y - spec_delta_y(x, y, delta_x)),
        (x + delta_x) * (y - spec_delta_y(x, y, delta_x)) <= x * y,
{
    lemma_fundamental_div_mod(x * y, x + delta_x);
    lemma_mod_division_less_than_divisor(x * y, x + delta_x);
}

/// The product is preserved exactly (hence does not decrease) whenever
/// `x + delta_x` divides `x * y`; with truncation this is the only case in
/// which it does not shrink, since rounding the quotient down enlarges the
/// released amount.
pub proof fn lemma_invariant_preserved(x: int, y: int, delta_x: int)
    requires
        1 <= x,
        1 <= y,
        1 <= delta_x,
        (x * y) % (x + delta_x) == 0,
    ensures
        (x + delta_x) * (y - spec_delta_y(x, y, delta_x)) >= x * y,
        (x + delta_x) * (y - spec_delta_y(x, y, delta_x)) == x * y,
{
    lemma_fundamental_div_mod(x * y, x + delta_x);
}

/// Round trip: quoting the X deposit that corresponds to the Y amount a
/// given X deposit releases never yields more than that deposit. This holds
/// exactly on the stated domain; outside it (for instance when the first
/// quote drains the whole counter-reserve) the reverse quote can exceed
/// `delta_x`.
pub proof fn lemma_round_trip_bounded(x: int, y: int, delta_x: int)
    requires
        1 <= x,
        1 <= y,
        1 <= delta_x,
        delta_x >= x || delta_x * y >= (x - delta_x) * spec_delta_y(x, y, delta_x),
    ensures
        spec_delta_x(x, y, spec_delta_y(x, y, delta_x)) <= delta_x,
{
    let dy = spec_delta_y(x, y, delta_x);
    lemma_output_bounds(x, y, delta_x);
    let denom = y + dy;
    assert(0 <= x * y) by (nonlinear_arith)
        requires
            1 <= x,
            1 <= y,
    ;
    if delta_x >= x {
        lemma_div_pos_is_pos(x * y, denom);
    } else {
        assert((x - delta_x) * denom <= x * y) by (nonlinear_arith)
            requires
                1 <= x,
                1 <= y,
                1 <= delta_x,
                delta_x < x,
                denom == y + dy,
                delta_x * y >= (x - delta_x) * dy,
        ;
        lemma_div_is_ordered((x - delta_x) * denom, x * y, denom);
        lemma_div_multiples_vanish(x - delta_x, denom);
        lemma_mul_is_commutative(x - delta_x, denom);
    }
}

/// The curve is referentially transparent: its whole behaviour is a spec
/// function of the arguments alone, so two evaluations of
/// [`delta_y_from_x_swap_amount`] on identical arguments agree, errors
/// included. [`lemma_reverse_quote_deterministic`] states the same of the
/// other direction.
pub proof fn lemma_quote_deterministic(
    x: u64,
    y: u64,
    delta_x: u64,
    r1: Result<u64, AmmError>,
    r2: Result<u64, AmmError>,
)
    requires
        r1 == spec_delta_y_checked(x, y, delta_x),
        r2 == spec_delta_y_checked(x, y, delta_x),
    ensures
        r1 == r2,
{
}

/// Mirror of [`lemma_quote_deterministic`] for [`delta_x_from_y_swap_amount`].
pub proof fn lemma_reverse_quote_deterministic(
    x: u64,
    y: u64,
    delta_y: u64,
    r1: Result<u64, AmmError>,
    r2: Result<u64, AmmError>,
)
    requires
        r1 == spec_delta_x_checked(x, y, delta_y),
        r2 == spec_delta_x_checked(x, y, delta_y),
    ensures
        r1 == r2,
{
}

/// Quote for depositing `delta_x` of asset X into reserves `(x, y)`: the
/// amount of Y the pool must release, `y - floor(x*y / (x + delta_x))`,
/// computed with 128-bit intermediates.
pub fn delta_y_from_x_swap_amount(x: u64, y: u64, delta_x: u64) -> (r: Result<u64, AmmError>)
    ensures
        r == spec_delta_y_checked(x, y, delta_x),
        r matches Ok(v) ==> 1 <= v <= y,
{
    if x == 0 || y == 0 {
        return Err(AmmError::InvalidReserves);
    }
    if delta_x == 0 {
        return Err(AmmError::InvalidAmount);
    }
    proof {
        lemma_quotient_bounds(x as int, y as int, delta_x as int);
        lemma_mul_upper_bound(x as int, u64::MAX as int, y as int, u64::MAX as int);
    }
    let k: u128 = (x as u128) * (y as u128);
    let denom: u128 = (x as u128) + (delta_x as u128);
    if denom == 0 {
        return Err(AmmError::DivisionByZero);
    }
    let q: u128 = k / denom;
    Ok(y - (q as u64))
}

/// Quote for depositing `delta_y` of asset Y into reserves `(x, y)`: the
/// amount of X the pool must release, `x - floor(x*y / (y + delta_y))`,
/// computed with 128-bit intermediates.
pub fn delta_x_from_y_swap_amount(x: u64, y: u64, delta_y: u64) -> (r: Result<u64, AmmError>)
    ensures
        r == spec_delta_x_checked(x, y, delta_y),
        r matches Ok(v) ==> 1 <= v <= x,
{
    if x == 0 || y == 0 {
        return Err(AmmError::InvalidReserves);
    }
    if delta_y == 0 {
        return Err(AmmError::InvalidAmount);
    }
    proof {
        lemma_mul_is_commutative(x as int, y as int);
        lemma_quotient_bounds(y as int, x as int, delta_y as int);
        lemma_mul_upper_bound(x as int, u64::MAX as int, y as int, u64::MAX as int);
    }
    let k: u128 = (x as u128) * (y as u128);
    let denom: u128 = (y as u128) + (delta_y as u128);
    if denom == 0 {
        return Err(AmmError::DivisionByZero);
    }
    let q: u128 = k / denom;
    Ok(x - (q as u64))
}

} // verus!
