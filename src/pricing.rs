//! The bonding curve: tokens minted for a deposit, value paid for a burn.
//!
//! All arithmetic is on integers in fixed point; every division rounds to the
//! nearest integer, halves away from zero.
use vstd::prelude::*;
use vstd::arithmetic::div_mod::{lemma_fundamental_div_mod, lemma_mod_bound};
use crate::errors::CustomError;

verus! {

/// Fixed-point scale of prices.
pub const SCALE: u128 = 1_000_000_000;

/// Base units in one whole unit of the quote asset (6 decimals).
pub const QUOTE_UNIT: u128 = 1_000_000;

/// Base units in one whole governed token (9 decimals).
pub const TOKEN_UNIT: u128 = 1_000_000_000;

/// `n / d` rounded to the nearest integer, halves up.
pub open spec fn div_nearest(n: int, d: int) -> int {
    (2 * n + d) / (2 * d)
}

pub open spec fn at_least_one(x: int) -> int {
    if x < 1 {
        1
    } else {
        x
    }
}

/// Price before the purchase, in `SCALE` fixed point, never zero.
pub open spec fn start_price(reserve: int, supply: int) -> int {
    let p = div_nearest(reserve * SCALE, at_least_one(supply));
    if p == 0 {
        1
    } else {
        p
    }
}

/// Tokens the deposit would buy at the start price.
pub open spec fn estimated_tokens(reserve: int, supply: int, usdc: int) -> int {
    div_nearest(usdc * SCALE, start_price(reserve, supply))
}

/// Price after the deposit and the locked share join the reserve.
pub open spec fn end_price(reserve: int, supply: int, usdc: int, locked: int) -> int {
    div_nearest(
        (reserve + usdc + locked) * SCALE,
        at_least_one(supply + estimated_tokens(reserve, supply, usdc)),
    )
}

pub open spec fn average_price(reserve: int, supply: int, usdc: int, locked: int) -> int {
    div_nearest(start_price(reserve, supply) + end_price(reserve, supply, usdc, locked), 2)
}

/// Tokens minted for `usdc` at the average of the start and end prices.
pub open spec fn mint_quantity(reserve: int, supply: int, usdc: int, locked: int) -> int {
    let avg = average_price(reserve, supply, usdc, locked);
    if avg == 0 {
        0
    } else {
        div_nearest(usdc * SCALE, avg)
    }
}

/// Price of one whole token in whole quote units, in `SCALE` fixed point.
pub open spec fn price_per_token(reserve: int, supply: int) -> int {
    div_nearest(reserve * SCALE * TOKEN_UNIT, at_least_one(supply) * QUOTE_UNIT)
}

/// Quote base units paid for burning `burn` token base units.
pub open spec fn settlement_value(reserve: int, supply: int, burn: int) -> int {
    div_nearest(burn * price_per_token(reserve, supply) * QUOTE_UNIT, TOKEN_UNIT * SCALE)
}

/// The quotient `q` of a rounded division satisfies `2dq <= 2n + d < 2d(q + 1)`.
proof fn lemma_div_nearest_bounds(n: int, d: int)
    requires
        n >= 0,
        d >= 1,
    ensures
        div_nearest(n, d) * (2 * d) <= 2 * n + d,
        2 * n + d < (div_nearest(n, d) + 1) * (2 * d),
        0 <= div_nearest(n, d) <= n + 1,
        n >= 1 ==> div_nearest(n, d) <= n,
{
    let q = div_nearest(n, d);
    lemma_fundamental_div_mod(2 * n + d, 2 * d);
    lemma_mod_bound(2 * n + d, 2 * d);
    let r = (2 * n + d) % (2 * d);
    assert(2 * n + d == (2 * d) * q + r);
    assert(q * (2 * d) <= 2 * n + d) by (nonlinear_arith)
        requires
            2 * n + d == (2 * d) * q + r,
            0 <= r,
    ;
    assert(2 * n + d < (q + 1) * (2 * d)) by (nonlinear_arith)
        requires
            2 * n + d == (2 * d) * q + r,
            r < 2 * d,
    ;
    assert(0 <= q) by (nonlinear_arith)
        requires
            2 * n + d < (q + 1) * (2 * d),
            n >= 0,
            d >= 1,
    ;
    assert(n >= 1 ==> q <= n) by (nonlinear_arith)
        requires
            q * (2 * d) <= 2 * n + d,
            d >= 1,
            n >= 0,
    ;
    assert(q <= n + 1) by (nonlinear_arith)
        requires
            q * (2 * d) <= 2 * n + d,
            d >= 1,
            n >= 0,
    ;
}

/// `n / d` rounded to nearest.
fn div_round(n: u128, d: u128) -> (r: u128)
    requires
        d >= 1,
        2 * n + 2 * d <= u128::MAX,
    ensures
        r == div_nearest(n as int, d as int),
{
    proof {
        lemma_div_nearest_bounds(n as int, d as int);
    }
    (2 * n + d) / (2 * d)
}

/// Tokens minted for `usdc_for_tokens` quote base units when the reserve
/// holds `reserve` and `supply` tokens exist, with `locked_share` joining the
/// reserve beside the deposit.
pub fn compute_mint(reserve: u64, supply: u64, usdc_for_tokens: u64, locked_share: u64) -> (r:
    Result<u64, CustomError>)
    ensures
        ({
            let q = mint_quantity(reserve as int, supply as int, usdc_for_tokens as int, locked_share as int);
            &&& q == 0 ==> r == Err::<u64, CustomError>(CustomError::InsufficientAmount)
            &&& q > u64::MAX ==> r == Err::<u64, CustomError>(CustomError::MathOverflow)
            &&& 0 < q <= u64::MAX ==> r == Ok::<u64, CustomError>(q as u64)
        }),
{
    let ghost (res, sup, usdc, lck) = (reserve as int, supply as int, usdc_for_tokens as int, locked_share as int);
    let supply_div: u128 = if supply < 1 { 1 } else { supply as u128 };
    proof {
        assert(res * SCALE <= u64::MAX * SCALE) by (nonlinear_arith)
            requires
                0 <= res <= u64::MAX,
        ;
        lemma_div_nearest_bounds(res * SCALE, supply_div as int);
    }
    let mut price_start = div_round((reserve as u128) * SCALE, supply_div);
    if price_start == 0 {
        price_start = 1;
    }
    assert(price_start == start_price(res, sup));
    proof {
        assert(usdc * SCALE <= u64::MAX * SCALE) by (nonlinear_arith)
            requires
                0 <= usdc <= u64::MAX,
        ;
        lemma_div_nearest_bounds(usdc * SCALE, price_start as int);
    }
    let estimated = div_round((usdc_for_tokens as u128) * SCALE, price_start);
    assert(estimated == estimated_tokens(res, sup, usdc));
    let grown = (reserve as u128) + (usdc_for_tokens as u128) + (locked_share as u128);
    let after_supply = (supply as u128) + estimated;
    let after_div: u128 = if after_supply < 1 { 1 } else { after_supply };
    proof {
        assert(grown * SCALE <= 3 * u64::MAX * SCALE) by (nonlinear_arith)
            requires
                0 <= grown <= 3 * u64::MAX,
        ;
        lemma_div_nearest_bounds(grown * SCALE, after_div as int);
    }
    let price_end = div_round(grown * SCALE, after_div);
    assert(price_end == end_price(res, sup, usdc, lck));
    proof {
        lemma_div_nearest_bounds((price_start + price_end) as int, 2);
    }
    let avg_price = div_round(price_start + price_end, 2);
    assert(avg_price == average_price(res, sup, usdc, lck));
    if avg_price == 0 {
        return Err(CustomError::InsufficientAmount);
    }
    let minted = div_round((usdc_for_tokens as u128) * SCALE, avg_price);
    assert(minted == mint_quantity(res, sup, usdc, lck));
    if minted == 0 {
        Err(CustomError::InsufficientAmount)
    } else if minted > u64::MAX as u128 {
        Err(CustomError::MathOverflow)
    } else {
        Ok(minted as u64)
    }
}

/// If the numerator of the settlement value is at least 2^126, the value
/// exceeds `u64::MAX`.
proof fn lemma_large_numerator(n: int)
    requires
        n >= 0x4000_0000_0000_0000_0000_0000_0000_0000,
    ensures
        div_nearest(n, TOKEN_UNIT * SCALE) > u64::MAX,
{
    let d = (TOKEN_UNIT * SCALE) as int;
    lemma_div_nearest_bounds(n, d);
    let q = div_nearest(n, d);
    assert(q > u64::MAX) by (nonlinear_arith)
        requires
            2 * n + d < (q + 1) * (2 * d),
            d == 1_000_000_000_000_000_000,
            n >= 0x4000_0000_0000_0000_0000_0000_0000_0000,
    ;
}

/// Quote base units paid for burning `burn_qty` tokens when the reserve holds
/// `reserve` and `supply` tokens exist; `MathOverflow` when that value does
/// not fit a `u64`.
pub fn compute_value(reserve: u64, supply: u64, burn_qty: u64) -> (r: Result<u64, CustomError>)
    ensures
        ({
            let v = settlement_value(reserve as int, supply as int, burn_qty as int);
            &&& v <= u64::MAX ==> r == Ok::<u64, CustomError>(v as u64)
            &&& v > u64::MAX ==> r == Err::<u64, CustomError>(CustomError::MathOverflow)
        }),
{
    let ghost (res, sup, burn) = (reserve as int, supply as int, burn_qty as int);
    let supply_div: u128 = if supply < 1 { 1 } else { supply as u128 };
    proof {
        assert(res * SCALE * TOKEN_UNIT <= u64::MAX * SCALE * TOKEN_UNIT) by (nonlinear_arith)
            requires
                0 <= res <= u64::MAX,
        ;
        assert(supply_div * QUOTE_UNIT <= u64::MAX * QUOTE_UNIT) by (nonlinear_arith)
            requires
                1 <= supply_div <= u64::MAX,
        ;
        assert(supply_div * QUOTE_UNIT >= 1) by (nonlinear_arith)
            requires
                1 <= supply_div,
        ;
    }
    let price = div_round((reserve as u128) * SCALE * TOKEN_UNIT, supply_div * QUOTE_UNIT);
    assert(price == price_per_token(res, sup));
    let ghost n = burn * price * QUOTE_UNIT;
    let numerator: Option<u128> = match (burn_qty as u128).checked_mul(price) {
        Some(x) => x.checked_mul(QUOTE_UNIT),
        None => {
            assert(n >= burn * price) by (nonlinear_arith)
                requires
                    n == burn * price * QUOTE_UNIT,
                    burn * price >= 0,
            ;
            None
        },
    };
    assert(numerator is None ==> n > u128::MAX);
    match numerator {
        Some(x) if x < 0x4000_0000_0000_0000_0000_0000_0000_0000 => {
            let value = div_round(x, TOKEN_UNIT * SCALE);
            assert(value == settlement_value(res, sup, burn));
            if value > u64::MAX as u128 {
                Err(CustomError::MathOverflow)
            } else {
                Ok(value as u64)
            }
        },
        _ => {
            proof {
                lemma_large_numerator(n);
            }
            Err(CustomError::MathOverflow)
        },
    }
}

} // verus!
