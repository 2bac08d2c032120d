use vstd::prelude::*;

use crate::constants::BPS_DENOMINATOR;

verus! {

/// `x` as a `u64`, if it fits.
pub open spec fn fit_u64(x: int) -> Option<u64> {
    if 0 <= x <= u64::MAX {
        Some(x as u64)
    } else {
        None
    }
}

/// Shares minted for `amount` against the totals before it arrives: one share
/// per unit into an empty fund, else the amount at the prevailing price,
/// rounded down. No price exists when shares are out but the value is zero.
pub open spec fn minted_shares(amount: u64, total_shares: u64, total_value: u64) -> Option<u64> {
    if total_shares == 0 {
        Some(amount)
    } else if total_value == 0 {
        None
    } else {
        fit_u64(amount * total_shares / (total_value as int))
    }
}

/// What `shares` are worth at the fund's price, rounded down.
pub open spec fn share_value(shares: u64, total_value: u64, total_shares: u64) -> Option<u64> {
    if total_shares == 0 {
        None
    } else {
        fit_u64(shares * total_value / (total_shares as int))
    }
}

/// The fee on `profit` at `bps` basis points, rounded down.
pub open spec fn fee_on(profit: u64, bps: u16) -> Option<u64> {
    fit_u64(profit * bps / BPS_DENOMINATOR as int)
}

/// `n / d` rounded toward zero.
pub open spec fn div_toward_zero(n: int, d: int) -> int {
    if n >= 0 {
        n / d
    } else {
        -((-n) / d)
    }
}

/// The value that a trade of `amount` gains or loses at `pnl_bps` basis points.
pub open spec fn pnl_of(amount: u64, pnl_bps: i64) -> int {
    div_toward_zero(amount * pnl_bps, BPS_DENOMINATOR as int)
}

proof fn lemma_product_fits(a: u64, b: u64)
    ensures
        0 <= a * b <= u64::MAX * u64::MAX,
        u64::MAX * u64::MAX < u128::MAX,
{
    assert(0 <= a * b <= u64::MAX * u64::MAX) by (nonlinear_arith)
        requires
            a <= u64::MAX,
    ;
}

/// `a * b / d` computed in 128 bits, if the quotient fits in 64.
fn mul_div(a: u64, b: u64, d: u64) -> (r: Option<u64>)
    requires
        d > 0,
    ensures
        r == fit_u64(a * b / (d as int)),
{
    proof {
        lemma_product_fits(a, b);
    }
    let q: u128 = (a as u128) * (b as u128) / (d as u128);
    if q > u64::MAX as u128 {
        None
    } else {
        Some(q as u64)
    }
}

/// Shares to mint for a contribution of `amount`.
pub fn mint_for_contribution(amount: u64, total_shares: u64, total_value: u64) -> (r: Option<u64>)
    ensures
        r == minted_shares(amount, total_shares, total_value),
{
    if total_shares == 0 {
        Some(amount)
    } else if total_value == 0 {
        None
    } else {
        mul_div(amount, total_shares, total_value)
    }
}

/// What `shares` are worth against the fund's totals.
pub fn value_of_shares(shares: u64, total_value: u64, total_shares: u64) -> (r: Option<u64>)
    ensures
        r == share_value(shares, total_value, total_shares),
{
    if total_shares == 0 {
        None
    } else {
        mul_div(shares, total_value, total_shares)
    }
}

/// The fee charged on `profit` at `bps` basis points.
pub fn fee_for(profit: u64, bps: u16) -> (r: Option<u64>)
    ensures
        r == fee_on(profit, bps),
{
    mul_div(profit, bps as u64, BPS_DENOMINATOR)
}

/// The value gained (positive) or lost (negative) by a trade of `amount` that
/// returned `pnl_bps` basis points.
pub fn trade_pnl(amount: u64, pnl_bps: i64) -> (r: i128)
    ensures
        r == pnl_of(amount, pnl_bps),
        -(u64::MAX * u64::MAX / 10000) <= r <= u64::MAX * u64::MAX / 10000,
{
    let magnitude: u64 = if pnl_bps >= 0 {
        pnl_bps as u64
    } else {
        (-(pnl_bps as i128)) as u64
    };
    proof {
        lemma_product_fits(amount, magnitude);
    }
    let q: u128 = (amount as u128) * (magnitude as u128) / (BPS_DENOMINATOR as u128);
    proof {
        assert(q <= u64::MAX * u64::MAX / 10000) by (nonlinear_arith)
            requires
                q == amount * magnitude / 10000,
                amount * magnitude <= u64::MAX * u64::MAX,
        ;
        if pnl_bps < 0 {
            assert(amount * pnl_bps == -(amount * magnitude)) by (nonlinear_arith)
                requires
                    magnitude == -pnl_bps,
            ;
        }
    }
    if pnl_bps >= 0 {
        q as i128
    } else {
        -(q as i128)
    }
}

} // verus!
