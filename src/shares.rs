use vstd::prelude::*;
use crate::types::Error;

verus! {

/// Shares owed for `amount` of the asset by a pool that holds `total_assets`
/// against `total_shares`: one for one while either total is zero, otherwise
/// the proportional amount rounded down.
pub open spec fn shares_for(total_assets: int, total_shares: int, amount: int) -> int {
    if total_shares == 0 || total_assets == 0 {
        amount
    } else {
        amount * total_shares / total_assets
    }
}

/// Assets owed for `shares` by the same pool: one for one while no shares are
/// outstanding, otherwise the proportional amount rounded down.
pub open spec fn assets_for(total_assets: int, total_shares: int, shares: int) -> int {
    if total_shares == 0 {
        shares
    } else {
        shares * total_assets / total_shares
    }
}

/// Whether the product formed by `shares_for` leaves the 128-bit range.
pub open spec fn shares_overflow(total_assets: int, total_shares: int, amount: int) -> bool {
    total_shares != 0 && total_assets != 0 && amount * total_shares > i128::MAX
}

/// Whether the product formed by `assets_for` leaves the 128-bit range.
pub open spec fn assets_overflow(total_assets: int, total_shares: int, shares: int) -> bool {
    total_shares != 0 && shares * total_assets > i128::MAX
}

/// What converting `amount` of the asset into shares gives.
pub open spec fn to_shares_result(total_assets: int, total_shares: int, amount: int) -> Result<i128, Error> {
    if amount < 0 {
        Err(Error::NegativeAmount)
    } else if shares_overflow(total_assets, total_shares, amount) {
        Err(Error::ArithmeticOverflow)
    } else {
        Ok(shares_for(total_assets, total_shares, amount) as i128)
    }
}

/// What converting `shares` into the asset gives.
pub open spec fn to_assets_result(total_assets: int, total_shares: int, shares: int) -> Result<i128, Error> {
    if shares < 0 {
        Err(Error::NegativeAmount)
    } else if assets_overflow(total_assets, total_shares, shares) {
        Err(Error::ArithmeticOverflow)
    } else {
        Ok(assets_for(total_assets, total_shares, shares) as i128)
    }
}

proof fn lemma_floor_quotient_bounds(a: int, b: int, d: int)
    requires
        a >= 0,
        b >= 0,
        d > 0,
    ensures
        0 <= a * b / d <= a * b,
{
    assert(0 <= a * b) by (nonlinear_arith)
        requires
            a >= 0,
            b >= 0,
    ;
    assert(0 <= a * b / d <= a * b) by (nonlinear_arith)
        requires
            a * b >= 0,
            d > 0,
    ;
}

/// Converts `amount` of the asset into shares of a pool holding
/// `total_assets` against `total_shares`.
pub fn shares_from_assets(total_assets: i128, total_shares: i128, amount: i128) -> (r: Result<i128, Error>)
    requires
        total_assets >= 0,
        total_shares >= 0,
    ensures
        r == to_shares_result(total_assets as int, total_shares as int, amount as int),
{
    if amount < 0 {
        return Err(Error::NegativeAmount);
    }
    if total_shares == 0 || total_assets == 0 {
        return Ok(amount);
    }
    match amount.checked_mul(total_shares) {
        None => Err(Error::ArithmeticOverflow),
        Some(product) => {
            proof {
                lemma_floor_quotient_bounds(amount as int, total_shares as int, total_assets as int);
            }
            Ok(product / total_assets)
        },
    }
}

/// Converts `shares` into the asset of a pool holding `total_assets` against
/// `total_shares`.
pub fn assets_from_shares(total_assets: i128, total_shares: i128, shares: i128) -> (r: Result<i128, Error>)
    requires
        total_assets >= 0,
        total_shares >= 0,
    ensures
        r == to_assets_result(total_assets as int, total_shares as int, shares as int),
{
    if shares < 0 {
        return Err(Error::NegativeAmount);
    }
    if total_shares == 0 {
        return Ok(shares);
    }
    match shares.checked_mul(total_assets) {
        None => Err(Error::ArithmeticOverflow),
        Some(product) => {
            proof {
                lemma_floor_quotient_bounds(shares as int, total_assets as int, total_shares as int);
            }
            Ok(product / total_shares)
        },
    }
}

/// The fee, in basis points of `amount`, rounded down.
pub open spec fn fee_for(amount: int, fee_bps: int) -> int {
    amount * fee_bps / 10000
}

/// What remains of `amount` once a fee of `fee_bps` basis points is taken.
pub open spec fn after_fee_result(amount: int, fee_bps: int) -> Result<i128, Error> {
    if amount < 0 {
        Err(Error::NegativeAmount)
    } else if amount * fee_bps > i128::MAX {
        Err(Error::ArithmeticOverflow)
    } else {
        Ok((amount - fee_for(amount, fee_bps)) as i128)
    }
}

/// Takes a fee of `fee_bps` basis points, rounded down, out of `amount`.
pub fn amount_after_fee(amount: i128, fee_bps: u32) -> (r: Result<i128, Error>)
    ensures
        r == after_fee_result(amount as int, fee_bps as int),
{
    if amount < 0 {
        return Err(Error::NegativeAmount);
    }
    if fee_bps == 0 {
        assert(fee_for(amount as int, 0) == 0);
        return Ok(amount);
    }
    match amount.checked_mul(fee_bps as i128) {
        None => Err(Error::ArithmeticOverflow),
        Some(product) => {
            proof {
                lemma_floor_quotient_bounds(amount as int, fee_bps as int, 10000);
            }
            let fee = product / 10000;
            Ok(amount - fee)
        },
    }
}

/// Redeeming part of the outstanding shares never pays out more than the
/// pool holds.
pub proof fn lemma_redemption_within_pool(total_assets: int, total_shares: int, shares: int)
    requires
        total_assets >= 0,
        0 <= shares <= total_shares,
    ensures
        0 <= assets_for(total_assets, total_shares, shares) <= total_assets
            || total_shares == 0,
{
    if total_shares != 0 {
        assert(shares * total_assets <= total_shares * total_assets) by (nonlinear_arith)
            requires
                0 <= shares <= total_shares,
                total_assets >= 0,
        ;
        assert(0 <= shares * total_assets / total_shares <= total_assets) by (nonlinear_arith)
            requires
                shares * total_assets <= total_shares * total_assets,
                shares >= 0,
                total_assets >= 0,
                total_shares > 0,
        ;
    }
}

/// Converting an amount into shares and those shares back into the asset
/// never yields more than the amount: both roundings favour the pool.
pub proof fn lemma_round_trip_never_creates_value(total_assets: int, total_shares: int, amount: int)
    requires
        total_assets >= 0,
        total_shares >= 0,
        amount >= 0,
    ensures
        assets_for(total_assets, total_shares, shares_for(total_assets, total_shares, amount)) <= amount,
{
    if total_shares != 0 && total_assets != 0 {
        let s = amount * total_shares / total_assets;
        assert(s * total_assets <= amount * total_shares) by (nonlinear_arith)
            requires
                s == amount * total_shares / total_assets,
                total_assets > 0,
                total_shares > 0,
                amount >= 0,
        ;
        assert(s * total_assets / total_shares <= amount) by (nonlinear_arith)
            requires
                s * total_assets <= amount * total_shares,
                total_shares > 0,
        ;
    }
}

/// While no shares are outstanding, both conversions are one for one.
pub proof fn lemma_empty_pool_is_one_for_one(total_assets: int, amount: int)
    ensures
        shares_for(total_assets, 0, amount) == amount,
        assets_for(total_assets, 0, amount) == amount,
{
}

} // verus!
