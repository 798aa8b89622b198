//! Share/asset conversion math. Every result rounds down toward zero, which
//! keeps rounding error in the vault's favor and keeps a depositor from
//! taking out more value than they put in. The one multiplication is checked.

use vstd::prelude::*;
use vstd::arithmetic::div_mod::{lemma_fundamental_div_mod, lemma_div_is_ordered, lemma_mod_pos_bound};
use crate::error::Error;

verus! {

/// What `mul_div(a, b, denominator)` returns: `a * b / denominator` rounded
/// down, or the error for a zero denominator or a product beyond `u128`.
pub open spec fn spec_mul_div(a: u128, b: u128, denominator: u128) -> Result<u128, Error> {
    if denominator == 0 {
        Err(Error::DivisionByZero)
    } else if a * b > u128::MAX {
        Err(Error::MathOverflow)
    } else {
        Ok(((a * b) / (denominator as int)) as u128)
    }
}

/// Shares minted for `assets`: one-to-one while the vault is empty, else
/// `assets * total_shares / total_assets` rounded down.
pub open spec fn spec_convert_to_shares(assets: u128, total_shares: u128, total_assets: u128) -> Result<u128, Error> {
    if total_shares == 0 || total_assets == 0 {
        Ok(assets)
    } else {
        spec_mul_div(assets, total_shares, total_assets)
    }
}

/// Price of one share scaled by `scale`: `scale` while no shares exist, else
/// `total_assets * scale / total_shares` rounded down.
pub open spec fn spec_price_per_share(total_shares: u128, total_assets: u128, scale: u128) -> Result<u128, Error> {
    if total_shares == 0 {
        Ok(scale)
    } else {
        spec_mul_div(total_assets, scale, total_shares)
    }
}

/// The part of the vault that `shares` represent, in units of which `bps` make
/// the whole: zero while no shares exist, else `shares * bps / total_shares`
/// rounded down.
pub open spec fn spec_share_fraction_bps(shares: u128, total_shares: u128, bps: u128) -> Result<u128, Error> {
    if total_shares == 0 {
        Ok(0)
    } else {
        spec_mul_div(shares, bps, total_shares)
    }
}

/// Assets that `shares` redeem for: zero while no shares exist, else
/// `shares * total_assets / total_shares` rounded down.
pub open spec fn spec_convert_to_assets(shares: u128, total_shares: u128, total_assets: u128) -> Result<u128, Error> {
    if total_shares == 0 {
        Ok(0)
    } else {
        spec_mul_div(shares, total_assets, total_shares)
    }
}

/// Computes `a * b / denominator`, rounding the result down toward zero.
///
/// A product beyond the `u128` range returns [`Error::MathOverflow`] rather
/// than wrapping; a zero `denominator` returns [`Error::DivisionByZero`].
pub fn mul_div(a: u128, b: u128, denominator: u128) -> (r: Result<u128, Error>)
    ensures
        r == spec_mul_div(a, b, denominator),
        r is Err <==> denominator == 0 || a * b > u128::MAX,
{
    if denominator == 0 {
        return Err(Error::DivisionByZero);
    }
    match a.checked_mul(b) {
        None => Err(Error::MathOverflow),
        Some(product) => Ok(product / denominator),
    }
}

/// Converts an amount of underlying `assets` into vault shares.
///
/// While the vault is empty (`total_shares == 0` or `total_assets == 0`) the
/// depositor receives shares one-to-one with the assets supplied; otherwise
/// shares are minted proportionally, rounding down.
pub fn convert_to_shares(assets: u128, total_shares: u128, total_assets: u128) -> (r: Result<u128, Error>)
    ensures
        r == spec_convert_to_shares(assets, total_shares, total_assets),
{
    if total_shares == 0 || total_assets == 0 {
        return Ok(assets);
    }
    mul_div(assets, total_shares, total_assets)
}

/// Computes the value of one share in underlying assets, scaled by `scale`
/// to keep the fractional part. Returns `scale` while no shares exist.
pub fn price_per_share(total_shares: u128, total_assets: u128, scale: u128) -> (r: Result<u128, Error>)
    ensures
        r == spec_price_per_share(total_shares, total_assets, scale),
{
    if total_shares == 0 {
        return Ok(scale);
    }
    mul_div(total_assets, scale, total_shares)
}

/// Computes what fraction of the vault `shares` represents, in basis points
/// (`bps` of them make the whole). Returns zero while no shares exist.
pub fn share_fraction_bps(shares: u128, total_shares: u128, bps: u128) -> (r: Result<u128, Error>)
    ensures
        r == spec_share_fraction_bps(shares, total_shares, bps),
{
    if total_shares == 0 {
        return Ok(0);
    }
    mul_div(shares, bps, total_shares)
}

/// Converts an amount of vault `shares` into the underlying assets they are
/// redeemable for, rounding down. Returns zero while no shares exist.
pub fn convert_to_assets(shares: u128, total_shares: u128, total_assets: u128) -> (r: Result<u128, Error>)
    ensures
        r == spec_convert_to_assets(shares, total_shares, total_assets),
{
    if total_shares == 0 {
        return Ok(0);
    }
    mul_div(shares, total_assets, total_shares)
}

/// Floor division of a nonnegative `x` by a positive `d` lies within one `d`
/// below `x`.
pub proof fn lemma_floor_div(x: int, d: int)
    requires
        x >= 0,
        d > 0,
    ensures
        x / d >= 0,
        (x / d) * d <= x < (x / d) * d + d,
{
    lemma_fundamental_div_mod(x, d);
    lemma_mod_pos_bound(x, d);
    let q = x / d;
    let r = x % d;
    assert(q * d <= x < q * d + d && q >= 0) by (nonlinear_arith)
        requires
            x == d * q + r,
            0 <= r < d,
            x >= 0,
            d > 0,
    ;
}

/// Every successful `mul_div` rounds down: the quotient times the denominator
/// never exceeds the product, and falls short of it by less than one
/// denominator.
pub proof fn lemma_mul_div_rounds_down(a: u128, b: u128, denominator: u128)
    ensures
        spec_mul_div(a, b, denominator) matches Ok(q) ==> q * denominator <= a * b < q * denominator
            + denominator,
{
    if denominator != 0 && a * b <= u128::MAX {
        lemma_floor_div(a * b, denominator as int);
    }
}

/// Converting assets to shares and those shares straight back to assets, at
/// one and the same exchange rate, never yields more assets than were put in.
pub proof fn lemma_round_trip_never_gains(assets: u128, total_shares: u128, total_assets: u128)
    ensures
        spec_convert_to_shares(assets, total_shares, total_assets) matches Ok(shares) ==> (
        spec_convert_to_assets(shares, total_shares, total_assets) matches Ok(back) ==> back
            <= assets),
{
    if total_shares != 0 && total_assets != 0 {
        if let Ok(shares) = spec_convert_to_shares(assets, total_shares, total_assets) {
            if let Ok(back) = spec_convert_to_assets(shares, total_shares, total_assets) {
                lemma_mul_div_rounds_down(assets, total_shares, total_assets);
                // shares * total_assets <= assets * total_shares
                lemma_div_is_ordered(
                    shares * total_assets,
                    assets * total_shares,
                    total_shares as int,
                );
                lemma_floor_div(assets * total_shares, total_shares as int);
                let q = (assets * total_shares) / (total_shares as int);
                assert(q == assets) by (nonlinear_arith)
                    requires
                        q * total_shares <= assets * total_shares < q * total_shares + total_shares,
                        total_shares > 0,
                ;
            }
        }
    }
}

/// As yield accrues (total assets grow while total shares stay put), the
/// assets that a fixed number of shares redeem for never shrink.
pub proof fn lemma_convert_to_assets_grows_with_assets(
    shares: u128,
    total_shares: u128,
    total_assets: u128,
    more_assets: u128,
)
    requires
        total_assets <= more_assets,
    ensures
        spec_convert_to_assets(shares, total_shares, total_assets) matches Ok(before) ==> (
        spec_convert_to_assets(shares, total_shares, more_assets) matches Ok(after) ==> before
            <= after),
{
    if total_shares != 0 {
        assert(shares * total_assets <= shares * more_assets) by (nonlinear_arith)
            requires
                total_assets <= more_assets,
        ;
        lemma_div_is_ordered(shares * total_assets, shares * more_assets, total_shares as int);
    }
}

/// Likewise the scaled price of one share never shrinks as total assets grow.
pub proof fn lemma_price_per_share_grows_with_assets(
    total_shares: u128,
    total_assets: u128,
    more_assets: u128,
    scale: u128,
)
    requires
        total_assets <= more_assets,
    ensures
        spec_price_per_share(total_shares, total_assets, scale) matches Ok(before) ==> (
        spec_price_per_share(total_shares, more_assets, scale) matches Ok(after) ==> before
            <= after),
{
    if total_shares != 0 {
        assert(total_assets * scale <= more_assets * scale) by (nonlinear_arith)
            requires
                total_assets <= more_assets,
        ;
        lemma_div_is_ordered(total_assets * scale, more_assets * scale, total_shares as int);
    }
}

} // verus!

verus! {

/// Floor division of a nonnegative `x` by a positive `d` is zero exactly when
/// `x < d`.
pub proof fn lemma_floor_div_zero_iff(x: int, d: int)
    requires
        x >= 0,
        d > 0,
    ensures
        (x / d == 0) <==> x < d,
{
    lemma_floor_div(x, d);
    let q = x / d;
    if q == 0 {
        assert(x < d) by (nonlinear_arith)
            requires
                x < q * d + d,
                q == 0,
        ;
    } else {
        assert(x >= d) by (nonlinear_arith)
            requires
                q * d <= x,
                q >= 1,
                d > 0,
        ;
    }
}

/// What `mul_div(a, b, d)` computes, in terms of its inputs: a zero `d` is
/// `DivisionByZero`; otherwise it fails, with `MathOverflow`, exactly when the
/// product `a * b` exceeds `u128::MAX`, and else returns the `q` with
/// `q * d <= a * b < q * d + d` (the product divided by `d`, rounded down,
/// multiplication before division). The result is zero exactly when
/// `a * b < d`.
pub proof fn lemma_mul_div_law(a: u128, b: u128, d: u128)
    ensures
        d == 0 ==> spec_mul_div(a, b, d) == Err::<u128, Error>(Error::DivisionByZero),
        d > 0 && a * b > u128::MAX ==> spec_mul_div(a, b, d) == Err::<u128, Error>(
            Error::MathOverflow,
        ),
        d > 0 && a * b <= u128::MAX ==> (spec_mul_div(a, b, d) matches Ok(q) && q * d <= a * b < q
            * d + d && (q == 0 <==> a * b < d)),
{
    if d > 0 && a * b <= u128::MAX {
        lemma_floor_div(a * b, d as int);
        lemma_floor_div_zero_iff(a * b, d as int);
    }
}

/// Converting assets to shares, in terms of the inputs: while the vault is
/// empty (no shares or no assets) the result is the assets themselves, one
/// to one; otherwise it fails, with `MathOverflow`, exactly when
/// `assets * total_shares` exceeds `u128::MAX`, and else is the `q` with
/// `q * total_assets <= assets * total_shares < q * total_assets + total_assets`.
pub proof fn lemma_convert_to_shares_law(assets: u128, total_shares: u128, total_assets: u128)
    ensures
        total_shares == 0 || total_assets == 0 ==> spec_convert_to_shares(
            assets,
            total_shares,
            total_assets,
        ) == Ok::<u128, Error>(assets),
        total_shares > 0 && total_assets > 0 ==> {
            &&& spec_convert_to_shares(assets, total_shares, total_assets) is Err <==> assets
                * total_shares > u128::MAX
            &&& spec_convert_to_shares(assets, total_shares, total_assets) is Err
                ==> spec_convert_to_shares(assets, total_shares, total_assets) == Err::<u128, Error>(
                Error::MathOverflow,
            )
            &&& spec_convert_to_shares(assets, total_shares, total_assets) matches Ok(q) ==> q
                * total_assets <= assets * total_shares < q * total_assets + total_assets
        },
{
    lemma_mul_div_law(assets, total_shares, total_assets);
}

/// Converting shares to assets, in terms of the inputs: with no shares in
/// existence the result is zero; otherwise it fails, with `MathOverflow`,
/// exactly when `shares * total_assets` exceeds `u128::MAX`, and else is the
/// `q` with `q * total_shares <= shares * total_assets < q * total_shares + total_shares`.
pub proof fn lemma_convert_to_assets_law(shares: u128, total_shares: u128, total_assets: u128)
    ensures
        total_shares == 0 ==> spec_convert_to_assets(shares, total_shares, total_assets) == Ok::<
            u128,
            Error,
        >(0),
        total_shares > 0 ==> {
            &&& spec_convert_to_assets(shares, total_shares, total_assets) is Err <==> shares
                * total_assets > u128::MAX
            &&& spec_convert_to_assets(shares, total_shares, total_assets) is Err
                ==> spec_convert_to_assets(shares, total_shares, total_assets) == Err::<u128, Error>(
                Error::MathOverflow,
            )
            &&& spec_convert_to_assets(shares, total_shares, total_assets) matches Ok(q) ==> q
                * total_shares <= shares * total_assets < q * total_shares + total_shares
        },
{
    lemma_mul_div_law(shares, total_assets, total_shares);
}

/// The scaled share price, in terms of the inputs: `scale` while no shares
/// exist; otherwise it fails, with `MathOverflow`, exactly when
/// `total_assets * scale` exceeds `u128::MAX`, and else is the `q` with
/// `q * total_shares <= total_assets * scale < q * total_shares + total_shares`.
pub proof fn lemma_price_per_share_law(total_shares: u128, total_assets: u128, scale: u128)
    ensures
        total_shares == 0 ==> spec_price_per_share(total_shares, total_assets, scale) == Ok::<
            u128,
            Error,
        >(scale),
        total_shares > 0 ==> {
            &&& spec_price_per_share(total_shares, total_assets, scale) is Err <==> total_assets
                * scale > u128::MAX
            &&& spec_price_per_share(total_shares, total_assets, scale) is Err
                ==> spec_price_per_share(total_shares, total_assets, scale) == Err::<u128, Error>(
                Error::MathOverflow,
            )
            &&& spec_price_per_share(total_shares, total_assets, scale) matches Ok(q) ==> q
                * total_shares <= total_assets * scale < q * total_shares + total_shares
        },
{
    lemma_mul_div_law(total_assets, scale, total_shares);
}

/// An account's share of the vault in basis points, in terms of the inputs:
/// zero while no shares exist; otherwise it fails, with `MathOverflow`,
/// exactly when `shares * bps` exceeds `u128::MAX`, and else is the `q` with
/// `q * total_shares <= shares * bps < q * total_shares + total_shares`
/// (the exact fraction rounded down, never overstated).
pub proof fn lemma_share_fraction_bps_law(shares: u128, total_shares: u128, bps: u128)
    ensures
        total_shares == 0 ==> spec_share_fraction_bps(shares, total_shares, bps) == Ok::<
            u128,
            Error,
        >(0),
        total_shares > 0 ==> {
            &&& spec_share_fraction_bps(shares, total_shares, bps) is Err <==> shares * bps
                > u128::MAX
            &&& spec_share_fraction_bps(shares, total_shares, bps) is Err
                ==> spec_share_fraction_bps(shares, total_shares, bps) == Err::<u128, Error>(
                Error::MathOverflow,
            )
            &&& spec_share_fraction_bps(shares, total_shares, bps) matches Ok(q) ==> q
                * total_shares <= shares * bps < q * total_shares + total_shares
        },
{
    lemma_mul_div_law(shares, bps, total_shares);
}

} // verus!
