//! What holds of the vault across operations: it initializes once, a
//! depositor cannot take out more than they put in, accruing yield never
//! lowers what a share redeems for, and the total share supply stays equal to
//! the sum of the account balances.

use vstd::prelude::*;
use vstd::arithmetic::div_mod::lemma_div_is_ordered;
use crate::error::Error;
use crate::math::{
    lemma_floor_div, lemma_convert_to_assets_grows_with_assets, lemma_mul_div_law,
    spec_convert_to_assets,
};
use crate::vault::{YieldVault, sat_add};

verus! {

/// The sum of the share balances held in `ledger`.
pub open spec fn ledger_sum(ledger: Seq<u128>) -> int
    decreases ledger.len(),
{
    if ledger.len() == 0 {
        0
    } else {
        ledger_sum(ledger.drop_last()) + ledger.last()
    }
}

/// Replacing one balance changes the sum by the difference.
pub proof fn lemma_ledger_sum_update(ledger: Seq<u128>, i: int, x: u128)
    requires
        0 <= i < ledger.len(),
    ensures
        ledger_sum(ledger.update(i, x)) == ledger_sum(ledger) - ledger[i] + x,
    decreases ledger.len(),
{
    let updated = ledger.update(i, x);
    if i == ledger.len() - 1 {
        assert(updated.drop_last() =~= ledger.drop_last());
    } else {
        assert(updated.drop_last() =~= ledger.drop_last().update(i, x));
        lemma_ledger_sum_update(ledger.drop_last(), i, x);
    }
}

/// No single balance exceeds the sum.
pub proof fn lemma_ledger_entry_bounded(ledger: Seq<u128>, i: int)
    requires
        0 <= i < ledger.len(),
    ensures
        0 <= ledger[i] <= ledger_sum(ledger),
    decreases ledger.len(),
{
    lemma_ledger_sum_nonnegative(ledger.drop_last());
    if i < ledger.len() - 1 {
        lemma_ledger_entry_bounded(ledger.drop_last(), i);
    }
}

/// The sum of balances is never negative.
pub proof fn lemma_ledger_sum_nonnegative(ledger: Seq<u128>)
    ensures
        ledger_sum(ledger) >= 0,
    decreases ledger.len(),
{
    if ledger.len() > 0 {
        lemma_ledger_sum_nonnegative(ledger.drop_last());
    }
}

/// The vault can be initialized only once: after one `initialize` has
/// succeeded, every later call returns `AlreadyInitialized` and (by the
/// contract of `initialize`) changes nothing.
pub proof fn lemma_initialize_only_once<A>(v: YieldVault<A>, admin: A, token: A)
    ensures
        v.initialized_with(admin, token).initialize_outcome() == Err::<(), Error>(
            Error::AlreadyInitialized,
        ),
{
}

/// A depositor cannot extract more value than they contributed: depositing
/// `amount` and at once withdrawing every share that the deposit minted pays
/// out at most `amount`.
///
/// This holds except on a vault that holds assets but no shares (yield
/// accrued while it was empty): there the first depositor mints one share per
/// asset and takes the stranded assets with them.
pub proof fn lemma_deposit_then_withdraw_never_gains<A>(v: YieldVault<A>, balance: u128, amount: u128)
    requires
        !(v.total_shares == 0 && v.total_assets > 0),
    ensures
        v.deposit_outcome(amount) matches Ok(shares) ==> (v.deposited(amount, shares).withdraw_outcome(
            sat_add(balance, shares),
            shares,
        ) matches Ok(assets) ==> assets <= amount),
{
    if let Ok(shares) = v.deposit_outcome(amount) {
        let v2 = v.deposited(amount, shares);
        if let Ok(assets) = v2.withdraw_outcome(sat_add(balance, shares), shares) {
            let s = v.total_shares as int;
            let a = v.total_assets as int;
            let s2 = v2.total_shares as int;
            let a2 = v2.total_assets as int;
            let sh = shares as int;
            let amt = amount as int;
            assert(s2 >= sh && s2 > 0);
            assert(spec_convert_to_assets(shares, v2.total_shares, v2.total_assets) == Ok::<
                u128,
                Error,
            >(assets));
            assert(sh * a2 <= u128::MAX);
            lemma_floor_div(sh * a2, s2);
            let q = (sh * a2) / s2;
            assert(assets == q);
            // assets * s2 <= sh * a2
            if s == 0 || a == 0 {
                // The bootstrap deposit: one share per asset, and the vault held no assets.
                assert(a == 0 && sh == amt && a2 == amt);
                assert(sh * a2 <= s2 * a2) by (nonlinear_arith)
                    requires
                        sh <= s2,
                        a2 >= 0,
                ;
                assert(q <= a2) by (nonlinear_arith)
                    requires
                        q * s2 <= s2 * a2,
                        s2 > 0,
                ;
            } else {
                lemma_floor_div(amt * s, a);
                assert(sh == (amt * s) / a);
                // sh * a <= amt * s
                if s + sh > u128::MAX {
                    assert(s2 == u128::MAX);
                    assert(q <= 1) by (nonlinear_arith)
                        requires
                            q * s2 <= sh * a2,
                            sh * a2 <= s2,
                            s2 > 0,
                            q >= 0,
                    ;
                } else {
                    assert(s2 == s + sh);
                    assert(a2 <= a + amt);
                    assert(q <= amt) by (nonlinear_arith)
                        requires
                            q * s2 <= sh * a2,
                            sh * a <= amt * s,
                            s2 == s + sh,
                            a2 <= a + amt,
                            s2 > 0,
                            sh >= 0,
                            amt >= 0,
                            q >= 0,
                    ;
                }
            }
        }
    }
}

/// Accruing yield never lowers what a given number of shares redeems for.
pub proof fn lemma_yield_never_lowers_share_value<A>(v: YieldVault<A>, amount: u128, shares: u128)
    requires
        v.accrue_yield_outcome(amount) is Ok,
    ensures
        spec_convert_to_assets(shares, v.total_shares, v.total_assets) matches Ok(before) ==> (
        spec_convert_to_assets(shares, v.accrued(amount).total_shares, v.accrued(amount).total_assets)
            matches Ok(after) ==> before <= after),
{
    lemma_convert_to_assets_grows_with_assets(
        shares,
        v.total_shares,
        v.total_assets,
        v.accrued(amount).total_assets,
    );
}

/// A deposit keeps the total share supply equal to the sum of all balances:
/// the shares credited to the depositor are exactly the shares added to the
/// supply, unless the supply would pass `u128::MAX` and be capped there.
pub proof fn lemma_deposit_keeps_supply_equal_to_balances<A>(
    v: YieldVault<A>,
    ledger: Seq<u128>,
    i: int,
    amount: u128,
)
    requires
        0 <= i < ledger.len(),
        ledger_sum(ledger) == v.total_shares,
    ensures
        v.deposit_outcome(amount) matches Ok(shares) ==> (v.total_shares + shares <= u128::MAX
            ==> ledger_sum(ledger.update(i, sat_add(ledger[i], shares))) == v.deposited(
            amount,
            shares,
        ).total_shares),
{
    if let Ok(shares) = v.deposit_outcome(amount) {
        if v.total_shares + shares <= u128::MAX {
            lemma_ledger_entry_bounded(ledger, i);
            lemma_ledger_sum_update(ledger, i, sat_add(ledger[i], shares));
        }
    }
}

/// A withdrawal keeps the total share supply equal to the sum of all
/// balances, and, while it does, neither aggregate is ever floored at zero:
/// the supply drops by exactly the shares burnt and the assets by exactly the
/// assets paid out, which never exceed what the vault holds.
pub proof fn lemma_withdraw_keeps_supply_equal_to_balances<A>(
    v: YieldVault<A>,
    ledger: Seq<u128>,
    i: int,
    shares: u128,
)
    requires
        0 <= i < ledger.len(),
        ledger_sum(ledger) == v.total_shares,
    ensures
        v.withdraw_outcome(ledger[i], shares) matches Ok(assets) ==> {
            &&& ledger_sum(ledger.update(i, (ledger[i] - shares) as u128)) == v.withdrawn(
                shares,
                assets,
            ).total_shares
            &&& v.withdrawn(shares, assets).total_shares == v.total_shares - shares
            &&& assets <= v.total_assets
            &&& v.withdrawn(shares, assets).total_assets == v.total_assets - assets
        },
{
    if let Ok(assets) = v.withdraw_outcome(ledger[i], shares) {
        lemma_ledger_entry_bounded(ledger, i);
        lemma_ledger_sum_update(ledger, i, (ledger[i] - shares) as u128);
        let s = v.total_shares as int;
        let a = v.total_assets as int;
        let sh = shares as int;
        assert(sh <= s && s > 0);
        lemma_floor_div(sh * a, s);
        let q = (sh * a) / s;
        assert(assets == q);
        assert(q <= a) by (nonlinear_arith)
            requires
                q * s <= sh * a,
                sh <= s,
                s > 0,
                a >= 0,
                q >= 0,
        ;
    }
}

/// Accruing yield leaves the share supply, and so its match with the sum of
/// balances, untouched.
pub proof fn lemma_accrue_yield_keeps_supply_equal_to_balances<A>(
    v: YieldVault<A>,
    ledger: Seq<u128>,
    amount: u128,
)
    requires
        ledger_sum(ledger) == v.total_shares,
    ensures
        v.accrue_yield_outcome(amount) is Ok ==> ledger_sum(ledger) == v.accrued(amount).total_shares,
{
}

/// What a deposit does, in terms of its inputs. On an uninitialized vault it
/// fails with `NotInitialized`; a zero amount fails with `ZeroAmount`. While
/// the vault is empty (no shares or no assets) it mints one share per asset.
/// Otherwise it fails with `MathOverflow` exactly when
/// `amount * total_shares` exceeds `u128::MAX`, with `ZeroShares` exactly
/// when that product is below `total_assets`, and else mints the `q` shares
/// with `q * total_assets <= amount * total_shares < q * total_assets + total_assets`,
/// whatever the exchange rate. After a successful deposit the share supply
/// grows by `q`, the assets by `amount` and the depositor's balance by `q`,
/// each capped at `u128::MAX`; admin and token are unchanged.
pub proof fn lemma_deposit_law<A>(v: YieldVault<A>, balance: u128, amount: u128)
    ensures
        v.admin is None ==> v.deposit_outcome(amount) == Err::<u128, Error>(Error::NotInitialized),
        v.admin is Some && amount == 0 ==> v.deposit_outcome(amount) == Err::<u128, Error>(
            Error::ZeroAmount,
        ),
        v.admin is Some && amount > 0 && (v.total_shares == 0 || v.total_assets == 0)
            ==> v.deposit_outcome(amount) == Ok::<u128, Error>(amount),
        v.admin is Some && amount > 0 && v.total_shares > 0 && v.total_assets > 0 ==> {
            &&& amount * v.total_shares > u128::MAX ==> v.deposit_outcome(amount) == Err::<
                u128,
                Error,
            >(Error::MathOverflow)
            &&& amount * v.total_shares <= u128::MAX && amount * v.total_shares < v.total_assets
                ==> v.deposit_outcome(amount) == Err::<u128, Error>(Error::ZeroShares)
            &&& amount * v.total_shares <= u128::MAX && amount * v.total_shares >= v.total_assets
                ==> (v.deposit_outcome(amount) matches Ok(q) && q > 0 && q * v.total_assets
                <= amount * v.total_shares < q * v.total_assets + v.total_assets)
        },
        v.deposit_outcome(amount) matches Ok(q) ==> {
            &&& v.total_shares + q <= u128::MAX ==> v.deposited(amount, q).total_shares
                == v.total_shares + q
            &&& v.total_shares + q > u128::MAX ==> v.deposited(amount, q).total_shares
                == u128::MAX
            &&& v.total_assets + amount <= u128::MAX ==> v.deposited(amount, q).total_assets
                == v.total_assets + amount
            &&& v.total_assets + amount > u128::MAX ==> v.deposited(amount, q).total_assets
                == u128::MAX
            &&& balance + q <= u128::MAX ==> sat_add(balance, q) == balance + q
            &&& balance + q > u128::MAX ==> sat_add(balance, q) == u128::MAX
            &&& v.deposited(amount, q).admin == v.admin
            &&& v.deposited(amount, q).token == v.token
        },
{
    lemma_mul_div_law(amount, v.total_shares, v.total_assets);
}

/// What a withdrawal does, in terms of its inputs. On an uninitialized vault
/// it fails with `NotInitialized`; zero shares fail with `ZeroShares`; more
/// shares than the account's `balance` fail with `InsufficientShares`. With
/// no shares in existence it pays nothing and so fails with `ZeroAmount`.
/// Otherwise it fails with `MathOverflow` exactly when
/// `shares * total_assets` exceeds `u128::MAX`, with `ZeroAmount` exactly
/// when that product is below `total_shares`, and else pays out the `q`
/// assets with `q * total_shares <= shares * total_assets < q * total_shares + total_shares`,
/// whatever is left in the vault afterwards. After a successful withdrawal
/// the share supply drops by `shares` and the assets by `q`, each floored at
/// zero; admin and token are unchanged.
pub proof fn lemma_withdraw_law<A>(v: YieldVault<A>, balance: u128, shares: u128)
    ensures
        v.admin is None ==> v.withdraw_outcome(balance, shares) == Err::<u128, Error>(
            Error::NotInitialized,
        ),
        v.admin is Some && shares == 0 ==> v.withdraw_outcome(balance, shares) == Err::<
            u128,
            Error,
        >(Error::ZeroShares),
        v.admin is Some && shares > 0 && balance < shares ==> v.withdraw_outcome(balance, shares)
            == Err::<u128, Error>(Error::InsufficientShares),
        v.admin is Some && 0 < shares <= balance && v.total_shares == 0 ==> v.withdraw_outcome(
            balance,
            shares,
        ) == Err::<u128, Error>(Error::ZeroAmount),
        v.admin is Some && 0 < shares <= balance && v.total_shares > 0 ==> {
            &&& shares * v.total_assets > u128::MAX ==> v.withdraw_outcome(balance, shares)
                == Err::<u128, Error>(Error::MathOverflow)
            &&& shares * v.total_assets <= u128::MAX && shares * v.total_assets < v.total_shares
                ==> v.withdraw_outcome(balance, shares) == Err::<u128, Error>(Error::ZeroAmount)
            &&& shares * v.total_assets <= u128::MAX && shares * v.total_assets >= v.total_shares
                ==> (v.withdraw_outcome(balance, shares) matches Ok(q) && q > 0 && q
                * v.total_shares <= shares * v.total_assets < q * v.total_shares + v.total_shares)
        },
        v.withdraw_outcome(balance, shares) matches Ok(q) ==> {
            &&& shares <= v.total_shares ==> v.withdrawn(shares, q).total_shares == v.total_shares
                - shares
            &&& shares > v.total_shares ==> v.withdrawn(shares, q).total_shares == 0
            &&& q <= v.total_assets ==> v.withdrawn(shares, q).total_assets == v.total_assets - q
            &&& q > v.total_assets ==> v.withdrawn(shares, q).total_assets == 0
            &&& v.withdrawn(shares, q).admin == v.admin
            &&& v.withdrawn(shares, q).token == v.token
        },
{
    lemma_mul_div_law(shares, v.total_assets, v.total_shares);
}

/// What accruing yield does, in terms of its inputs: it fails with
/// `NotInitialized` on an uninitialized vault and with `ZeroAmount` for a zero
/// amount, and otherwise succeeds, raising the assets by `amount` (capped at
/// `u128::MAX`) and leaving the share supply, admin and token unchanged.
pub proof fn lemma_accrue_yield_law<A>(v: YieldVault<A>, amount: u128)
    ensures
        v.admin is None ==> v.accrue_yield_outcome(amount) == Err::<(), Error>(
            Error::NotInitialized,
        ),
        v.admin is Some && amount == 0 ==> v.accrue_yield_outcome(amount) == Err::<(), Error>(
            Error::ZeroAmount,
        ),
        v.admin is Some && amount > 0 ==> v.accrue_yield_outcome(amount) is Ok,
        v.total_assets + amount <= u128::MAX ==> v.accrued(amount).total_assets == v.total_assets
            + amount,
        v.total_assets + amount > u128::MAX ==> v.accrued(amount).total_assets == u128::MAX,
        v.accrued(amount).total_shares == v.total_shares,
        v.accrued(amount).admin == v.admin,
        v.accrued(amount).token == v.token,
{
}

/// What initializing does, in terms of its inputs: it succeeds exactly when
/// no admin is set yet, and then sets the admin and token and leaves both
/// totals unchanged.
pub proof fn lemma_initialize_law<A>(v: YieldVault<A>, admin: A, token: A)
    ensures
        v.initialize_outcome() is Ok <==> v.admin is None,
        v.initialize_outcome() is Err ==> v.initialize_outcome() == Err::<(), Error>(
            Error::AlreadyInitialized,
        ),
        v.initialized_with(admin, token).admin == Some(admin),
        v.initialized_with(admin, token).token == Some(token),
        v.initialized_with(admin, token).total_shares == v.total_shares,
        v.initialized_with(admin, token).total_assets == v.total_assets,
{
}

} // verus!
