//! The vault's state and the decisions of each of its operations.
//!
//! `YieldVault` holds what the contract keeps in its instance storage: the
//! administrator and underlying token (both unset until `initialize`) and the
//! two aggregates, total shares and total assets. Each depositor's share
//! balance lives elsewhere, keyed by account; an operation that touches it
//! takes it by `&mut`. Each operation decides and updates the state in one
//! step: on success the caller then moves the tokens and records the result,
//! on error nothing has changed.
//!
//! Aggregates are updated with saturating arithmetic (capped at `u128::MAX`,
//! floored at zero); only the conversion's intermediate product is checked.

use vstd::prelude::*;
use crate::error::Error;
use crate::math::{convert_to_shares, convert_to_assets, spec_convert_to_shares, spec_convert_to_assets};

verus! {

/// The vault's advertised mock APY, in basis points (500 == 5.00%).
pub const MOCK_APY_BPS: u32 = 500;

/// `x + y`, capped at `u128::MAX`.
pub open spec fn sat_add(x: u128, y: u128) -> u128 {
    if x + y > u128::MAX {
        u128::MAX
    } else {
        (x + y) as u128
    }
}

/// `x - y`, floored at zero.
pub open spec fn sat_sub(x: u128, y: u128) -> u128 {
    if x < y {
        0
    } else {
        (x - y) as u128
    }
}

/// A share-based (ERC4626-style) yield vault, generic over the type `A` that
/// identifies an account or a token contract.
pub struct YieldVault<A> {
    /// The vault administrator; `None` until the vault is initialized.
    pub admin: Option<A>,
    /// The underlying asset token; `None` until the vault is initialized.
    pub token: Option<A>,
    /// The total number of shares minted by the vault.
    pub total_shares: u128,
    /// The total amount of underlying assets held by the vault.
    pub total_assets: u128,
}

impl<A> YieldVault<A> {
    /// The vault has been initialized.
    pub open spec fn initialized(self) -> bool {
        self.admin is Some
    }

    /// What `initialize` returns on this state.
    pub open spec fn initialize_outcome(self) -> Result<(), Error> {
        if self.initialized() {
            Err(Error::AlreadyInitialized)
        } else {
            Ok(())
        }
    }

    /// The state after `initialize(admin, token)` succeeded.
    pub open spec fn initialized_with(self, admin: A, token: A) -> Self {
        YieldVault {
            admin: Some(admin),
            token: Some(token),
            total_shares: self.total_shares,
            total_assets: self.total_assets,
        }
    }

    /// What `deposit(_, amount)` returns on this state: the shares to mint,
    /// or the error.
    pub open spec fn deposit_outcome(self, amount: u128) -> Result<u128, Error> {
        if !self.initialized() {
            Err(Error::NotInitialized)
        } else if amount == 0 {
            Err(Error::ZeroAmount)
        } else {
            match spec_convert_to_shares(amount, self.total_shares, self.total_assets) {
                Err(e) => Err(e),
                Ok(shares) => if shares == 0 {
                    Err(Error::ZeroShares)
                } else {
                    Ok(shares)
                },
            }
        }
    }

    /// The state after `amount` assets were deposited for `shares` new shares.
    pub open spec fn deposited(self, amount: u128, shares: u128) -> Self {
        YieldVault {
            admin: self.admin,
            token: self.token,
            total_shares: sat_add(self.total_shares, shares),
            total_assets: sat_add(self.total_assets, amount),
        }
    }

    /// What `withdraw` returns on this state when the account holds
    /// `balance` shares and redeems `shares` of them: the assets to pay out,
    /// or the error.
    pub open spec fn withdraw_outcome(self, balance: u128, shares: u128) -> Result<u128, Error> {
        if !self.initialized() {
            Err(Error::NotInitialized)
        } else if shares == 0 {
            Err(Error::ZeroShares)
        } else if balance < shares {
            Err(Error::InsufficientShares)
        } else {
            match spec_convert_to_assets(shares, self.total_shares, self.total_assets) {
                Err(e) => Err(e),
                Ok(assets) => if assets == 0 {
                    Err(Error::ZeroAmount)
                } else {
                    Ok(assets)
                },
            }
        }
    }

    /// The state after `shares` were burnt for `assets` paid out.
    pub open spec fn withdrawn(self, shares: u128, assets: u128) -> Self {
        YieldVault {
            admin: self.admin,
            token: self.token,
            total_shares: sat_sub(self.total_shares, shares),
            total_assets: sat_sub(self.total_assets, assets),
        }
    }

    /// What `accrue_yield(amount)` returns on this state.
    pub open spec fn accrue_yield_outcome(self, amount: u128) -> Result<(), Error> {
        if !self.initialized() {
            Err(Error::NotInitialized)
        } else if amount == 0 {
            Err(Error::ZeroAmount)
        } else {
            Ok(())
        }
    }

    /// The state after `amount` of yield accrued.
    pub open spec fn accrued(self, amount: u128) -> Self {
        YieldVault {
            admin: self.admin,
            token: self.token,
            total_shares: self.total_shares,
            total_assets: sat_add(self.total_assets, amount),
        }
    }

    /// An empty vault that has not been initialized.
    pub fn new() -> (v: Self)
        ensures
            v.admin is None,
            v.token is None,
            v.total_shares == 0,
            v.total_assets == 0,
    {
        YieldVault { admin: None, token: None, total_shares: 0, total_assets: 0 }
    }

    /// Whether the vault has been initialized.
    pub fn is_initialized(&self) -> (r: bool)
        ensures
            r == self.initialized(),
    {
        self.admin.is_some()
    }

    /// Initializes the vault with its `admin` and the `token` it accepts as
    /// the underlying asset.
    ///
    /// Can only be called once; a second call returns
    /// [`Error::AlreadyInitialized`] and changes nothing.
    pub fn initialize(&mut self, admin: A, token: A) -> (r: Result<(), Error>)
        ensures
            r == old(self).initialize_outcome(),
            r is Ok ==> *final(self) == old(self).initialized_with(admin, token),
            r is Err ==> *final(self) == *old(self),
    {
        if self.admin.is_some() {
            return Err(Error::AlreadyInitialized);
        }
        self.admin = Some(admin);
        self.token = Some(token);
        Ok(())
    }

    /// Returns the vault administrator.
    pub fn get_admin(&self) -> (r: Result<&A, Error>)
        ensures
            match self.admin {
                Some(admin) => r == Ok::<&A, Error>(&admin),
                None => r == Err::<&A, Error>(Error::NotInitialized),
            },
    {
        match &self.admin {
            Some(admin) => Ok(admin),
            None => Err(Error::NotInitialized),
        }
    }

    /// Returns the underlying asset token.
    ///
    /// Like the original, the vault counts as initialized once an admin is
    /// set; `initialize` sets both at once.
    pub fn get_token(&self) -> (r: Result<&A, Error>)
        ensures
            self.admin is None ==> r == Err::<&A, Error>(Error::NotInitialized),
            self.admin is Some && self.token is Some ==> r == Ok::<&A, Error>(&self.token->0),
            self.admin is Some && self.token is None ==> r == Err::<&A, Error>(Error::NotInitialized),
    {
        if self.admin.is_none() {
            return Err(Error::NotInitialized);
        }
        match &self.token {
            Some(token) => Ok(token),
            None => Err(Error::NotInitialized),
        }
    }

    /// Returns the total number of shares minted by the vault.
    pub fn total_shares(&self) -> (r: u128)
        ensures
            r == self.total_shares,
    {
        self.total_shares
    }

    /// Returns the total amount of underlying assets held by the vault.
    pub fn total_assets(&self) -> (r: u128)
        ensures
            r == self.total_assets,
    {
        self.total_assets
    }

    /// Previews how many shares would be minted for depositing `assets` at
    /// the current exchange rate.
    pub fn convert_to_shares(&self, assets: u128) -> (r: Result<u128, Error>)
        ensures
            r == spec_convert_to_shares(assets, self.total_shares, self.total_assets),
    {
        convert_to_shares(assets, self.total_shares, self.total_assets)
    }

    /// Previews how many underlying assets `shares` would redeem for at the
    /// current exchange rate.
    pub fn convert_to_assets(&self, shares: u128) -> (r: Result<u128, Error>)
        ensures
            r == spec_convert_to_assets(shares, self.total_shares, self.total_assets),
    {
        convert_to_assets(shares, self.total_shares, self.total_assets)
    }

    /// Deposits `amount` of the underlying asset for an account whose share
    /// balance is `balance`, minting and returning the shares credited to it.
    ///
    /// On success the caller pulls `amount` of the token from the account
    /// into the vault; on error nothing has changed.
    pub fn deposit(&mut self, balance: &mut u128, amount: u128) -> (r: Result<u128, Error>)
        ensures
            r == old(self).deposit_outcome(amount),
            r matches Ok(shares) ==> *final(self) == old(self).deposited(amount, shares)
                && *final(balance) == sat_add(*old(balance), shares),
            r is Err ==> *final(self) == *old(self) && *final(balance) == *old(balance),
    {
        if self.admin.is_none() {
            return Err(Error::NotInitialized);
        }
        if amount == 0 {
            return Err(Error::ZeroAmount);
        }
        let shares = convert_to_shares(amount, self.total_shares, self.total_assets)?;
        if shares == 0 {
            return Err(Error::ZeroShares);
        }
        self.total_shares = self.total_shares.saturating_add(shares);
        self.total_assets = self.total_assets.saturating_add(amount);
        *balance = balance.saturating_add(shares);
        Ok(shares)
    }

    /// Burns `shares` from an account whose share balance is `balance` and
    /// returns the corresponding amount of underlying assets.
    ///
    /// Returns [`Error::InsufficientShares`] if the account does not hold
    /// enough shares. On success the caller transfers the assets to the
    /// account; on error nothing has changed.
    pub fn withdraw(&mut self, balance: &mut u128, shares: u128) -> (r: Result<u128, Error>)
        ensures
            r == old(self).withdraw_outcome(*old(balance), shares),
            r matches Ok(assets) ==> *final(self) == old(self).withdrawn(shares, assets)
                && *final(balance) == *old(balance) - shares,
            r is Err ==> *final(self) == *old(self) && *final(balance) == *old(balance),
    {
        if self.admin.is_none() {
            return Err(Error::NotInitialized);
        }
        if shares == 0 {
            return Err(Error::ZeroShares);
        }
        if *balance < shares {
            return Err(Error::InsufficientShares);
        }
        let assets = convert_to_assets(shares, self.total_shares, self.total_assets)?;
        if assets == 0 {
            return Err(Error::ZeroAmount);
        }
        self.total_shares = self.total_shares.saturating_sub(shares);
        self.total_assets = self.total_assets.saturating_sub(assets);
        *balance = *balance - shares;
        Ok(assets)
    }

    /// Mocks yield accrual by increasing the vault's total assets by
    /// `amount` without minting new shares, raising the value of every
    /// existing share. The caller checks the administrator's authorization.
    pub fn accrue_yield(&mut self, amount: u128) -> (r: Result<(), Error>)
        ensures
            r == old(self).accrue_yield_outcome(amount),
            r is Ok ==> *final(self) == old(self).accrued(amount),
            r is Err ==> *final(self) == *old(self),
    {
        if self.admin.is_none() {
            return Err(Error::NotInitialized);
        }
        if amount == 0 {
            return Err(Error::ZeroAmount);
        }
        self.total_assets = self.total_assets.saturating_add(amount);
        Ok(())
    }

    /// Returns the vault's advertised annual percentage yield in basis
    /// points (1% == 100 basis points): a fixed mock figure.
    pub fn get_apy() -> (r: u32)
        ensures
            r == MOCK_APY_BPS,
    {
        MOCK_APY_BPS
    }
}

} // verus!
