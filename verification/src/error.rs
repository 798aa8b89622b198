use vstd::prelude::*;

verus! {

/// Errors that the vault's operations can return.
#[derive(Copy, Clone, Debug, PartialEq, Eq, PartialOrd, Ord, Structural)]
pub enum Error {
    /// The vault has already been initialized.
    AlreadyInitialized,
    /// The vault has not been initialized yet.
    NotInitialized,
    /// An arithmetic operation overflowed the supported integer range.
    MathOverflow,
    /// A division by zero was attempted.
    DivisionByZero,
    /// A zero amount was supplied where a positive amount is required.
    ZeroAmount,
    /// The operation would mint or burn zero shares.
    ZeroShares,
    /// The account does not hold enough shares for the request.
    InsufficientShares,
}

} // verus!
