//! A share-based yield vault: depositors supply an underlying asset and
//! receive shares that track their proportional claim on the vault. As the
//! vault accrues yield the value of each share grows.

pub mod error;
pub mod laws;
pub mod math;
pub mod vault;

pub use error::Error;
pub use vault::YieldVault;
