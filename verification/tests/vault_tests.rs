use yieldvault_contract::vault::MOCK_APY_BPS;
use yieldvault_contract::{Error, YieldVault};

const ADMIN: &str = "admin";
const TOKEN: &str = "token";

/// An initialized, empty vault.
fn setup() -> YieldVault<&'static str> {
    let mut v = YieldVault::new();
    v.initialize(ADMIN, TOKEN).unwrap();
    v
}

#[test]
fn test_initialize_sets_admin_and_token() {
    let t = setup();
    assert_eq!(t.get_admin(), Ok(&ADMIN));
    assert_eq!(t.get_token(), Ok(&TOKEN));
}

#[test]
fn test_double_initialize_fails() {
    let mut t = setup();
    let res = t.initialize("other", TOKEN);
    assert_eq!(res, Err(Error::AlreadyInitialized));
    assert_eq!(t.get_admin(), Ok(&ADMIN));
}

#[test]
fn test_initial_state_is_empty() {
    let t = setup();
    assert_eq!(t.total_shares(), 0);
    assert_eq!(t.total_assets(), 0);
    // A user who never deposited holds no shares.
    let user_balance: u128 = 0;
    assert_eq!(user_balance, 0);
    assert_eq!(YieldVault::<&str>::get_apy(), 500);
}

#[test]
fn test_first_deposit_mints_one_to_one() {
    let mut t = setup();
    let mut user_tokens: u128 = 1_000;
    let mut vault_tokens: u128 = 0;
    let mut balance: u128 = 0;

    let shares = t.deposit(&mut balance, 1_000).unwrap();
    // A successful deposit pulls the assets into the vault.
    user_tokens -= 1_000;
    vault_tokens += 1_000;

    // The first deposit bootstraps the exchange rate one-to-one.
    assert_eq!(shares, 1_000);
    assert_eq!(balance, 1_000);
    assert_eq!(t.total_shares(), 1_000);
    assert_eq!(t.total_assets(), 1_000);
    assert_eq!(user_tokens, 0);
    assert_eq!(vault_tokens, 1_000);
}

#[test]
fn uninitialized_vault_refuses_everything() {
    let mut v: YieldVault<&str> = YieldVault::new();
    assert!(!v.is_initialized());
    let mut balance: u128 = 10;
    assert_eq!(v.get_admin(), Err(Error::NotInitialized));
    assert_eq!(v.get_token(), Err(Error::NotInitialized));
    assert_eq!(v.deposit(&mut balance, 100), Err(Error::NotInitialized));
    assert_eq!(v.withdraw(&mut balance, 5), Err(Error::NotInitialized));
    assert_eq!(v.accrue_yield(100), Err(Error::NotInitialized));
    assert_eq!(balance, 10);
    assert_eq!(v.total_shares, 0);
    assert_eq!(v.total_assets, 0);
}

#[test]
fn deposit_errors_leave_state_unchanged() {
    let mut v = setup();
    let mut balance: u128 = 0;
    assert_eq!(v.deposit(&mut balance, 0), Err(Error::ZeroAmount));

    v.total_shares = 3;
    v.total_assets = 4;
    // 1 * 3 / 4 rounds down to zero shares.
    assert_eq!(v.deposit(&mut balance, 1), Err(Error::ZeroShares));
    // The product overflows.
    v.total_shares = u128::MAX;
    v.total_assets = 1;
    assert_eq!(v.deposit(&mut balance, 2), Err(Error::MathOverflow));
    assert_eq!(v.total_shares, u128::MAX);
    assert_eq!(v.total_assets, 1);
    assert_eq!(balance, 0);
}

#[test]
fn deposit_mints_proportionally_after_yield() {
    let mut v = setup();
    let mut alice: u128 = 0;
    let mut bob: u128 = 0;
    assert_eq!(v.deposit(&mut alice, 1_000), Ok(1_000));
    assert_eq!(v.accrue_yield(1_000), Ok(()));
    assert_eq!(v.total_assets(), 2_000);
    assert_eq!(v.total_shares(), 1_000);
    assert_eq!(v.convert_to_shares(500), Ok(250));
    assert_eq!(v.deposit(&mut bob, 500), Ok(250));
    assert_eq!(bob, 250);
    assert_eq!(v.total_shares(), 1_250);
    assert_eq!(v.total_assets(), 2_500);
    assert_eq!(alice + bob, v.total_shares());
}

#[test]
fn withdraw_redeems_more_after_yield() {
    let mut v = setup();
    let mut balance: u128 = 0;
    v.deposit(&mut balance, 1_000).unwrap();
    assert_eq!(v.convert_to_assets(500), Ok(500));
    v.accrue_yield(500).unwrap();
    assert_eq!(v.convert_to_assets(500), Ok(750));
    assert_eq!(v.withdraw(&mut balance, 500), Ok(750));
    assert_eq!(balance, 500);
    assert_eq!(v.total_shares(), 500);
    assert_eq!(v.total_assets(), 750);
}

#[test]
fn withdraw_errors() {
    let mut v = setup();
    let mut balance: u128 = 0;
    v.deposit(&mut balance, 100).unwrap();
    assert_eq!(v.withdraw(&mut balance, 0), Err(Error::ZeroShares));
    assert_eq!(v.withdraw(&mut balance, 101), Err(Error::InsufficientShares));
    assert_eq!(balance, 100);

    // Burning one share of a vault with more shares than assets pays nothing.
    v.total_shares = 4;
    v.total_assets = 3;
    let mut small: u128 = 1;
    assert_eq!(v.withdraw(&mut small, 1), Err(Error::ZeroAmount));
    assert_eq!(small, 1);

    v.total_shares = 2;
    v.total_assets = u128::MAX;
    let mut big: u128 = 2;
    assert_eq!(v.withdraw(&mut big, 2), Err(Error::MathOverflow));
    assert_eq!(v.total_shares, 2);
    assert_eq!(v.total_assets, u128::MAX);
}

#[test]
fn withdraw_everything_empties_the_vault() {
    let mut v = setup();
    let mut balance: u128 = 0;
    v.deposit(&mut balance, 777).unwrap();
    assert_eq!(v.withdraw(&mut balance, 777), Ok(777));
    assert_eq!(balance, 0);
    assert_eq!(v.total_shares(), 0);
    assert_eq!(v.total_assets(), 0);
}

#[test]
fn accrue_yield_errors_and_effect() {
    let mut v = setup();
    assert_eq!(v.accrue_yield(0), Err(Error::ZeroAmount));
    assert_eq!(v.accrue_yield(42), Ok(()));
    assert_eq!(v.total_assets(), 42);
    assert_eq!(v.total_shares(), 0);
}

#[test]
fn aggregates_saturate() {
    let mut v = setup();
    v.total_assets = u128::MAX - 1;
    assert_eq!(v.accrue_yield(10), Ok(()));
    assert_eq!(v.total_assets(), u128::MAX);

    // Bootstrap deposit on a vault with no shares and a full asset total.
    let mut balance: u128 = u128::MAX - 5;
    v.total_assets = 0;
    v.total_shares = 0;
    assert_eq!(v.deposit(&mut balance, 10), Ok(10));
    assert_eq!(balance, u128::MAX);
    assert_eq!(v.total_shares(), 10);

    // Withdrawing floors the asset total at zero.
    let mut w = setup();
    w.total_shares = 10;
    w.total_assets = 10;
    let mut holder: u128 = 20;
    assert_eq!(w.withdraw(&mut holder, 20), Ok(20));
    assert_eq!(w.total_shares(), 0);
    assert_eq!(w.total_assets(), 0);
    assert_eq!(holder, 0);
}

#[test]
fn deposit_then_withdraw_never_gains() {
    let mut v = setup();
    v.total_shares = 3;
    v.total_assets = 4;
    let mut balance: u128 = 0;
    let shares = v.deposit(&mut balance, 10).unwrap();
    assert_eq!(shares, 7);
    let back = v.withdraw(&mut balance, shares).unwrap();
    assert_eq!(back, 9);
    assert!(back <= 10);
}

#[test]
fn deposit_into_vault_with_stranded_yield_gains() {
    // Yield accrued while the vault held no shares goes to the next depositor.
    let mut v = setup();
    v.accrue_yield(1).unwrap();
    let mut balance: u128 = 0;
    let shares = v.deposit(&mut balance, 1).unwrap();
    assert_eq!(shares, 1);
    assert_eq!(v.withdraw(&mut balance, shares), Ok(2));
}

#[test]
fn apy_is_fixed() {
    assert_eq!(YieldVault::<u64>::get_apy(), MOCK_APY_BPS);
    assert_eq!(MOCK_APY_BPS, 500);
}
