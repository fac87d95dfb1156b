use vault::ops::{deposit, deposit_check, initialize, withdraw, withdraw_plan};
use vault::records::{AccountId, UserVault, VaultError};

fn id(tag: u64) -> AccountId {
    AccountId {
        w0: tag,
        w1: tag.wrapping_mul(3),
        w2: tag.wrapping_mul(5),
        w3: tag.wrapping_mul(7),
    }
}

#[test]
fn initialize_sets_fee_and_zero_balance() {
    let vault = initialize(id(1), id(2), 10).unwrap();
    assert_eq!(vault.balance, 0);
    assert_eq!(vault.fee, 10);
    assert_eq!(vault.owner, id(1));
    assert_eq!(vault.token_mint, id(2));
}

#[test]
fn initialize_rejects_fee_above_hundred() {
    let r = initialize(id(1), id(2), 101);
    assert_eq!(r, Err(VaultError::FeeCalculationOverflow));
}

#[test]
fn initialize_accepts_fee_boundaries() {
    assert_eq!(initialize(id(1), id(2), 0).unwrap().fee, 0);
    assert_eq!(initialize(id(1), id(2), 100).unwrap().fee, 100);
}

#[test]
fn deposit_credits_both_balances() {
    let mut vault = initialize(id(1), id(2), 10).unwrap();
    let mut user = UserVault { balance: 0 };
    assert_eq!(deposit_check(&vault, &user, id(2), 100), Ok(100));
    assert_eq!(deposit(&mut vault, &mut user, id(2), 100), Ok(()));
    assert_eq!(vault.balance, 100);
    assert_eq!(user.balance, 100);
}

#[test]
fn deposit_rejects_wrong_mint_and_changes_nothing() {
    let mut vault = initialize(id(1), id(2), 10).unwrap();
    let mut user = UserVault { balance: 0 };
    assert_eq!(deposit(&mut vault, &mut user, id(2), 100), Ok(()));
    assert_eq!(
        deposit_check(&vault, &user, id(9), 40),
        Err(VaultError::InvalidTokenMint)
    );
    assert_eq!(
        deposit(&mut vault, &mut user, id(9), 40),
        Err(VaultError::InvalidTokenMint)
    );
    assert_eq!(vault.balance, 100);
    assert_eq!(user.balance, 100);
}

#[test]
fn deposit_of_zero_changes_nothing() {
    let mut vault = initialize(id(1), id(2), 10).unwrap();
    let mut user = UserVault { balance: 0 };
    assert_eq!(deposit(&mut vault, &mut user, id(2), 25), Ok(()));
    assert_eq!(deposit(&mut vault, &mut user, id(2), 0), Ok(()));
    assert_eq!(vault.balance, 25);
    assert_eq!(user.balance, 25);
}

#[test]
fn deposit_rejects_overflow_and_changes_nothing() {
    let mut vault = initialize(id(1), id(2), 10).unwrap();
    let mut user = UserVault { balance: 0 };
    assert_eq!(deposit(&mut vault, &mut user, id(2), u64::MAX), Ok(()));
    assert_eq!(
        deposit(&mut vault, &mut user, id(2), 1),
        Err(VaultError::FeeCalculationOverflow)
    );
    assert_eq!(vault.balance, u64::MAX);
    assert_eq!(user.balance, u64::MAX);
}

#[test]
fn withdraw_charges_truncated_fee() {
    let mut vault = initialize(id(1), id(2), 10).unwrap();
    let mut user = UserVault { balance: 0 };
    assert_eq!(deposit(&mut vault, &mut user, id(2), 100), Ok(()));
    let plan = withdraw_plan(&vault, &user, 50).unwrap();
    assert_eq!(plan.fee_amount, 5);
    assert_eq!(plan.net_amount, 45);
    assert_eq!(withdraw(&mut vault, &mut user, 50), Ok(()));
    assert_eq!(vault.balance, 55);
    assert_eq!(user.balance, 55);
}

#[test]
fn withdraw_fee_truncates_downward() {
    let vault = initialize(id(1), id(2), 7).unwrap();
    let user = UserVault { balance: 1000 };
    // 33 * 7 / 100 = 231 / 100 = 2, rounded down in the depositor's favor.
    let plan = withdraw_plan(&vault, &user, 33).unwrap();
    assert_eq!(plan.fee_amount, 2);
    assert_eq!(plan.net_amount, 31);
    assert!(plan.fee_amount <= 33);
    assert!(plan.net_amount <= 33);
}

#[test]
fn withdraw_rejects_insufficient_balance_and_changes_nothing() {
    let mut vault = initialize(id(1), id(2), 10).unwrap();
    let mut user = UserVault { balance: 0 };
    assert_eq!(deposit(&mut vault, &mut user, id(2), 100), Ok(()));
    // net = 200 - 20 = 180 > 100 held.
    assert_eq!(
        withdraw_plan(&vault, &user, 200),
        Err(VaultError::InsufficientBalance)
    );
    assert_eq!(
        withdraw(&mut vault, &mut user, 200),
        Err(VaultError::InsufficientBalance)
    );
    assert_eq!(vault.balance, 100);
    assert_eq!(user.balance, 100);
}

#[test]
fn withdraw_rejects_fee_overflow_and_changes_nothing() {
    let mut vault = initialize(id(1), id(2), 10).unwrap();
    let mut user = UserVault { balance: 0 };
    assert_eq!(deposit(&mut vault, &mut user, id(2), 100), Ok(()));
    // u64::MAX * 10 does not fit in 64 bits.
    assert_eq!(
        withdraw_plan(&vault, &user, u64::MAX),
        Err(VaultError::FeeCalculationOverflow)
    );
    assert_eq!(
        withdraw(&mut vault, &mut user, u64::MAX),
        Err(VaultError::FeeCalculationOverflow)
    );
    assert_eq!(vault.balance, 100);
    assert_eq!(user.balance, 100);
}

#[test]
fn withdraw_of_zero_changes_nothing() {
    let mut vault = initialize(id(1), id(2), 10).unwrap();
    let mut user = UserVault { balance: 0 };
    assert_eq!(deposit(&mut vault, &mut user, id(2), 60), Ok(()));
    assert_eq!(withdraw(&mut vault, &mut user, 0), Ok(()));
    assert_eq!(vault.balance, 60);
    assert_eq!(user.balance, 60);
}

#[test]
fn withdraw_with_zero_fee_pays_full_amount() {
    let mut vault = initialize(id(1), id(2), 0).unwrap();
    let mut user = UserVault { balance: 0 };
    assert_eq!(deposit(&mut vault, &mut user, id(2), 80), Ok(()));
    let plan = withdraw_plan(&vault, &user, 80).unwrap();
    assert_eq!(plan.fee_amount, 0);
    assert_eq!(plan.net_amount, 80);
    assert_eq!(withdraw(&mut vault, &mut user, 80), Ok(()));
    assert_eq!(vault.balance, 0);
    assert_eq!(user.balance, 0);
}

#[test]
fn withdraw_with_full_fee_pays_nothing() {
    let mut vault = initialize(id(1), id(2), 100).unwrap();
    let mut user = UserVault { balance: 0 };
    assert_eq!(deposit(&mut vault, &mut user, id(2), 40), Ok(()));
    let plan = withdraw_plan(&vault, &user, 40).unwrap();
    assert_eq!(plan.fee_amount, 40);
    assert_eq!(plan.net_amount, 0);
    assert_eq!(withdraw(&mut vault, &mut user, 40), Ok(()));
    assert_eq!(vault.balance, 40);
    assert_eq!(user.balance, 40);
}

#[test]
fn aggregate_tracks_sum_of_two_depositors() {
    let mut vault = initialize(id(1), id(2), 10).unwrap();
    let mut alice = UserVault { balance: 0 };
    let mut bob = UserVault { balance: 0 };
    assert_eq!(deposit(&mut vault, &mut alice, id(2), 300), Ok(()));
    assert_eq!(deposit(&mut vault, &mut bob, id(2), 200), Ok(()));
    assert_eq!(vault.balance, alice.balance + bob.balance);
    assert_eq!(withdraw(&mut vault, &mut alice, 100), Ok(()));
    // fee 10: net 90 leaves alice at 210 and the aggregate at 410.
    assert_eq!(alice.balance, 210);
    assert_eq!(bob.balance, 200);
    assert_eq!(vault.balance, alice.balance + bob.balance);
    assert!(alice.balance <= vault.balance);
    assert!(bob.balance <= vault.balance);
}
