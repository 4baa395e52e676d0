use tokenized_vault::errors::VaultError;
use tokenized_vault::instructions::deposit::Deposit;
use tokenized_vault::instructions::TokenAccount;
use tokenized_vault::pubkey::Pubkey;
use tokenized_vault::state::VaultState;

fn key(tag: u8) -> Pubkey {
    let mut bytes = [0u8; 32];
    bytes[0] = tag;
    bytes[31] = 0xA5;
    Pubkey::new(bytes)
}

fn vault(total_assets: u64, total_shares: u64) -> VaultState {
    VaultState {
        authority: Pubkey::default(),
        asset_mint: Pubkey::default(),
        share_mint: Pubkey::default(),
        total_assets,
        total_shares,
        bump: 0,
        share_bump: 0,
        authority_bump: 0,
        _reserved: [0; 128],
    }
}

#[test]
fn test_calculate_shares_first_deposit() {
    let vault = vault(0, 0);
    assert_eq!(vault.calculate_shares(1000).unwrap(), 1000);
    assert_eq!(vault.calculate_shares(u64::MAX).unwrap(), u64::MAX);
}

#[test]
fn test_calculate_shares_with_profit() {
    let vault = vault(2000, 1000);
    assert_eq!(vault.calculate_shares(500).unwrap(), 250);
    assert_eq!(vault.calculate_shares(1000).unwrap(), 500);
}

#[test]
fn test_calculate_shares_equal_ratio() {
    let vault = vault(1000, 1000);
    assert_eq!(vault.calculate_shares(500).unwrap(), 500);
    assert_eq!(vault.calculate_shares(1).unwrap(), 1);
}

#[test]
fn test_calculate_shares_max_values() {
    let vault = vault(u64::MAX / 2, u64::MAX / 2);
    let result = vault.calculate_shares(1_000_000);
    assert!(result.is_ok(), "Should handle large values");
    assert_eq!(result.unwrap(), 1_000_000);
}

#[test]
fn test_calculate_shares_precision_loss() {
    let vault = vault(1000, 333);
    assert_eq!(vault.calculate_shares(100).unwrap(), 33);
}

#[test]
fn test_calculate_assets_from_shares() {
    let vault = vault(2000, 1000);
    assert_eq!(vault.calculate_assets(500).unwrap(), 1000);
    assert_eq!(vault.calculate_assets(1000).unwrap(), 2000);
}

#[test]
fn test_calculate_assets_zero_shares() {
    let vault = vault(0, 0);
    assert_eq!(vault.calculate_assets(500).unwrap(), 0);
}

#[test]
fn test_deposit_first_deposit_1_to_1_logic() {
    let vault = vault(0, 0);
    assert_eq!(vault.calculate_shares(1000).unwrap(), 1000);
    assert_eq!(vault.calculate_shares(1).unwrap(), 1);
    assert_eq!(vault.calculate_shares(999_999_999).unwrap(), 999_999_999);

    let mut vault_after = vault.clone();
    let deposit_amount = 1000u64;
    let shares_to_mint = vault_after.calculate_shares(deposit_amount).unwrap();
    vault_after.total_assets = vault_after.total_assets.checked_add(deposit_amount).unwrap();
    vault_after.total_shares = vault_after.total_shares.checked_add(shares_to_mint).unwrap();

    assert_eq!(vault_after.total_assets, 1000);
    assert_eq!(vault_after.total_shares, 1000);
}

#[test]
fn test_deposit_after_profit_logic() {
    let vault = vault(2000, 1000);
    let shares = vault.calculate_shares(100).unwrap();
    assert_eq!(shares, 50, "Deposit after profit should calculate proportional shares");
}

#[test]
fn test_full_deposit_flow_logic() {
    let mut vault = vault(0, 0);
    let deposit_amount = 1000u64;
    let shares_to_mint = vault.calculate_shares(deposit_amount).unwrap();
    vault.total_assets = vault.total_assets.checked_add(deposit_amount).unwrap();
    vault.total_shares = vault.total_shares.checked_add(shares_to_mint).unwrap();

    assert_eq!(vault.total_assets, 1000, "Total assets should be updated");
    assert_eq!(vault.total_shares, 1000, "Total shares should be updated");
    assert_eq!(shares_to_mint, deposit_amount, "First deposit should mint 1:1");
}

#[test]
fn test_signer_validation_enforced_by_anchor() {
    let vault = VaultState {
        authority: key(1),
        asset_mint: key(2),
        share_mint: key(3),
        total_assets: 0,
        total_shares: 0,
        bump: 255,
        share_bump: 254,
        authority_bump: 253,
        _reserved: [0; 128],
    };
    assert_ne!(vault.authority, Pubkey::default());
    assert_ne!(vault.asset_mint, Pubkey::default());
}

#[test]
fn test_authority_validation_enforced_by_anchor() {
    let authority1 = key(1);
    let authority2 = key(2);
    let vault1 = VaultState { authority: authority1, asset_mint: key(3), share_mint: key(4), ..vault(1000, 1000) };
    let vault2 = VaultState { authority: authority2, asset_mint: key(5), share_mint: key(6), ..vault(2000, 2000) };
    assert_ne!(vault1.authority, vault2.authority);
    assert_eq!(vault1.authority, authority1);
    assert_eq!(vault2.authority, authority2);
}

#[test]
fn test_token_account_validation_enforced_by_anchor() {
    let vault_asset_mint = key(1);
    let vault_share_mint = key(2);
    let user_pubkey = key(3);
    let wrong_mint = key(4);
    let wrong_owner = key(5);

    assert!(vault_asset_mint == vault_asset_mint, "Matching mint should pass");
    assert!(!(vault_asset_mint == wrong_mint), "Wrong mint should fail");
    assert!(user_pubkey == user_pubkey, "Matching owner should pass");
    assert!(!(user_pubkey == wrong_owner), "Wrong owner should fail");
    assert!(vault_share_mint == vault_share_mint, "Share mint should match");
    assert!(!(vault_share_mint == wrong_mint), "Wrong share mint should fail");

    // The same checks, made by the deposit operation itself.
    let account = |mint: Pubkey, owner: Pubkey| TokenAccount { key: key(9), mint, owner, amount: 0 };
    let state = VaultState { asset_mint: vault_asset_mint, share_mint: vault_share_mint, ..vault(0, 0) };
    let good = Deposit {
        user: user_pubkey,
        vault_key: key(7),
        vault_state: state,
        vault_authority: key(8),
        user_asset_account: account(vault_asset_mint, user_pubkey),
        user_share_account: account(vault_share_mint, user_pubkey),
        vault_token_account: account(vault_asset_mint, key(8)),
    };
    assert_eq!(good.validate(), Ok(()));
    let wrong_asset = Deposit { user_asset_account: account(wrong_mint, user_pubkey), ..good.clone() };
    assert_eq!(wrong_asset.validate(), Err(VaultError::InvalidMint));
    let wrong_holder = Deposit { user_asset_account: account(vault_asset_mint, wrong_owner), ..good.clone() };
    assert_eq!(wrong_holder.validate(), Err(VaultError::InvalidOwner));
    let wrong_share = Deposit { user_share_account: account(wrong_mint, user_pubkey), ..good.clone() };
    assert_eq!(wrong_share.validate(), Err(VaultError::InvalidMint));
}

#[test]
fn test_zero_amount_validation() {
    let deposit_amount = 0u64;
    let valid_amount = 100u64;
    assert!(deposit_amount == 0, "Zero amount should be detected");
    assert!(valid_amount > 0, "Valid amount should pass");

    let vault = vault(0, 0);
    assert!(vault.calculate_shares(100).is_ok());
    assert!(vault.calculate_shares(1).is_ok());
    assert_eq!(vault.calculate_shares(0).unwrap(), 0);
}

#[test]
fn test_reentrancy_protection_pattern() {
    let mut vault = vault(1000, 500);
    let initial_assets = vault.total_assets;
    let initial_shares = vault.total_shares;

    let deposit_amount = 400u64;
    assert!(deposit_amount > 0);
    let shares_to_mint = vault.calculate_shares(deposit_amount).unwrap();
    assert_eq!(shares_to_mint, 200);

    vault.total_assets = vault.total_assets.checked_add(deposit_amount).unwrap();
    vault.total_shares = vault.total_shares.checked_add(shares_to_mint).unwrap();

    assert_eq!(vault.total_assets, initial_assets + deposit_amount);
    assert_eq!(vault.total_shares, initial_shares + shares_to_mint);
    assert_eq!(vault.total_assets, 1400);
    assert_eq!(vault.total_shares, 700);

    let reentrant_shares = vault.calculate_shares(deposit_amount).unwrap();
    assert_eq!(reentrant_shares, 200);
}

#[test]
fn test_share_calculation_first_deposit() {
    let deposit = 1000_000_000_000u64;
    let shares = vault(0, 0).calculate_shares(deposit).unwrap();
    assert_eq!(shares, deposit, "First deposit should mint 1:1 shares");
}

#[test]
fn test_share_calculation_after_profit() {
    let deposit = 100_000_000_000u64;
    let shares = vault(1500_000_000_000, 1000_000_000_000).calculate_shares(deposit).unwrap();
    assert_eq!(shares, 66_666_666_666, "Should receive proportional shares");
}

#[test]
fn test_share_calculation_prevents_overflow() {
    let result = vault(1000_000_000, 1000_000_000).calculate_shares(u64::MAX).unwrap();
    assert!(result > 0, "Should handle large numbers without overflow");
    assert_eq!(result, u64::MAX);
}

#[test]
fn test_math_safety_checks() {
    let deposit = 100u64;
    let total_assets = 0u64;
    let total_shares = 1000u64;
    // With no assets booked the one-for-one rule applies: no division happens.
    assert_eq!(vault(total_assets, total_shares).calculate_shares(deposit), Ok(100));
    assert!(total_assets == 0, "Should not divide by zero");
}

#[test]
fn empty_vault_mints_one_for_one_for_any_amount() {
    for x in [0u64, 1, 7, 1_000_000, u64::MAX] {
        assert_eq!(vault(0, 0).calculate_shares(x), Ok(x));
    }
}

#[test]
fn shares_are_floored_proportion() {
    // floor(7 * 3 / 5) = 4
    assert_eq!(vault(5, 3).calculate_shares(7), Ok(4));
    // exact rational 33.3 floors to 33, never 34
    assert_eq!(vault(1000, 333).calculate_shares(100), Ok(33));
}

#[test]
fn round_trip_never_returns_more_than_deposited() {
    for (a, s, d) in [(1000u64, 333u64, 100u64), (3, 7, 5), (2000, 1000, 999), (0, 5, 10), (5, 0, 10)] {
        let v = vault(a, s);
        let shares = v.calculate_shares(d).unwrap();
        let back = v.calculate_assets(shares).unwrap();
        assert!(back <= d);
    }
    // 100 deposited at (1000, 333) earns 33 shares, worth 99 assets.
    assert_eq!(vault(1000, 333).calculate_assets(33), Ok(99));
}

#[test]
fn shares_overflow_is_reported() {
    assert_eq!(vault(1, u64::MAX).calculate_shares(2), Err(VaultError::MathOverflow));
}

#[test]
fn assets_overflow_is_reported() {
    assert_eq!(vault(u64::MAX, 1).calculate_assets(2), Err(VaultError::MathOverflow));
}

#[test]
fn record_deposit_adds_amount_and_shares() {
    let mut v = vault(0, 0);
    assert_eq!(v.record_deposit(1000), Ok(1000));
    assert_eq!((v.total_assets, v.total_shares), (1000, 1000));

    let mut v = vault(2000, 1000);
    assert_eq!(v.record_deposit(500), Ok(250));
    assert_eq!((v.total_assets, v.total_shares), (2500, 1250));

    let mut v = vault(1000, 333);
    assert_eq!(v.record_deposit(100), Ok(33));
    assert_eq!((v.total_assets, v.total_shares), (1100, 366));
}

#[test]
fn record_deposit_refuses_zero() {
    let mut v = vault(2000, 1000);
    assert_eq!(v.record_deposit(0), Err(VaultError::ZeroDepositAmount));
    assert_eq!((v.total_assets, v.total_shares), (2000, 1000));
}

#[test]
fn record_deposit_overflow_changes_nothing() {
    let mut v = vault(u64::MAX - 10, u64::MAX - 10);
    assert_eq!(v.record_deposit(11), Err(VaultError::MathOverflow));
    assert_eq!((v.total_assets, v.total_shares), (u64::MAX - 10, u64::MAX - 10));
}

#[test]
fn error_messages_are_distinct() {
    assert_eq!(VaultError::NameTooLong.message(), "Protocol name too long - maximum 32 characters");
    assert_ne!(VaultError::InvalidTargetProgram.message(), VaultError::DivisionByZero.message());
}

#[test]
fn deposit_never_lowers_assets_per_share() {
    for (a, s, d) in [(1000u64, 333u64, 100u64), (2000, 1000, 500), (3, 7, 5), (1500, 1000, 1)] {
        let mut v = vault(a, s);
        v.record_deposit(d).unwrap();
        // (A + d) / (S + s) >= A / S, compared without division
        assert!((v.total_assets as u128) * (s as u128) >= (a as u128) * (v.total_shares as u128));
    }
    let mut v = vault(1000, 333);
    v.record_deposit(100).unwrap();
    assert_eq!((v.total_assets, v.total_shares), (1100, 366));
}
