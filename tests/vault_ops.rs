use zenith_vault::{
    close_vault, create_vault, deposit, derive_shadow_address, generate_shadow_address,
    min_withdrawal_delay, stealth_permitted, update_privacy_settings, withdraw, Vault, ZenithError,
};

const OWNER: [u8; 32] = [7u8; 32];
const KEY: [u8; 32] = [9u8; 32];

fn new_vault(tier: u8, now: i64) -> Vault {
    create_vault(OWNER, "savings".to_string(), tier, 254, now).unwrap()
}

#[test]
fn create_vault_starts_empty_and_active() {
    let v = new_vault(2, 1_700_000_000);
    assert_eq!(v.balance, 0);
    assert!(v.is_active);
    assert_eq!(v.created_at, 1_700_000_000);
    assert_eq!(v.last_activity, v.created_at);
    assert_eq!(v.transaction_count, 0);
    assert_eq!(v.privacy_level, 2);
    assert_eq!(v.bump, 254);
    assert_eq!(v.authority, OWNER);
    assert_eq!(v.name, "savings");
    assert!(!v.stealth_mode_enabled);
}

#[test]
fn create_vault_rejects_long_name() {
    let name = "n".repeat(51);
    let r = create_vault(OWNER, name, 1, 0, 0);
    assert_eq!(r.unwrap_err(), ZenithError::NameTooLong);
    let ok = create_vault(OWNER, "n".repeat(50), 1, 0, 0);
    assert!(ok.is_ok());
}

#[test]
fn create_vault_name_length_counts_bytes() {
    // 26 two-byte characters: 52 bytes.
    let name = "é".repeat(26);
    assert_eq!(create_vault(OWNER, name, 1, 0, 0).unwrap_err(), ZenithError::NameTooLong);
}

#[test]
fn create_vault_rejects_invalid_tier() {
    assert_eq!(create_vault(OWNER, "a".to_string(), 0, 0, 0).unwrap_err(), ZenithError::InvalidPrivacyLevel);
    assert_eq!(create_vault(OWNER, "a".to_string(), 4, 0, 0).unwrap_err(), ZenithError::InvalidPrivacyLevel);
}

#[test]
fn balance_tracks_deposits_minus_withdrawals() {
    let mut v = new_vault(1, 100);
    deposit(&mut v, KEY, 1000, false, 100, Ok(())).unwrap();
    deposit(&mut v, KEY, 250, false, 110, Ok(())).unwrap();
    withdraw(&mut v, KEY, 400, false, 120, Ok(())).unwrap();
    deposit(&mut v, KEY, 5, false, 130, Ok(())).unwrap();
    withdraw(&mut v, KEY, 855, true, 140, Ok(())).unwrap();
    assert_eq!(v.balance, 1000 + 250 + 5 - 400 - 855);
    assert_eq!(v.transaction_count, 5);
    assert_eq!(v.last_activity, 140);
}

#[test]
fn over_withdraw_fails_and_keeps_balance() {
    let mut v = new_vault(1, 0);
    deposit(&mut v, KEY, 300, false, 0, Ok(())).unwrap();
    let r = withdraw(&mut v, KEY, 301, false, 10, Ok(()));
    assert_eq!(r.unwrap_err(), ZenithError::InsufficientFunds);
    assert_eq!(v.balance, 300);
    assert_eq!(v.transaction_count, 1);
    assert_eq!(v.last_activity, 0);
}

#[test]
fn failed_deposit_transfer_leaves_vault_unchanged() {
    let mut v = new_vault(3, 50);
    let r = deposit(&mut v, KEY, 1000, false, 60, Err(17));
    assert_eq!(r.unwrap_err(), ZenithError::TransferFailed(17));
    assert_eq!(v.balance, 0);
    assert_eq!(v.last_activity, 50);
    assert_eq!(v.transaction_count, 0);
}

#[test]
fn failed_withdraw_transfer_leaves_vault_unchanged() {
    let mut v = new_vault(1, 0);
    deposit(&mut v, KEY, 1000, false, 0, Ok(())).unwrap();
    let r = withdraw(&mut v, KEY, 10, false, 5, Err(3));
    assert_eq!(r.unwrap_err(), ZenithError::TransferFailed(3));
    assert_eq!(v.balance, 1000);
    assert_eq!(v.last_activity, 0);
    assert_eq!(v.transaction_count, 1);
}

#[test]
fn withdrawal_delay_grows_with_tier() {
    assert_eq!(min_withdrawal_delay(1), Ok(0));
    assert_eq!(min_withdrawal_delay(2), Ok(300));
    assert_eq!(min_withdrawal_delay(3), Ok(900));
    assert_eq!(min_withdrawal_delay(0), Err(ZenithError::InvalidPrivacyLevel));
    assert_eq!(min_withdrawal_delay(4), Err(ZenithError::InvalidPrivacyLevel));
    assert_eq!(stealth_permitted(1), Ok(false));
    assert_eq!(stealth_permitted(2), Ok(true));
    assert_eq!(stealth_permitted(3), Ok(true));
    assert_eq!(stealth_permitted(7), Err(ZenithError::InvalidPrivacyLevel));
}

#[test]
fn tier_three_time_lock_boundary() {
    let mut v = new_vault(3, 0);
    deposit(&mut v, KEY, 1000, false, 0, Ok(())).unwrap();
    assert_eq!(v.check_withdrawal_delay(899), Err(ZenithError::WithdrawalTooSoon));
    let r = withdraw(&mut v, KEY, 500, false, 899, Ok(()));
    assert_eq!(r.unwrap_err(), ZenithError::WithdrawalTooSoon);
    assert_eq!(v.balance, 1000);
    assert_eq!(v.check_withdrawal_delay(900), Ok(()));
    let ev = withdraw(&mut v, KEY, 500, false, 900, Ok(())).unwrap();
    assert_eq!(v.balance, 500);
    assert_eq!(ev.amount, 500);
    assert_eq!(ev.timestamp, 900);
    assert_eq!(ev.vault, KEY);
    assert_eq!(ev.authority, OWNER);
}

#[test]
fn tier_two_time_lock_boundary() {
    let mut v = new_vault(2, 0);
    deposit(&mut v, KEY, 10, false, 0, Ok(())).unwrap();
    assert_eq!(v.check_withdrawal(5, 299), Err(ZenithError::WithdrawalTooSoon));
    assert_eq!(v.check_withdrawal(5, 300), Ok(()));
    assert_eq!(v.check_withdrawal(11, 300), Err(ZenithError::InsufficientFunds));
}

#[test]
fn tier_one_has_no_time_lock() {
    let mut v = new_vault(1, 0);
    deposit(&mut v, KEY, 10, false, 0, Ok(())).unwrap();
    assert!(withdraw(&mut v, KEY, 10, false, 0, Ok(())).is_ok());
    assert_eq!(v.balance, 0);
}

#[test]
fn stealth_deposit_shifts_activity_time() {
    let mut v = new_vault(3, 0);
    update_privacy_settings(&mut v, KEY, 3, true, 10, 0).unwrap();
    let ev = deposit(&mut v, KEY, 1000, true, 0, Ok(())).unwrap();
    assert_eq!(v.balance, 1000);
    assert_eq!(v.last_activity, 70);
    assert!(ev.use_stealth);
    assert_eq!(ev.timestamp, 0);
    assert_eq!(withdraw(&mut v, KEY, 500, false, 969, Ok(())).unwrap_err(), ZenithError::WithdrawalTooSoon);
    withdraw(&mut v, KEY, 500, false, 970, Ok(())).unwrap();
    assert_eq!(v.balance, 500);
}

#[test]
fn plain_deposit_then_tier_three_withdrawals() {
    let mut v = new_vault(3, 0);
    deposit(&mut v, KEY, 1000, false, 0, Ok(())).unwrap();
    assert_eq!(v.balance, 1000);
    assert_eq!(v.last_activity, 0);
    assert_eq!(withdraw(&mut v, KEY, 500, false, 899, Ok(())).unwrap_err(), ZenithError::WithdrawalTooSoon);
    withdraw(&mut v, KEY, 500, false, 900, Ok(())).unwrap();
    assert_eq!(v.balance, 500);
}

#[test]
fn stealth_needs_flag_and_tier() {
    // Stealth mode not enabled on the vault.
    let mut v = new_vault(3, 0);
    deposit(&mut v, KEY, 1000, true, 0, Ok(())).unwrap();
    assert_eq!(v.last_activity, 0);
    // Tier 1 never shifts.
    let mut w = new_vault(1, 0);
    update_privacy_settings(&mut w, KEY, 1, true, 10, 0).unwrap();
    deposit(&mut w, KEY, 1000, true, 0, Ok(())).unwrap();
    assert_eq!(w.last_activity, 0);
    // Deposit not flagged.
    let mut x = new_vault(2, 0);
    update_privacy_settings(&mut x, KEY, 2, true, 10, 0).unwrap();
    deposit(&mut x, KEY, 59, false, 5, Ok(())).unwrap();
    assert_eq!(x.last_activity, 5);
    deposit(&mut x, KEY, 59, true, 5, Ok(())).unwrap();
    assert_eq!(x.last_activity, 5 + 59 + 30);
}

#[test]
fn apply_stealth_deposit_offset() {
    let mut v = new_vault(2, 100);
    v.apply_stealth_deposit(120);
    assert_eq!(v.last_activity, 130);
    v.apply_stealth_deposit(61);
    assert_eq!(v.last_activity, 161);
}

#[test]
fn close_vault_age_boundary() {
    let mut v = new_vault(1, 1000);
    assert_eq!(close_vault(&mut v, KEY, 1000 + 86399).unwrap_err(), ZenithError::VaultTooNew);
    assert_eq!(close_vault(&mut v, KEY, 1000 + 86400).unwrap_err(), ZenithError::VaultTooNew);
    assert!(v.is_active);
    let ev = close_vault(&mut v, KEY, 1000 + 86401).unwrap();
    assert!(!v.is_active);
    assert_eq!(ev.timestamp, 1000 + 86401);
    assert_eq!(ev.authority, OWNER);
}

#[test]
fn close_vault_rejects_nonzero_balance() {
    let mut v = new_vault(1, 0);
    deposit(&mut v, KEY, 1, false, 0, Ok(())).unwrap();
    assert_eq!(close_vault(&mut v, KEY, 10).unwrap_err(), ZenithError::VaultNotEmpty);
    assert_eq!(close_vault(&mut v, KEY, 10_000_000).unwrap_err(), ZenithError::VaultNotEmpty);
    assert!(v.is_active);
}

#[test]
fn settings_limit_too_high_changes_nothing() {
    let mut v = new_vault(2, 0);
    update_privacy_settings(&mut v, KEY, 2, false, 1000, 0).unwrap();
    let r = update_privacy_settings(&mut v, KEY, 3, true, 1001, 5);
    assert_eq!(r.unwrap_err(), ZenithError::TransactionLimitTooHigh);
    assert_eq!(v.privacy_level, 2);
    assert!(!v.stealth_mode_enabled);
    assert_eq!(v.max_daily_transactions, 1000);
    assert_eq!(v.balance, 0);
}

#[test]
fn settings_update_applies() {
    let mut v = new_vault(1, 0);
    let ev = update_privacy_settings(&mut v, KEY, 3, true, 20, 77).unwrap();
    assert_eq!(v.privacy_level, 3);
    assert!(v.stealth_mode_enabled);
    assert_eq!(v.max_daily_transactions, 20);
    assert_eq!(ev.new_privacy_level, 3);
    assert_eq!(ev.timestamp, 77);
    assert_eq!(update_privacy_settings(&mut v, KEY, 0, true, 20, 77).unwrap_err(), ZenithError::InvalidPrivacyLevel);
    assert_eq!(v.privacy_level, 3);
}

#[test]
fn shadow_address_is_keccak_of_parts() {
    let ts: i64 = -12345;
    let got = derive_shadow_address(&OWNER, "savings", "payroll", ts);
    let expected = solana_program::keccak::hashv(&[
        &OWNER[..],
        "savings".as_bytes(),
        "payroll".as_bytes(),
        &ts.to_le_bytes(),
    ])
    .to_bytes();
    assert_eq!(got, expected);
    let concat: Vec<u8> = [&OWNER[..], b"savingspayroll", &ts.to_le_bytes()].concat();
    assert_eq!(got, solana_program::keccak::hash(&concat).to_bytes());
}

#[test]
fn shadow_address_is_deterministic_and_input_sensitive() {
    let a = derive_shadow_address(&OWNER, "savings", "payroll", 10);
    assert_eq!(a, derive_shadow_address(&OWNER, "savings", "payroll", 10));
    assert_ne!(a, derive_shadow_address(&KEY, "savings", "payroll", 10));
    assert_ne!(a, derive_shadow_address(&OWNER, "saving", "payroll", 10));
    assert_ne!(a, derive_shadow_address(&OWNER, "savings", "payrol", 10));
    assert_ne!(a, derive_shadow_address(&OWNER, "savings", "payroll", 11));
}

#[test]
fn generate_shadow_address_event() {
    let v = new_vault(2, 0);
    let ev = generate_shadow_address(&v, KEY, "rent".to_string(), 42).unwrap();
    assert_eq!(ev.shadow_address, derive_shadow_address(&OWNER, "savings", "rent", 42));
    assert_eq!(ev.purpose, "rent");
    assert_eq!(ev.timestamp, 42);
    assert_eq!(ev.vault, KEY);
    assert_eq!(ev.authority, OWNER);
    assert!(generate_shadow_address(&v, KEY, "p".repeat(100), 42).is_ok());
}

#[test]
fn generate_shadow_address_rejects_long_purpose() {
    let v = new_vault(2, 0);
    let r = generate_shadow_address(&v, KEY, "p".repeat(101), 42);
    assert_eq!(r.unwrap_err(), ZenithError::PurposeTooLong);
}

#[test]
fn vault_space_and_signer_seeds() {
    assert_eq!(Vault::space(), 130);
    let v = new_vault(1, 0);
    let seeds = v.signer_seeds();
    assert_eq!(seeds.len(), 4);
    assert_eq!(seeds[0], b"vault".to_vec());
    assert_eq!(seeds[1], OWNER.to_vec());
    assert_eq!(seeds[2], b"savings".to_vec());
    assert_eq!(seeds[3], vec![254u8]);
}

#[test]
fn error_messages() {
    assert_eq!(ZenithError::VaultTooNew.message(), "Vault is too new to close");
    assert_eq!(ZenithError::TransferFailed(1).message(), "Token transfer failed");
}

fn closed_vault() -> Vault {
    let mut v = new_vault(2, 0);
    close_vault(&mut v, KEY, 86401).unwrap();
    v
}

#[test]
fn closed_vault_refuses_deposit() {
    let mut v = closed_vault();
    let r = deposit(&mut v, KEY, 10, false, 90000, Ok(()));
    assert_eq!(r.unwrap_err(), ZenithError::VaultInactive);
    assert_eq!(v.balance, 0);
    assert_eq!(v.transaction_count, 0);
    assert_eq!(v.last_activity, 0);
}

#[test]
fn closed_vault_refuses_withdraw() {
    let mut v = closed_vault();
    assert_eq!(v.check_withdrawal(0, 90000), Err(ZenithError::VaultInactive));
    let r = withdraw(&mut v, KEY, 0, false, 90000, Ok(()));
    assert_eq!(r.unwrap_err(), ZenithError::VaultInactive);
    assert_eq!(v.transaction_count, 0);
}

#[test]
fn closed_vault_refuses_settings_and_second_close() {
    let mut v = closed_vault();
    let r = update_privacy_settings(&mut v, KEY, 3, true, 5, 90000);
    assert_eq!(r.unwrap_err(), ZenithError::VaultInactive);
    assert_eq!(v.privacy_level, 2);
    assert!(!v.stealth_mode_enabled);
    assert_eq!(close_vault(&mut v, KEY, 90000).unwrap_err(), ZenithError::VaultInactive);
    assert!(!v.is_active);
}
