use vstd::prelude::*;

verus! {

/// Recorded after a successful deposit.
#[derive(Debug, Clone, Copy)]
pub struct DepositEvent {
    pub vault: [u8; 32],
    pub authority: [u8; 32],
    pub amount: u64,
    pub use_stealth: bool,
    pub timestamp: i64,
}

/// Recorded after a successful withdrawal.
#[derive(Debug, Clone, Copy)]
pub struct WithdrawEvent {
    pub vault: [u8; 32],
    pub authority: [u8; 32],
    pub amount: u64,
    pub use_shadow_address: bool,
    pub timestamp: i64,
}

/// Recorded when a shadow address is derived.
#[derive(Debug, Clone)]
pub struct ShadowAddressGenerated {
    pub vault: [u8; 32],
    pub authority: [u8; 32],
    pub shadow_address: [u8; 32],
    pub purpose: String,
    pub timestamp: i64,
}

/// Recorded after a vault's privacy settings change.
#[derive(Debug, Clone, Copy)]
pub struct PrivacySettingsUpdated {
    pub vault: [u8; 32],
    pub new_privacy_level: u8,
    pub enable_stealth_mode: bool,
    pub max_daily_transactions: u32,
    pub timestamp: i64,
}

/// Recorded when a vault is closed.
#[derive(Debug, Clone, Copy)]
pub struct VaultClosed {
    pub vault: [u8; 32],
    pub authority: [u8; 32],
    pub timestamp: i64,
}

} // verus!
