use vstd::prelude::*;

verus! {

/// Why a vault operation was refused. Every refusal leaves the vault as it was.
#[derive(Debug, Clone, Copy, PartialEq, Eq, Structural)]
pub enum ZenithError {
    NameTooLong,
    InvalidPrivacyLevel,
    InsufficientFunds,
    WithdrawalTooSoon,
    PurposeTooLong,
    TransactionLimitTooHigh,
    VaultNotEmpty,
    VaultTooNew,
    /// The vault has been closed and admits no further changes.
    VaultInactive,
    /// The token transfer failed; carries the runtime's error code.
    TransferFailed(u64),
}

impl ZenithError {
    /// A human-readable description of the error.
    pub fn message(&self) -> (r: &'static str) {
        match self {
            ZenithError::NameTooLong => "Vault name is too long",
            ZenithError::InvalidPrivacyLevel => "Invalid privacy level",
            ZenithError::InsufficientFunds => "Insufficient funds in vault",
            ZenithError::WithdrawalTooSoon => "Withdrawal too soon - privacy delay active",
            ZenithError::PurposeTooLong => "Purpose is too long",
            ZenithError::TransactionLimitTooHigh => "Transaction limit is too high",
            ZenithError::VaultNotEmpty => "Vault is not empty",
            ZenithError::VaultTooNew => "Vault is too new to close",
            ZenithError::VaultInactive => "Vault is closed",
            ZenithError::TransferFailed(_) => "Token transfer failed",
        }
    }
}

} // verus!
