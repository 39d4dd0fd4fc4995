//! A tiered-privacy custodial vault: balance accounting, tier-scaled
//! withdrawal time-locks, stealth deposits and shadow-address derivation.
//!
//! Value movement, the clock, signature checks and event delivery belong to
//! the host runtime; the operations here take their outcomes as plain values.

mod error;
mod events;
mod policy;
mod shadow;
mod vault;

pub use error::ZenithError;
pub use events::{
    DepositEvent, PrivacySettingsUpdated, ShadowAddressGenerated, VaultClosed, WithdrawEvent,
};
pub use policy::{min_withdrawal_delay, stealth_permitted};
pub use shadow::{derive_shadow_address, generate_shadow_address};
pub use vault::{
    close_vault, create_vault, deposit, update_privacy_settings, withdraw, BalanceOp, Vault,
};
