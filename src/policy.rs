use vstd::prelude::*;
use crate::error::ZenithError;

verus! {

/// The privacy tiers a vault may hold: 1 (basic), 2 (advanced), 3 (maximum).
pub open spec fn valid_tier(tier: u8) -> bool {
    1 <= tier <= 3
}

/// Seconds that must pass after a vault's last activity before a withdrawal,
/// for a valid tier.
pub open spec fn delay_of(tier: u8) -> int {
    if tier == 1 {
        0
    } else if tier == 2 {
        300
    } else {
        900
    }
}

/// Whether the tier allows a deposit's activity time to be shifted.
pub open spec fn stealth_tier(tier: u8) -> bool {
    tier >= 2
}

/// The minimum withdrawal delay of a tier, in seconds.
pub fn min_withdrawal_delay(tier: u8) -> (r: Result<i64, ZenithError>)
    ensures
        valid_tier(tier) ==> r == Ok::<i64, ZenithError>(delay_of(tier) as i64),
        !valid_tier(tier) ==> r == Err::<i64, ZenithError>(ZenithError::InvalidPrivacyLevel),
{
    match tier {
        1 => Ok(0),
        2 => Ok(300),
        3 => Ok(900),
        _ => Err(ZenithError::InvalidPrivacyLevel),
    }
}

/// Whether stealth obfuscation is permitted at a tier.
pub fn stealth_permitted(tier: u8) -> (r: Result<bool, ZenithError>)
    ensures
        valid_tier(tier) ==> r == Ok::<bool, ZenithError>(stealth_tier(tier)),
        !valid_tier(tier) ==> r == Err::<bool, ZenithError>(ZenithError::InvalidPrivacyLevel),
{
    if tier < 1 || tier > 3 {
        Err(ZenithError::InvalidPrivacyLevel)
    } else {
        Ok(tier >= 2)
    }
}

/// A higher tier never asks for a shorter withdrawal delay.
pub proof fn lemma_delay_monotone(lower: u8, higher: u8)
    requires
        valid_tier(lower),
        valid_tier(higher),
        lower <= higher,
    ensures
        0 <= delay_of(lower) <= delay_of(higher) <= 900,
{
}

} // verus!
