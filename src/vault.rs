use vstd::prelude::*;
use vstd::utf8::encode_utf8;
use crate::error::ZenithError;
use crate::events::{DepositEvent, PrivacySettingsUpdated, VaultClosed, WithdrawEvent};
use crate::policy::{delay_of, min_withdrawal_delay, stealth_permitted, stealth_tier, valid_tier};

verus! {

/// The longest vault name, in UTF-8 bytes.
pub const MAX_NAME_LEN: usize = 50;

/// The highest daily transaction limit a vault may be configured with.
pub const MAX_DAILY_TRANSACTIONS_LIMIT: u32 = 1000;

/// Seconds a vault must exist before it may be closed.
pub const MIN_VAULT_AGE: i64 = 86400;

/// Length of a character sequence once encoded as UTF-8.
pub open spec fn utf8_len(s: Seq<char>) -> nat {
    encode_utf8(s).len()
}

/// The length of a string in UTF-8 bytes.
pub(crate) fn utf8_byte_len(s: &str) -> (r: usize)
    ensures
        r == utf8_len(s@),
{
    broadcast use vstd::slice::group_slice_axioms;

    s.as_bytes().len()
}

/// A custodial balance held for one owner under one name.
#[derive(Debug, Clone)]
pub struct Vault {
    /// The owner's key; the only party that may withdraw, reconfigure or close.
    pub authority: [u8; 32],
    pub name: String,
    pub privacy_level: u8,
    pub balance: u64,
    pub created_at: i64,
    pub last_activity: i64,
    /// Lifetime count of successful deposits and withdrawals.
    pub transaction_count: u32,
    pub is_active: bool,
    pub stealth_mode_enabled: bool,
    /// Stored and validated, not enforced by the operations here.
    pub max_daily_transactions: u32,
    /// Makes the vault's own signing authority reproducible.
    pub bump: u8,
}

/// Whether a deposit with this flag has its activity time shifted.
pub open spec fn stealth_applies(v: Vault, use_stealth: bool) -> bool {
    use_stealth && v.stealth_mode_enabled && stealth_tier(v.privacy_level)
}

/// The deterministic shift a stealth deposit adds to the activity time.
pub open spec fn stealth_offset(amount: u64) -> int {
    (amount % 60) + 30
}

/// Whether a successful deposit stays within the machine's integer ranges.
pub open spec fn deposit_fits(v: Vault, amount: u64, use_stealth: bool, now: i64) -> bool {
    &&& v.balance + amount <= u64::MAX
    &&& v.transaction_count < u32::MAX
    &&& stealth_applies(v, use_stealth) ==> now + stealth_offset(amount) <= i64::MAX
}

/// The vault after a successful deposit.
pub open spec fn deposited(v: Vault, amount: u64, use_stealth: bool, now: i64) -> Vault {
    Vault {
        balance: (v.balance + amount) as u64,
        last_activity: if stealth_applies(v, use_stealth) {
            (now + stealth_offset(amount)) as i64
        } else {
            now
        },
        transaction_count: (v.transaction_count + 1) as u32,
        ..v
    }
}

/// Why a withdrawal would be refused before any transfer, if it would.
pub open spec fn withdraw_refusal(v: Vault, amount: u64, now: i64) -> Option<ZenithError> {
    if !v.is_active {
        Some(ZenithError::VaultInactive)
    } else if amount > v.balance {
        Some(ZenithError::InsufficientFunds)
    } else if v.privacy_level >= 2 && now < v.last_activity + delay_of(v.privacy_level) {
        Some(ZenithError::WithdrawalTooSoon)
    } else {
        None
    }
}

/// The vault after a successful withdrawal.
pub open spec fn withdrawn(v: Vault, amount: u64, now: i64) -> Vault {
    Vault {
        balance: (v.balance - amount) as u64,
        last_activity: now,
        transaction_count: (v.transaction_count + 1) as u32,
        ..v
    }
}

/// A successful balance-changing operation, with the inputs it was given.
pub enum BalanceOp {
    Deposit { amount: u64, use_stealth: bool, now: i64 },
    Withdraw { amount: u64, now: i64 },
}

/// `w` is what `deposit` or `withdraw` leaves of `v` when `op` succeeds.
pub open spec fn succeeds_as(v: Vault, op: BalanceOp, w: Vault) -> bool {
    match op {
        BalanceOp::Deposit { amount, use_stealth, now } => {
            &&& v.is_active
            &&& amount > 0
            &&& deposit_fits(v, amount, use_stealth, now)
            &&& w == deposited(v, amount, use_stealth, now)
        },
        BalanceOp::Withdraw { amount, now } => {
            &&& withdraw_refusal(v, amount, now) is None
            &&& w == withdrawn(v, amount, now)
        },
    }
}

/// Sum of the amounts deposited minus sum of the amounts withdrawn.
pub open spec fn net_flow(ops: Seq<BalanceOp>) -> int
    decreases ops.len(),
{
    if ops.len() == 0 {
        0
    } else {
        net_flow(ops.drop_last()) + match ops.last() {
            BalanceOp::Deposit { amount, .. } => amount as int,
            BalanceOp::Withdraw { amount, .. } => -(amount as int),
        }
    }
}

proof fn lemma_balance_prefix(states: Seq<Vault>, ops: Seq<BalanceOp>, k: int)
    requires
        states.len() == ops.len() + 1,
        states[0].balance == 0,
        forall|i: int|
            0 <= i < ops.len() ==> #[trigger] succeeds_as(states[i], ops[i], states[i + 1]),
        0 <= k < states.len(),
    ensures
        states[k].balance == net_flow(ops.take(k)),
    decreases k,
{
    if k > 0 {
        lemma_balance_prefix(states, ops, k - 1);
        assert(ops.take(k).drop_last() =~= ops.take(k - 1));
        let j = k - 1;
        assert(succeeds_as(states[j], ops[j], states[j + 1]));
    }
}

/// Along any run of successful deposits and withdrawals from an empty vault,
/// the balance after each step is the sum deposited minus the sum withdrawn
/// so far, which is therefore never negative.
pub proof fn lemma_balance_is_net_flow(states: Seq<Vault>, ops: Seq<BalanceOp>)
    requires
        states.len() == ops.len() + 1,
        states[0].balance == 0,
        forall|i: int|
            0 <= i < ops.len() ==> #[trigger] succeeds_as(states[i], ops[i], states[i + 1]),
    ensures
        forall|k: int|
            0 <= k < states.len() ==> #[trigger] states[k].balance == net_flow(ops.take(k))
                && net_flow(ops.take(k)) >= 0,
        states.last().balance == net_flow(ops),
{
    assert forall|k: int| 0 <= k < states.len() implies #[trigger] states[k].balance == net_flow(
        ops.take(k),
    ) && net_flow(ops.take(k)) >= 0 by {
        lemma_balance_prefix(states, ops, k);
    }
    lemma_balance_prefix(states, ops, ops.len() as int);
    assert(ops.take(ops.len() as int) =~= ops);
}

/// At the highest tier, a withdrawal the vault can cover is refused 899
/// seconds after its last activity and allowed at 900 seconds.
pub proof fn lemma_top_tier_delay_boundary(v: Vault, amount: u64)
    requires
        v.is_active,
        v.privacy_level == 3,
        amount <= v.balance,
        v.last_activity + 900 <= i64::MAX,
    ensures
        withdraw_refusal(v, amount, (v.last_activity + 899) as i64) == Some(
            ZenithError::WithdrawalTooSoon,
        ),
        withdraw_refusal(v, amount, (v.last_activity + 900) as i64) is None,
{
}

impl Vault {
    /// The vault's well-formedness: a bounded name, a valid tier and an
    /// admissible daily limit.
    pub open spec fn wf(&self) -> bool {
        &&& utf8_len(self.name@) <= MAX_NAME_LEN
        &&& valid_tier(self.privacy_level)
        &&& self.max_daily_transactions <= MAX_DAILY_TRANSACTIONS_LIMIT
    }

    /// The seeds of the vault's own signing authority: the literal "vault",
    /// the owner key, the UTF-8 name and the bump. A withdrawal's transfer is
    /// authorized with them.
    pub fn signer_seeds(&self) -> (r: Vec<Vec<u8>>)
        ensures
            r@.len() == 4,
            r@[0]@ == seq![118u8, 97u8, 117u8, 108u8, 116u8],
            r@[1]@ == self.authority@,
            r@[2]@ == encode_utf8(self.name@),
            r@[3]@ == seq![self.bump],
    {
        let mut seeds: Vec<Vec<u8>> = Vec::new();
        seeds.push(vec![118u8, 97u8, 117u8, 108u8, 116u8]);
        seeds.push(vstd::slice::slice_to_vec(self.authority.as_slice()));
        seeds.push(vstd::slice::slice_to_vec(self.name.as_str().as_bytes()));
        seeds.push(vec![self.bump]);
        seeds
    }

    /// Bytes a serialized vault occupies, discriminator included.
    pub fn space() -> (r: usize)
        ensures
            r == 8 + 32 + 4 + MAX_NAME_LEN + 1 + 8 + 8 + 8 + 4 + 1 + 1 + 4 + 1,
    {
        8 + 32 + 4 + MAX_NAME_LEN + 1 + 8 + 8 + 8 + 4 + 1 + 1 + 4 + 1
    }

    /// Shifts the activity time by the stealth offset of `amount`.
    pub fn apply_stealth_deposit(&mut self, amount: u64)
        requires
            old(self).last_activity + stealth_offset(amount) <= i64::MAX,
        ensures
            *final(self) == (Vault {
                last_activity: (old(self).last_activity + stealth_offset(amount)) as i64,
                ..*old(self)
            }),
    {
        self.last_activity = self.last_activity + ((amount % 60) + 30) as i64;
    }

    /// Checks the tier's time-lock: `current_time` must be at least the last
    /// activity plus the tier's delay (boundary included).
    pub fn check_withdrawal_delay(&self, current_time: i64) -> (r: Result<(), ZenithError>)
        ensures
            !valid_tier(self.privacy_level) ==> r == Err::<(), ZenithError>(
                ZenithError::InvalidPrivacyLevel,
            ),
            valid_tier(self.privacy_level) ==> r == if current_time >= self.last_activity + delay_of(
                self.privacy_level,
            ) {
                Ok::<(), ZenithError>(())
            } else {
                Err::<(), ZenithError>(ZenithError::WithdrawalTooSoon)
            },
    {
        let min_delay = match min_withdrawal_delay(self.privacy_level) {
            Ok(d) => d,
            Err(e) => {
                return Err(e);
            },
        };
        if (current_time as i128) >= (self.last_activity as i128) + (min_delay as i128) {
            Ok(())
        } else {
            Err(ZenithError::WithdrawalTooSoon)
        }
    }

    /// Checks, without changing anything, whether a withdrawal of `amount` at
    /// `current_time` is allowed; the transfer may only be made when it is.
    pub fn check_withdrawal(&self, amount: u64, current_time: i64) -> (r: Result<(), ZenithError>)
        requires
            self.wf(),
        ensures
            r == match withdraw_refusal(*self, amount, current_time) {
                Some(e) => Err::<(), ZenithError>(e),
                None => Ok::<(), ZenithError>(()),
            },
    {
        if !self.is_active {
            return Err(ZenithError::VaultInactive);
        }
        if amount > self.balance {
            return Err(ZenithError::InsufficientFunds);
        }
        if self.privacy_level >= 2 {
            self.check_withdrawal_delay(current_time)
        } else {
            Ok(())
        }
    }
}

/// Records a deposit of a positive `amount`. A closed vault is refused
/// before any transfer; otherwise `transfer` is the outcome of the transfer
/// into the vault, and the vault changes only when it succeeded.
pub fn deposit(
    vault: &mut Vault,
    vault_key: [u8; 32],
    amount: u64,
    use_stealth: bool,
    now: i64,
    transfer: Result<(), u64>,
) -> (r: Result<DepositEvent, ZenithError>)
    requires
        old(vault).wf(),
        amount > 0,
        old(vault).is_active && transfer is Ok ==> deposit_fits(
            *old(vault),
            amount,
            use_stealth,
            now,
        ),
    ensures
        final(vault).wf(),
        !old(vault).is_active ==> {
            &&& r == Err::<DepositEvent, ZenithError>(ZenithError::VaultInactive)
            &&& *final(vault) == *old(vault)
        },
        old(vault).is_active ==> match transfer {
            Err(code) => {
                &&& r == Err::<DepositEvent, ZenithError>(ZenithError::TransferFailed(code))
                &&& *final(vault) == *old(vault)
            },
            Ok(_) => {
                &&& *final(vault) == deposited(*old(vault), amount, use_stealth, now)
                &&& r == Ok::<DepositEvent, ZenithError>(
                    DepositEvent {
                        vault: vault_key,
                        authority: old(vault).authority,
                        amount,
                        use_stealth,
                        timestamp: now,
                    },
                )
            },
        },
{
    if !vault.is_active {
        return Err(ZenithError::VaultInactive);
    }
    if let Err(code) = transfer {
        return Err(ZenithError::TransferFailed(code));
    }
    vault.balance = vault.balance + amount;
    vault.last_activity = now;
    vault.transaction_count = vault.transaction_count + 1;
    let tier_allows = match stealth_permitted(vault.privacy_level) {
        Ok(allowed) => allowed,
        Err(_) => false,
    };
    if use_stealth && vault.stealth_mode_enabled && tier_allows {
        vault.apply_stealth_deposit(amount);
    }
    Ok(DepositEvent { vault: vault_key, authority: vault.authority, amount, use_stealth, timestamp: now })
}

/// Records a withdrawal. The checks of `Vault::check_withdrawal` come first;
/// `transfer` is the outcome of the transfer made once they passed. The vault
/// changes only when both succeeded.
pub fn withdraw(
    vault: &mut Vault,
    vault_key: [u8; 32],
    amount: u64,
    use_shadow_address: bool,
    now: i64,
    transfer: Result<(), u64>,
) -> (r: Result<WithdrawEvent, ZenithError>)
    requires
        old(vault).wf(),
        transfer is Ok && withdraw_refusal(*old(vault), amount, now) is None
            ==> old(vault).transaction_count < u32::MAX,
    ensures
        final(vault).wf(),
        match withdraw_refusal(*old(vault), amount, now) {
            Some(e) => {
                &&& r == Err::<WithdrawEvent, ZenithError>(e)
                &&& *final(vault) == *old(vault)
            },
            None => match transfer {
                Err(code) => {
                    &&& r == Err::<WithdrawEvent, ZenithError>(ZenithError::TransferFailed(code))
                    &&& *final(vault) == *old(vault)
                },
                Ok(_) => {
                    &&& *final(vault) == withdrawn(*old(vault), amount, now)
                    &&& r == Ok::<WithdrawEvent, ZenithError>(
                        WithdrawEvent {
                            vault: vault_key,
                            authority: old(vault).authority,
                            amount,
                            use_shadow_address,
                            timestamp: now,
                        },
                    )
                },
            },
        },
{
    if let Err(e) = vault.check_withdrawal(amount, now) {
        return Err(e);
    }
    if let Err(code) = transfer {
        return Err(ZenithError::TransferFailed(code));
    }
    vault.balance = vault.balance - amount;
    vault.last_activity = now;
    vault.transaction_count = vault.transaction_count + 1;
    Ok(
        WithdrawEvent {
            vault: vault_key,
            authority: vault.authority,
            amount,
            use_shadow_address,
            timestamp: now,
        },
    )
}

/// Opens a vault for `authority` named `vault_name` at time `now`: empty,
/// active, with its activity time equal to its creation time.
pub fn create_vault(
    authority: [u8; 32],
    vault_name: String,
    privacy_level: u8,
    bump: u8,
    now: i64,
) -> (r: Result<Vault, ZenithError>)
    ensures
        utf8_len(vault_name@) > MAX_NAME_LEN ==> r == Err::<Vault, ZenithError>(
            ZenithError::NameTooLong,
        ),
        utf8_len(vault_name@) <= MAX_NAME_LEN && !valid_tier(privacy_level) ==> r == Err::<
            Vault,
            ZenithError,
        >(ZenithError::InvalidPrivacyLevel),
        utf8_len(vault_name@) <= MAX_NAME_LEN && valid_tier(privacy_level) ==> r == Ok::<
            Vault,
            ZenithError,
        >(
            Vault {
                authority,
                name: vault_name,
                privacy_level,
                balance: 0,
                created_at: now,
                last_activity: now,
                transaction_count: 0,
                is_active: true,
                stealth_mode_enabled: false,
                max_daily_transactions: 0,
                bump,
            },
        ),
        r matches Ok(v) ==> v.wf(),
{
    if utf8_byte_len(vault_name.as_str()) > MAX_NAME_LEN {
        return Err(ZenithError::NameTooLong);
    }
    if privacy_level < 1 || privacy_level > 3 {
        return Err(ZenithError::InvalidPrivacyLevel);
    }
    Ok(
        Vault {
            authority,
            name: vault_name,
            privacy_level,
            balance: 0,
            created_at: now,
            last_activity: now,
            transaction_count: 0,
            is_active: true,
            stealth_mode_enabled: false,
            max_daily_transactions: 0,
            bump,
        },
    )
}

/// Replaces the tier, the stealth flag and the daily limit; nothing else
/// changes.
pub fn update_privacy_settings(
    vault: &mut Vault,
    vault_key: [u8; 32],
    new_privacy_level: u8,
    enable_stealth_mode: bool,
    max_daily_transactions: u32,
    now: i64,
) -> (r: Result<PrivacySettingsUpdated, ZenithError>)
    requires
        old(vault).wf(),
    ensures
        final(vault).wf(),
        !old(vault).is_active ==> r == Err::<PrivacySettingsUpdated, ZenithError>(
            ZenithError::VaultInactive,
        ),
        old(vault).is_active && !valid_tier(new_privacy_level) ==> r == Err::<PrivacySettingsUpdated, ZenithError>(
            ZenithError::InvalidPrivacyLevel,
        ),
        old(vault).is_active && valid_tier(new_privacy_level) && max_daily_transactions > MAX_DAILY_TRANSACTIONS_LIMIT
            ==> r == Err::<PrivacySettingsUpdated, ZenithError>(
            ZenithError::TransactionLimitTooHigh,
        ),
        r is Err ==> *final(vault) == *old(vault),
        old(vault).is_active && valid_tier(new_privacy_level) && max_daily_transactions <= MAX_DAILY_TRANSACTIONS_LIMIT
            ==> {
            &&& *final(vault) == (Vault {
                privacy_level: new_privacy_level,
                stealth_mode_enabled: enable_stealth_mode,
                max_daily_transactions,
                ..*old(vault)
            })
            &&& r == Ok::<PrivacySettingsUpdated, ZenithError>(
                PrivacySettingsUpdated {
                    vault: vault_key,
                    new_privacy_level,
                    enable_stealth_mode,
                    max_daily_transactions,
                    timestamp: now,
                },
            )
        },
{
    if !vault.is_active {
        return Err(ZenithError::VaultInactive);
    }
    if new_privacy_level < 1 || new_privacy_level > 3 {
        return Err(ZenithError::InvalidPrivacyLevel);
    }
    if max_daily_transactions > MAX_DAILY_TRANSACTIONS_LIMIT {
        return Err(ZenithError::TransactionLimitTooHigh);
    }
    vault.privacy_level = new_privacy_level;
    vault.stealth_mode_enabled = enable_stealth_mode;
    vault.max_daily_transactions = max_daily_transactions;
    Ok(
        PrivacySettingsUpdated {
            vault: vault_key,
            new_privacy_level,
            enable_stealth_mode,
            max_daily_transactions,
            timestamp: now,
        },
    )
}

/// Closes an empty vault that is more than a day old; after this no
/// operation may change it.
pub fn close_vault(vault: &mut Vault, vault_key: [u8; 32], now: i64) -> (r: Result<
    VaultClosed,
    ZenithError,
>)
    requires
        old(vault).wf(),
    ensures
        final(vault).wf(),
        !old(vault).is_active ==> r == Err::<VaultClosed, ZenithError>(
            ZenithError::VaultInactive,
        ),
        old(vault).is_active && old(vault).balance != 0 ==> r == Err::<VaultClosed, ZenithError>(
            ZenithError::VaultNotEmpty,
        ),
        old(vault).is_active && old(vault).balance == 0 && now <= old(vault).created_at + MIN_VAULT_AGE ==> r == Err::<
            VaultClosed,
            ZenithError,
        >(ZenithError::VaultTooNew),
        r is Err ==> *final(vault) == *old(vault),
        old(vault).is_active && old(vault).balance == 0 && now > old(vault).created_at + MIN_VAULT_AGE ==> {
            &&& *final(vault) == (Vault { is_active: false, ..*old(vault) })
            &&& r == Ok::<VaultClosed, ZenithError>(
                VaultClosed { vault: vault_key, authority: old(vault).authority, timestamp: now },
            )
        },
{
    if !vault.is_active {
        return Err(ZenithError::VaultInactive);
    }
    if vault.balance != 0 {
        return Err(ZenithError::VaultNotEmpty);
    }
    if (now as i128) <= (vault.created_at as i128) + (MIN_VAULT_AGE as i128) {
        return Err(ZenithError::VaultTooNew);
    }
    vault.is_active = false;
    Ok(VaultClosed { vault: vault_key, authority: vault.authority, timestamp: now })
}

} // verus!
