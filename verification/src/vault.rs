//! The persistent vault record, the error taxonomy, and the transfer actions
//! the hosting ledger is instructed to perform.

use crate::identity::AccountId;
use vstd::prelude::*;

verus! {

/// The asset held by a vault: the hosting ledger's native value, or a
/// fungible token identified by its mint.
#[derive(Clone, Copy, Debug, PartialEq, Eq)]
pub enum AssetKind {
    Native,
    Token { mint: AccountId },
}

/// The lifecycle state of a vault: `Locked` on creation, `Withdrawn` after
/// the one successful withdrawal. The transition is one-way.
#[derive(Clone, Copy, Debug, PartialEq, Eq)]
pub enum VaultStatus {
    Locked,
    Withdrawn,
}

/// Why a create or withdraw request was rejected. A rejected request leaves
/// the store and every ledger balance unchanged.
#[derive(Clone, Copy, Debug, PartialEq, Eq)]
pub enum TimelockError {
    /// The deposit amount was zero.
    InvalidAmount,
    /// The requested unlock time was not strictly in the future.
    UnlockInPast,
    /// The vault's unlock time has not been reached yet.
    TooEarly,
    /// The caller is neither the vault's owner nor its recipient.
    Unauthorized,
    /// A native withdrawal targeted a token vault, a token withdrawal
    /// targeted a native vault, or the token withdrawal named another mint.
    WrongAssetKind,
    /// The vault was already paid out.
    AlreadyWithdrawn,
    /// A vault with the same derived identity already exists.
    DuplicateVault,
    /// The refund account handed in does not match the vault's owner.
    OwnerMismatch,
    /// The depositor lacks the funds for the deposit; surfaced by the hosting
    /// ledger when it performs the inbound transfer action.
    InsufficientBalance,
    /// No vault exists under the given identity.
    UnknownVault,
    /// The hosting ledger's address derivation found no valid identity for
    /// these inputs (statistically improbable; the request is rejected rather
    /// than aborting).
    DerivationFailed,
}

/// The sole persistent entity: one record per derived vault identity.
#[derive(Clone, Copy, Debug, PartialEq, Eq)]
pub struct TimeLock {
    /// The derived identity; never chosen by a caller.
    pub id: AccountId,
    /// The depositor. Immutable after creation.
    pub owner: AccountId,
    /// The party authorized (besides the owner) to withdraw. Immutable.
    pub recipient: AccountId,
    /// Which asset the vault holds. Immutable after creation.
    pub kind: AssetKind,
    /// Quantity held; set to zero exactly once, on successful withdrawal.
    pub amount: u64,
    /// Timestamp after which withdrawal is permitted. Immutable.
    pub unlock_ts: i64,
    /// Timestamp of creation, informational.
    pub created_at: i64,
    /// `Locked` until the one successful withdrawal, then `Withdrawn`.
    pub status: VaultStatus,
    /// The derivation bump proof from which the vault's scoped signing
    /// authority is reconstructed at withdrawal time.
    pub bump: u8,
}

impl TimeLock {
    /// Record invariant: the unlock time lies strictly after creation, and
    /// the held amount is positive exactly while the vault is locked.
    pub open spec fn wf(self) -> bool {
        &&& self.unlock_ts > self.created_at
        &&& (self.status is Locked ==> self.amount > 0)
        &&& (self.status is Withdrawn ==> self.amount == 0)
    }
}

/// A signing context valid only for operations naming one specific vault:
/// reconstructed from the vault's identity, derivation inputs and bump proof
/// at the moment of a validated withdrawal, and accepted only by the ledger's
/// release entry points.
#[derive(Clone, Copy, Debug, PartialEq, Eq)]
pub struct VaultAuthority {
    pub vault_id: AccountId,
    pub owner: AccountId,
    pub recipient: AccountId,
    pub unlock_ts: i64,
    pub bump: u8,
}

/// The scoped authority of a vault record.
pub open spec fn authority_of(rec: TimeLock) -> VaultAuthority {
    VaultAuthority {
        vault_id: rec.id,
        owner: rec.owner,
        recipient: rec.recipient,
        unlock_ts: rec.unlock_ts,
        bump: rec.bump,
    }
}

/// One transfer the hosting ledger must perform, atomically with the record
/// update that produced it.
#[derive(Clone, Copy, Debug, PartialEq, Eq)]
#[allow(inconsistent_fields)]
pub enum AssetAction {
    /// Move native value from the depositor into the vault's custody.
    NativeAccept { from: AccountId, to: AccountId, amount: u64 },
    /// Move native value out of the vault's custody to the caller by direct
    /// balance adjustment.
    NativeRelease { custody: AccountId, to: AccountId, amount: u64 },
    /// Move tokens from the depositor's holding account into the vault's
    /// holding sub-account, authorized by the depositor.
    TokenAccept { from_account: AccountId, to_account: AccountId, authority: AccountId, amount: u64 },
    /// Move tokens out of the vault's holding sub-account to the caller's
    /// account, authorized by the vault's scoped authority.
    TokenRelease {
        from_account: AccountId,
        to_account: AccountId,
        authority: VaultAuthority,
        amount: u64,
    },
    /// Close the vault's holding sub-account and return its reserve to the
    /// given destination, authorized by the vault's scoped authority.
    TokenClose { account: AccountId, destination: AccountId, authority: VaultAuthority },
}

/// What a successful create instructs: the new vault's identity and the one
/// inbound transfer funding it.
#[derive(Clone, Copy, Debug, PartialEq, Eq)]
pub struct CreateReceipt {
    pub vault_id: AccountId,
    pub accept: AssetAction,
}

/// What a successful withdraw instructs: the amount released, the outbound
/// transfer, and, for token vaults, the closing of the holding sub-account.
#[derive(Clone, Copy, Debug, PartialEq, Eq)]
pub struct WithdrawReceipt {
    pub amount: u64,
    pub release: AssetAction,
    pub reclaim: Option<AssetAction>,
}

/// A pure read of one vault's state.
#[derive(Clone, Copy, Debug, PartialEq, Eq)]
pub struct VaultInfo {
    pub owner: AccountId,
    pub recipient: AccountId,
    pub amount: u64,
    pub unlock_ts: i64,
    pub created_at: i64,
    pub status: VaultStatus,
    pub seconds_remaining: u64,
    pub kind: AssetKind,
}

} // verus!
