//! The per-record create/withdraw transition logic.
//!
//! Every precondition is checked in a fixed order and the first failure wins;
//! a rejected request leaves the record untouched.

use crate::identity::AccountId;
use crate::vault::{AssetKind, TimeLock, TimelockError, VaultStatus};
use vstd::prelude::*;

verus! {

/// Whether a withdrawal request of kind `requested` may release the asset of
/// a vault holding `stored`: native against native, or token against token of
/// the identical mint.
pub open spec fn kind_matches(stored: AssetKind, requested: AssetKind) -> bool {
    match (stored, requested) {
        (AssetKind::Native, AssetKind::Native) => true,
        (AssetKind::Token { mint: stored_mint }, AssetKind::Token { mint: requested_mint }) => {
            stored_mint@ == requested_mint@
        },
        _ => false,
    }
}

/// The withdrawal guard, checked in order with the first failure winning:
/// the vault must still be locked, its unlock time must have passed, the
/// caller must be the owner or the recipient, the requested asset kind must
/// match the stored one, and the refund account must be the owner.
pub open spec fn withdraw_guard(
    rec: TimeLock,
    caller: AccountId,
    owner_refund: AccountId,
    requested: AssetKind,
    now: i64,
) -> Option<TimelockError> {
    if rec.status is Withdrawn {
        Some(TimelockError::AlreadyWithdrawn)
    } else if now < rec.unlock_ts {
        Some(TimelockError::TooEarly)
    } else if caller@ != rec.owner@ && caller@ != rec.recipient@ {
        Some(TimelockError::Unauthorized)
    } else if !kind_matches(rec.kind, requested) {
        Some(TimelockError::WrongAssetKind)
    } else if owner_refund@ != rec.owner@ {
        Some(TimelockError::OwnerMismatch)
    } else {
        None
    }
}

/// The record after its one successful withdrawal: amount zeroed and status
/// advanced together, everything else unchanged.
pub open spec fn paid_out(rec: TimeLock) -> TimeLock {
    TimeLock { amount: 0, status: VaultStatus::Withdrawn, ..rec }
}

/// The creation guard: the deposit must be positive and the unlock time
/// strictly in the future, in that order.
pub fn check_create(amount: u64, unlock_ts: i64, now: i64) -> (r: Result<(), TimelockError>)
    ensures
        amount == 0 ==> r == Err::<(), TimelockError>(TimelockError::InvalidAmount),
        amount > 0 && unlock_ts <= now ==> r == Err::<(), TimelockError>(TimelockError::UnlockInPast),
        amount > 0 && unlock_ts > now ==> r == Ok::<(), TimelockError>(()),
{
    if amount == 0 {
        Err(TimelockError::InvalidAmount)
    } else if unlock_ts <= now {
        Err(TimelockError::UnlockInPast)
    } else {
        Ok(())
    }
}

fn kind_matches_exec(stored: &AssetKind, requested: &AssetKind) -> (r: bool)
    ensures
        r == kind_matches(*stored, *requested),
{
    match (stored, requested) {
        (AssetKind::Native, AssetKind::Native) => true,
        (AssetKind::Token { mint: stored_mint }, AssetKind::Token { mint: requested_mint }) => {
            stored_mint.same(requested_mint)
        },
        _ => false,
    }
}

/// Evaluate the withdrawal guard on one record.
pub fn check_withdraw(
    rec: &TimeLock,
    caller: &AccountId,
    owner_refund: &AccountId,
    requested: &AssetKind,
    now: i64,
) -> (r: Option<TimelockError>)
    ensures
        r == withdraw_guard(*rec, *caller, *owner_refund, *requested, now),
{
    match rec.status {
        VaultStatus::Withdrawn => Some(TimelockError::AlreadyWithdrawn),
        VaultStatus::Locked => {
            if now < rec.unlock_ts {
                Some(TimelockError::TooEarly)
            } else if !caller.same(&rec.owner) && !caller.same(&rec.recipient) {
                Some(TimelockError::Unauthorized)
            } else if !kind_matches_exec(&rec.kind, requested) {
                Some(TimelockError::WrongAssetKind)
            } else if !owner_refund.same(&rec.owner) {
                Some(TimelockError::OwnerMismatch)
            } else {
                None
            }
        },
    }
}

/// Validate and apply a withdrawal on one record: on success the record's
/// amount is zeroed and its status advanced to `Withdrawn` as one step, and
/// the amount to transfer is returned; on failure the record is unchanged.
pub fn withdraw_record(
    rec: &mut TimeLock,
    caller: &AccountId,
    owner_refund: &AccountId,
    requested: &AssetKind,
    now: i64,
) -> (r: Result<u64, TimelockError>)
    ensures
        match withdraw_guard(*old(rec), *caller, *owner_refund, *requested, now) {
            Some(e) => r == Err::<u64, TimelockError>(e) && *final(rec) == *old(rec),
            None => r == Ok::<u64, TimelockError>(old(rec).amount) && *final(rec) == paid_out(
                *old(rec),
            ),
        },
{
    match check_withdraw(rec, caller, owner_refund, requested, now) {
        Some(e) => Err(e),
        None => {
            let amount = rec.amount;
            rec.amount = 0;
            rec.status = VaultStatus::Withdrawn;
            Ok(amount)
        },
    }
}

} // verus!
