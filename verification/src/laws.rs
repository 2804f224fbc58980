//! Library-wide guarantees, stated and proved over the store's transition
//! functions.

use crate::identity::{spec_derive, AccountId};
use crate::lifecycle::paid_out;
use crate::store::{
    contains_id, index_of_id, lemma_contains_id_push, lemma_index_of_id, lemma_index_of_id_update,
    spec_initialize_lock, spec_initialize_lock_spl, spec_withdraw, spec_withdraw_spl,
};
use crate::vault::{
    authority_of, AssetAction, AssetKind, CreateReceipt, TimeLock, TimelockError, WithdrawReceipt,
};
use vstd::prelude::*;

verus! {

/// Determinism: equal derivation inputs always yield the identical vault
/// identity and bump.
pub proof fn lemma_derive_deterministic(
    program_id: Seq<u8>,
    owner: Seq<u8>,
    recipient: Seq<u8>,
    unlock_ts: i64,
    r1: Option<(AccountId, u8)>,
    r2: Option<(AccountId, u8)>,
)
    requires
        r1 == spec_derive(program_id, owner, recipient, unlock_ts),
        r2 == spec_derive(program_id, owner, recipient, unlock_ts),
    ensures
        r1 == r2,
{
}

/// Creation guard: a request for a zero amount is always rejected with
/// `InvalidAmount`, and neither stores a record nor instructs a transfer.
pub proof fn lemma_create_zero_amount(
    records: Seq<TimeLock>,
    program_id: AccountId,
    initializer: AccountId,
    recipient: AccountId,
    mint: AccountId,
    user_token_account: AccountId,
    vault_token_account: AccountId,
    unlock_ts: i64,
    now: i64,
)
    ensures
        spec_initialize_lock(records, program_id, initializer, recipient, 0, unlock_ts, now) == (
            records,
            Err::<CreateReceipt, TimelockError>(TimelockError::InvalidAmount),
        ),
        spec_initialize_lock_spl(
            records,
            program_id,
            initializer,
            recipient,
            mint,
            user_token_account,
            vault_token_account,
            0,
            unlock_ts,
            now,
        ) == (records, Err::<CreateReceipt, TimelockError>(TimelockError::InvalidAmount)),
{
}

/// Past-unlock guard: a request whose unlock time is not strictly in the
/// future is always rejected with `UnlockInPast`, and changes nothing.
pub proof fn lemma_create_unlock_in_past(
    records: Seq<TimeLock>,
    program_id: AccountId,
    initializer: AccountId,
    recipient: AccountId,
    mint: AccountId,
    user_token_account: AccountId,
    vault_token_account: AccountId,
    amount: u64,
    unlock_ts: i64,
    now: i64,
)
    requires
        amount > 0,
        unlock_ts <= now,
    ensures
        spec_initialize_lock(records, program_id, initializer, recipient, amount, unlock_ts, now)
            == (records, Err::<CreateReceipt, TimelockError>(TimelockError::UnlockInPast)),
        spec_initialize_lock_spl(
            records,
            program_id,
            initializer,
            recipient,
            mint,
            user_token_account,
            vault_token_account,
            amount,
            unlock_ts,
            now,
        ) == (records, Err::<CreateReceipt, TimelockError>(TimelockError::UnlockInPast)),
{
}

/// Premature withdraw: any withdrawal from a locked vault before its unlock
/// time fails `TooEarly`, whoever calls and whatever accounts are handed in,
/// and changes nothing.
pub proof fn lemma_premature_withdraw(
    records: Seq<TimeLock>,
    vault_id: AccountId,
    caller: AccountId,
    owner_refund: AccountId,
    mint: AccountId,
    vault_token_account: AccountId,
    caller_token_account: AccountId,
    now: i64,
)
    requires
        contains_id(records, vault_id@),
        records[index_of_id(records, vault_id@)].status is Locked,
        now < records[index_of_id(records, vault_id@)].unlock_ts,
    ensures
        spec_withdraw(records, vault_id, caller, owner_refund, now) == (
            records,
            Err::<WithdrawReceipt, TimelockError>(TimelockError::TooEarly),
        ),
        spec_withdraw_spl(
            records,
            vault_id,
            caller,
            owner_refund,
            mint,
            vault_token_account,
            caller_token_account,
            now,
        ) == (records, Err::<WithdrawReceipt, TimelockError>(TimelockError::TooEarly)),
{
    lemma_index_of_id(records, vault_id@);
}

/// Authorization: a caller who is neither the vault's owner nor its
/// recipient is always rejected with `Unauthorized` once the vault is past
/// its unlock time, and no asset moves.
pub proof fn lemma_unauthorized_withdraw(
    records: Seq<TimeLock>,
    vault_id: AccountId,
    caller: AccountId,
    owner_refund: AccountId,
    mint: AccountId,
    vault_token_account: AccountId,
    caller_token_account: AccountId,
    now: i64,
)
    requires
        contains_id(records, vault_id@),
        records[index_of_id(records, vault_id@)].status is Locked,
        now >= records[index_of_id(records, vault_id@)].unlock_ts,
        caller@ != records[index_of_id(records, vault_id@)].owner@,
        caller@ != records[index_of_id(records, vault_id@)].recipient@,
    ensures
        spec_withdraw(records, vault_id, caller, owner_refund, now) == (
            records,
            Err::<WithdrawReceipt, TimelockError>(TimelockError::Unauthorized),
        ),
        spec_withdraw_spl(
            records,
            vault_id,
            caller,
            owner_refund,
            mint,
            vault_token_account,
            caller_token_account,
            now,
        ) == (records, Err::<WithdrawReceipt, TimelockError>(TimelockError::Unauthorized)),
{
    lemma_index_of_id(records, vault_id@);
}

/// Kind separation: an authorized, timely native withdrawal from a token
/// vault, or token withdrawal from a native vault, always fails
/// `WrongAssetKind` and changes nothing.
pub proof fn lemma_kind_separation(
    records: Seq<TimeLock>,
    vault_id: AccountId,
    caller: AccountId,
    owner_refund: AccountId,
    mint: AccountId,
    vault_token_account: AccountId,
    caller_token_account: AccountId,
    now: i64,
)
    requires
        contains_id(records, vault_id@),
        records[index_of_id(records, vault_id@)].status is Locked,
        now >= records[index_of_id(records, vault_id@)].unlock_ts,
        caller@ == records[index_of_id(records, vault_id@)].owner@ || caller@ == records[
            index_of_id(records, vault_id@)
        ].recipient@,
    ensures
        records[index_of_id(records, vault_id@)].kind is Token ==> spec_withdraw(
            records,
            vault_id,
            caller,
            owner_refund,
            now,
        ) == (records, Err::<WithdrawReceipt, TimelockError>(TimelockError::WrongAssetKind)),
        records[index_of_id(records, vault_id@)].kind is Native ==> spec_withdraw_spl(
            records,
            vault_id,
            caller,
            owner_refund,
            mint,
            vault_token_account,
            caller_token_account,
            now,
        ) == (records, Err::<WithdrawReceipt, TimelockError>(TimelockError::WrongAssetKind)),
{
    lemma_index_of_id(records, vault_id@);
}

/// Exactly-once release: a timely, authorized native withdrawal releases
/// exactly the stored amount to the caller; afterwards any further
/// withdrawal attempt on the same vault, by anyone at any time, fails
/// `AlreadyWithdrawn` and changes nothing.
pub proof fn lemma_exactly_once_release(
    records: Seq<TimeLock>,
    vault_id: AccountId,
    caller: AccountId,
    owner_refund: AccountId,
    now: i64,
    caller2: AccountId,
    owner_refund2: AccountId,
    mint2: AccountId,
    vault_token_account2: AccountId,
    caller_token_account2: AccountId,
    now2: i64,
)
    requires
        contains_id(records, vault_id@),
        records[index_of_id(records, vault_id@)].status is Locked,
        now >= records[index_of_id(records, vault_id@)].unlock_ts,
        caller@ == records[index_of_id(records, vault_id@)].owner@ || caller@ == records[
            index_of_id(records, vault_id@)
        ].recipient@,
        records[index_of_id(records, vault_id@)].kind is Native,
        owner_refund@ == records[index_of_id(records, vault_id@)].owner@,
    ensures
        ({
            let rec = records[index_of_id(records, vault_id@)];
            let (records1, r1) = spec_withdraw(records, vault_id, caller, owner_refund, now);
            &&& r1 matches Ok(receipt) && receipt.amount == rec.amount && receipt.release == (
                AssetAction::NativeRelease { custody: rec.id, to: caller, amount: rec.amount }
            ) && receipt.reclaim is None
            &&& spec_withdraw(records1, vault_id, caller2, owner_refund2, now2) == (
                records1,
                Err::<WithdrawReceipt, TimelockError>(TimelockError::AlreadyWithdrawn),
            )
            &&& spec_withdraw_spl(
                records1,
                vault_id,
                caller2,
                owner_refund2,
                mint2,
                vault_token_account2,
                caller_token_account2,
                now2,
            ) == (records1, Err::<WithdrawReceipt, TimelockError>(TimelockError::AlreadyWithdrawn))
        }),
{
    let i = index_of_id(records, vault_id@);
    lemma_index_of_id(records, vault_id@);
    let rec = records[i];
    lemma_index_of_id_update(records, vault_id@, i, paid_out(rec));
    let records1 = records.update(i, paid_out(rec));
    assert(records1[i] == paid_out(rec));
}

/// Exactly-once release, token vaults: a timely, authorized token
/// withdrawal under the matching mint releases exactly the stored amount,
/// closes the vault's holding sub-account towards the owner, and any further
/// withdrawal attempt fails `AlreadyWithdrawn` leaving everything unchanged.
pub proof fn lemma_exactly_once_release_spl(
    records: Seq<TimeLock>,
    vault_id: AccountId,
    caller: AccountId,
    owner_refund: AccountId,
    mint: AccountId,
    vault_token_account: AccountId,
    caller_token_account: AccountId,
    now: i64,
    caller2: AccountId,
    owner_refund2: AccountId,
    mint2: AccountId,
    vault_token_account2: AccountId,
    caller_token_account2: AccountId,
    now2: i64,
)
    requires
        contains_id(records, vault_id@),
        records[index_of_id(records, vault_id@)].status is Locked,
        now >= records[index_of_id(records, vault_id@)].unlock_ts,
        caller@ == records[index_of_id(records, vault_id@)].owner@ || caller@ == records[
            index_of_id(records, vault_id@)
        ].recipient@,
        records[index_of_id(records, vault_id@)].kind matches AssetKind::Token {
            mint: stored_mint,
        } && stored_mint@ == mint@,
        owner_refund@ == records[index_of_id(records, vault_id@)].owner@,
    ensures
        ({
            let rec = records[index_of_id(records, vault_id@)];
            let (records1, r1) = spec_withdraw_spl(
                records,
                vault_id,
                caller,
                owner_refund,
                mint,
                vault_token_account,
                caller_token_account,
                now,
            );
            &&& r1 matches Ok(receipt) && receipt.amount == rec.amount && receipt.release == (
                AssetAction::TokenRelease {
                    from_account: vault_token_account,
                    to_account: caller_token_account,
                    authority: authority_of(rec),
                    amount: rec.amount,
                }
            ) && receipt.reclaim == Some(
                AssetAction::TokenClose {
                    account: vault_token_account,
                    destination: owner_refund,
                    authority: authority_of(rec),
                },
            )
            &&& spec_withdraw_spl(
                records1,
                vault_id,
                caller2,
                owner_refund2,
                mint2,
                vault_token_account2,
                caller_token_account2,
                now2,
            ) == (records1, Err::<WithdrawReceipt, TimelockError>(TimelockError::AlreadyWithdrawn))
            &&& spec_withdraw(records1, vault_id, caller2, owner_refund2, now2) == (
                records1,
                Err::<WithdrawReceipt, TimelockError>(TimelockError::AlreadyWithdrawn),
            )
        }),
{
    let i = index_of_id(records, vault_id@);
    lemma_index_of_id(records, vault_id@);
    let rec = records[i];
    lemma_index_of_id_update(records, vault_id@, i, paid_out(rec));
    let records1 = records.update(i, paid_out(rec));
    assert(records1[i] == paid_out(rec));
}

/// Scoped authority: the signing authority of a freshly created vault is
/// reconstructed from that record's own fields alone, and those fields
/// re-derive exactly the vault's identity and bump — so the authority is
/// valid only for operations naming that one vault.
pub proof fn lemma_authority_scoped(
    records: Seq<TimeLock>,
    program_id: AccountId,
    initializer: AccountId,
    recipient: AccountId,
    amount: u64,
    unlock_ts: i64,
    now: i64,
)
    requires
        spec_initialize_lock(
            records,
            program_id,
            initializer,
            recipient,
            amount,
            unlock_ts,
            now,
        ).1 is Ok,
    ensures
        ({
            let rec = spec_initialize_lock(
                records,
                program_id,
                initializer,
                recipient,
                amount,
                unlock_ts,
                now,
            ).0.last();
            &&& spec_derive(program_id@, rec.owner@, rec.recipient@, rec.unlock_ts) == Some(
                (rec.id, rec.bump),
            )
            &&& authority_of(rec).vault_id == rec.id
            &&& authority_of(rec).bump == rec.bump
        }),
{
}

/// Create-time collision: once a creation for given derivation inputs has
/// succeeded, any further creation with the identical `(owner, recipient,
/// unlock time)` fails `DuplicateVault`: the store keeps the one record, and
/// only the first creation's deposit is ever instructed.
pub proof fn lemma_duplicate_create(
    records: Seq<TimeLock>,
    program_id: AccountId,
    initializer: AccountId,
    recipient: AccountId,
    amount: u64,
    unlock_ts: i64,
    now: i64,
    amount2: u64,
    now2: i64,
)
    requires
        spec_initialize_lock(
            records,
            program_id,
            initializer,
            recipient,
            amount,
            unlock_ts,
            now,
        ).1 is Ok,
        amount2 > 0,
        now2 < unlock_ts,
    ensures
        ({
            let (records1, r1) = spec_initialize_lock(
                records,
                program_id,
                initializer,
                recipient,
                amount,
                unlock_ts,
                now,
            );
            spec_initialize_lock(
                records1,
                program_id,
                initializer,
                recipient,
                amount2,
                unlock_ts,
                now2,
            ) == (records1, Err::<CreateReceipt, TimelockError>(TimelockError::DuplicateVault))
        }),
{
    let d = spec_derive(program_id@, initializer@, recipient@, unlock_ts);
    match d {
        Some((id, bump)) => {
            let records1 = spec_initialize_lock(
                records,
                program_id,
                initializer,
                recipient,
                amount,
                unlock_ts,
                now,
            ).0;
            let rec = records1[records.len() as int];
            assert(rec.id == id);
            lemma_contains_id_push(records, rec);
        },
        None => {
            assert(false);
        },
    }
}

} // verus!
