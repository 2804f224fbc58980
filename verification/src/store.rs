//! The vault store: the durable mapping from derived identity to vault
//! record, with the single-record-per-identity discipline, and the
//! create/withdraw operations over it.
//!
//! Each operation returns, besides the record change, the transfer actions
//! the hosting ledger must perform atomically with it.

use crate::identity::{derive_vault_identity, spec_derive, AccountId};
use crate::lifecycle::{check_create, paid_out, withdraw_guard, withdraw_record};
use crate::vault::{
    authority_of, AssetAction, AssetKind, CreateReceipt, TimeLock, TimelockError, VaultInfo,
    VaultStatus, WithdrawReceipt,
};
use vstd::prelude::*;

verus! {

/// The index of the first record with the given identity, or -1.
pub open spec fn index_of_id(records: Seq<TimeLock>, id: Seq<u8>) -> int
    decreases records.len(),
{
    if records.len() == 0 {
        -1
    } else if records[0].id@ == id {
        0
    } else {
        let rest = index_of_id(records.drop_first(), id);
        if rest < 0 {
            -1
        } else {
            rest + 1
        }
    }
}

/// Whether some record carries the given identity.
pub open spec fn contains_id(records: Seq<TimeLock>, id: Seq<u8>) -> bool {
    index_of_id(records, id) >= 0
}

/// `index_of_id` yields either -1 and no record matches, or the position of
/// the first matching record.
pub proof fn lemma_index_of_id(records: Seq<TimeLock>, id: Seq<u8>)
    ensures
        index_of_id(records, id) >= 0 ==> {
            let i = index_of_id(records, id);
            &&& i < records.len()
            &&& records[i].id@ == id
            &&& forall|j: int| 0 <= j < i ==> records[j].id@ != id
        },
        index_of_id(records, id) < 0 ==> index_of_id(records, id) == -1 && (forall|j: int|
            0 <= j < records.len() ==> records[j].id@ != id),
    decreases records.len(),
{
    if records.len() > 0 && records[0].id@ != id {
        let rest = records.drop_first();
        lemma_index_of_id(rest, id);
        let r = index_of_id(rest, id);
        if r >= 0 {
            assert(records[r + 1] == rest[r]);
            assert forall|j: int| 0 <= j < r + 1 implies records[j].id@ != id by {
                if j > 0 {
                    assert(records[j] == rest[j - 1]);
                }
            }
        } else {
            assert forall|j: int| 0 <= j < records.len() implies records[j].id@ != id by {
                if j > 0 {
                    assert(records[j] == rest[j - 1]);
                }
            }
        }
    }
}

/// `index_of_id` is exactly the position of the first match.
pub proof fn lemma_index_of_id_first(records: Seq<TimeLock>, id: Seq<u8>, i: int)
    requires
        0 <= i < records.len(),
        records[i].id@ == id,
        forall|j: int| 0 <= j < i ==> records[j].id@ != id,
    ensures
        index_of_id(records, id) == i,
    decreases i,
{
    if i > 0 {
        let rest = records.drop_first();
        assert(records[0].id@ != id);
        assert(rest[i - 1] == records[i]);
        assert forall|j: int| 0 <= j < i - 1 implies rest[j].id@ != id by {
            assert(rest[j] == records[j + 1]);
        }
        lemma_index_of_id_first(rest, id, i - 1);
    }
}

/// Replacing a record by one with the same identity moves no index.
pub proof fn lemma_index_of_id_update(
    records: Seq<TimeLock>,
    id: Seq<u8>,
    i: int,
    rec2: TimeLock,
)
    requires
        0 <= i < records.len(),
        rec2.id@ == records[i].id@,
    ensures
        index_of_id(records.update(i, rec2), id) == index_of_id(records, id),
    decreases records.len(),
{
    let updated = records.update(i, rec2);
    if i == 0 {
        if records[0].id@ != id {
            assert(updated.drop_first() =~= records.drop_first());
        }
    } else {
        assert(updated[0] == records[0]);
        if records[0].id@ != id {
            assert(updated.drop_first() =~= records.drop_first().update(i - 1, rec2));
            lemma_index_of_id_update(records.drop_first(), id, i - 1, rec2);
        }
    }
}

/// A freshly pushed record is found by its identity.
pub proof fn lemma_contains_id_push(records: Seq<TimeLock>, rec: TimeLock)
    ensures
        contains_id(records.push(rec), rec.id@),
{
    let pushed = records.push(rec);
    lemma_index_of_id(pushed, rec.id@);
    assert(pushed[records.len() as int] == rec);
}

/// The outcome of a native-vault creation: the first failing guard in order
/// (`InvalidAmount`, `UnlockInPast`, `DerivationFailed`, `DuplicateVault`)
/// leaves the records unchanged; otherwise a fresh `Locked` record is
/// appended and the funding transfer is instructed.
pub open spec fn spec_initialize_lock(
    records: Seq<TimeLock>,
    program_id: AccountId,
    initializer: AccountId,
    recipient: AccountId,
    amount: u64,
    unlock_ts: i64,
    now: i64,
) -> (Seq<TimeLock>, Result<CreateReceipt, TimelockError>) {
    if amount == 0 {
        (records, Err(TimelockError::InvalidAmount))
    } else if unlock_ts <= now {
        (records, Err(TimelockError::UnlockInPast))
    } else {
        match spec_derive(program_id@, initializer@, recipient@, unlock_ts) {
            None => (records, Err(TimelockError::DerivationFailed)),
            Some((id, bump)) => {
                if contains_id(records, id@) {
                    (records, Err(TimelockError::DuplicateVault))
                } else {
                    let rec = TimeLock {
                        id,
                        owner: initializer,
                        recipient,
                        kind: AssetKind::Native,
                        amount,
                        unlock_ts,
                        created_at: now,
                        status: VaultStatus::Locked,
                        bump,
                    };
                    (
                        records.push(rec),
                        Ok(
                            CreateReceipt {
                                vault_id: id,
                                accept: AssetAction::NativeAccept { from: initializer, to: id, amount },
                            },
                        ),
                    )
                }
            },
        }
    }
}

/// The outcome of a token-vault creation; as the native one, but the record
/// carries the mint and the funding transfer moves tokens from the
/// depositor's holding account into the vault's holding sub-account.
pub open spec fn spec_initialize_lock_spl(
    records: Seq<TimeLock>,
    program_id: AccountId,
    initializer: AccountId,
    recipient: AccountId,
    mint: AccountId,
    user_token_account: AccountId,
    vault_token_account: AccountId,
    amount: u64,
    unlock_ts: i64,
    now: i64,
) -> (Seq<TimeLock>, Result<CreateReceipt, TimelockError>) {
    if amount == 0 {
        (records, Err(TimelockError::InvalidAmount))
    } else if unlock_ts <= now {
        (records, Err(TimelockError::UnlockInPast))
    } else {
        match spec_derive(program_id@, initializer@, recipient@, unlock_ts) {
            None => (records, Err(TimelockError::DerivationFailed)),
            Some((id, bump)) => {
                if contains_id(records, id@) {
                    (records, Err(TimelockError::DuplicateVault))
                } else {
                    let rec = TimeLock {
                        id,
                        owner: initializer,
                        recipient,
                        kind: AssetKind::Token { mint },
                        amount,
                        unlock_ts,
                        created_at: now,
                        status: VaultStatus::Locked,
                        bump,
                    };
                    (
                        records.push(rec),
                        Ok(
                            CreateReceipt {
                                vault_id: id,
                                accept: AssetAction::TokenAccept {
                                    from_account: user_token_account,
                                    to_account: vault_token_account,
                                    authority: initializer,
                                    amount,
                                },
                            },
                        ),
                    )
                }
            },
        }
    }
}

/// The outcome of a native withdrawal: `UnknownVault` for an absent record;
/// otherwise the first failing withdrawal guard, or, on success, the record
/// paid out and the release of exactly the stored amount to the caller.
pub open spec fn spec_withdraw(
    records: Seq<TimeLock>,
    vault_id: AccountId,
    caller: AccountId,
    owner_refund: AccountId,
    now: i64,
) -> (Seq<TimeLock>, Result<WithdrawReceipt, TimelockError>) {
    let i = index_of_id(records, vault_id@);
    if i < 0 {
        (records, Err(TimelockError::UnknownVault))
    } else {
        let rec = records[i];
        match withdraw_guard(rec, caller, owner_refund, AssetKind::Native, now) {
            Some(e) => (records, Err(e)),
            None => (
                records.update(i, paid_out(rec)),
                Ok(
                    WithdrawReceipt {
                        amount: rec.amount,
                        release: AssetAction::NativeRelease {
                            custody: rec.id,
                            to: caller,
                            amount: rec.amount,
                        },
                        reclaim: None,
                    },
                ),
            ),
        }
    }
}

/// The outcome of a token withdrawal; as the native one, but the release
/// moves tokens out of the vault's holding sub-account under the vault's
/// scoped authority, and the sub-account is closed with its reserve returned
/// to the owner.
pub open spec fn spec_withdraw_spl(
    records: Seq<TimeLock>,
    vault_id: AccountId,
    caller: AccountId,
    owner_refund: AccountId,
    mint: AccountId,
    vault_token_account: AccountId,
    caller_token_account: AccountId,
    now: i64,
) -> (Seq<TimeLock>, Result<WithdrawReceipt, TimelockError>) {
    let i = index_of_id(records, vault_id@);
    if i < 0 {
        (records, Err(TimelockError::UnknownVault))
    } else {
        let rec = records[i];
        match withdraw_guard(rec, caller, owner_refund, AssetKind::Token { mint }, now) {
            Some(e) => (records, Err(e)),
            None => (
                records.update(i, paid_out(rec)),
                Ok(
                    WithdrawReceipt {
                        amount: rec.amount,
                        release: AssetAction::TokenRelease {
                            from_account: vault_token_account,
                            to_account: caller_token_account,
                            authority: authority_of(rec),
                            amount: rec.amount,
                        },
                        reclaim: Some(
                            AssetAction::TokenClose {
                                account: vault_token_account,
                                destination: owner_refund,
                                authority: authority_of(rec),
                            },
                        ),
                    },
                ),
            ),
        }
    }
}

/// Seconds from `now` until `unlock_ts`, zero once the unlock time passed.
pub open spec fn spec_seconds_remaining(unlock_ts: i64, now: i64) -> u64 {
    if now >= unlock_ts {
        0
    } else {
        (unlock_ts - now) as u64
    }
}

/// The pure read of one vault, `None` for an absent record.
pub open spec fn spec_get_info(records: Seq<TimeLock>, vault_id: AccountId, now: i64) -> Option<
    VaultInfo,
> {
    let i = index_of_id(records, vault_id@);
    if i < 0 {
        None
    } else {
        let rec = records[i];
        Some(
            VaultInfo {
                owner: rec.owner,
                recipient: rec.recipient,
                amount: rec.amount,
                unlock_ts: rec.unlock_ts,
                created_at: rec.created_at,
                status: rec.status,
                seconds_remaining: spec_seconds_remaining(rec.unlock_ts, now),
                kind: rec.kind,
            },
        )
    }
}

/// The durable collection of vault records, keyed by derived identity.
pub struct VaultStore {
    /// The identity under which vault identities are derived.
    pub program_id: AccountId,
    /// One record per derived identity.
    pub records: Vec<TimeLock>,
}

impl VaultStore {
    /// Store invariant: every record satisfies the record invariant, and no
    /// two records share an identity.
    pub open spec fn wf(self) -> bool {
        &&& forall|i: int| 0 <= i < self.records@.len() ==> (#[trigger] self.records@[i]).wf()
        &&& forall|i: int, j: int|
            0 <= i < j < self.records@.len() ==> (#[trigger] self.records@[i].id@) != (
            #[trigger] self.records@[j].id@)
    }

    /// An empty store for the given program identity.
    pub fn new(program_id: AccountId) -> (r: VaultStore)
        ensures
            r.wf(),
            r.program_id == program_id,
            r.records@ == Seq::<TimeLock>::empty(),
    {
        VaultStore { program_id, records: Vec::new() }
    }

    fn find_index(&self, id: &AccountId) -> (r: Option<usize>)
        ensures
            match r {
                Some(i) => i < self.records@.len() && index_of_id(self.records@, id@) == i as int,
                None => index_of_id(self.records@, id@) < 0,
            },
    {
        let n = self.records.len();
        let mut i: usize = 0;
        while i < n
            invariant
                n == self.records@.len(),
                i <= n,
                forall|j: int| 0 <= j < i ==> (#[trigger] self.records@[j].id@) != id@,
            decreases n - i,
        {
            if self.records[i].id.same(id) {
                proof {
                    lemma_index_of_id_first(self.records@, id@, i as int);
                }
                return Some(i);
            }
            i += 1;
        }
        proof {
            lemma_index_of_id(self.records@, id@);
        }
        None
    }

    /// Create a vault holding `amount` of native value, locked until
    /// `unlock_ts`, withdrawable by `recipient` (or `initializer`).
    /// On success the new vault's identity and the funding transfer are
    /// returned; on any failure nothing changes.
    pub fn initialize_lock(
        &mut self,
        initializer: AccountId,
        recipient: AccountId,
        amount: u64,
        unlock_ts: i64,
        now: i64,
    ) -> (r: Result<CreateReceipt, TimelockError>)
        requires
            old(self).wf(),
        ensures
            final(self).wf(),
            final(self).program_id == old(self).program_id,
            (final(self).records@, r) == spec_initialize_lock(
                old(self).records@,
                old(self).program_id,
                initializer,
                recipient,
                amount,
                unlock_ts,
                now,
            ),
    {
        if let Err(e) = check_create(amount, unlock_ts, now) {
            return Err(e);
        }
        match derive_vault_identity(&self.program_id, &initializer, &recipient, unlock_ts) {
            None => Err(TimelockError::DerivationFailed),
            Some((id, bump)) => {
                match self.find_index(&id) {
                    Some(_) => Err(TimelockError::DuplicateVault),
                    None => {
                        let rec = TimeLock {
                            id,
                            owner: initializer,
                            recipient,
                            kind: AssetKind::Native,
                            amount,
                            unlock_ts,
                            created_at: now,
                            status: VaultStatus::Locked,
                            bump,
                        };
                        proof {
                            lemma_index_of_id(self.records@, id@);
                        }
                        self.records.push(rec);
                        Ok(
                            CreateReceipt {
                                vault_id: id,
                                accept: AssetAction::NativeAccept { from: initializer, to: id, amount },
                            },
                        )
                    },
                }
            },
        }
    }

    /// Create a vault holding `amount` tokens of `mint`, funded from
    /// `user_token_account` into `vault_token_account`; otherwise as
    /// `initialize_lock`.
    pub fn initialize_lock_spl(
        &mut self,
        initializer: AccountId,
        recipient: AccountId,
        mint: AccountId,
        user_token_account: AccountId,
        vault_token_account: AccountId,
        amount: u64,
        unlock_ts: i64,
        now: i64,
    ) -> (r: Result<CreateReceipt, TimelockError>)
        requires
            old(self).wf(),
        ensures
            final(self).wf(),
            final(self).program_id == old(self).program_id,
            (final(self).records@, r) == spec_initialize_lock_spl(
                old(self).records@,
                old(self).program_id,
                initializer,
                recipient,
                mint,
                user_token_account,
                vault_token_account,
                amount,
                unlock_ts,
                now,
            ),
    {
        if let Err(e) = check_create(amount, unlock_ts, now) {
            return Err(e);
        }
        match derive_vault_identity(&self.program_id, &initializer, &recipient, unlock_ts) {
            None => Err(TimelockError::DerivationFailed),
            Some((id, bump)) => {
                match self.find_index(&id) {
                    Some(_) => Err(TimelockError::DuplicateVault),
                    None => {
                        let rec = TimeLock {
                            id,
                            owner: initializer,
                            recipient,
                            kind: AssetKind::Token { mint },
                            amount,
                            unlock_ts,
                            created_at: now,
                            status: VaultStatus::Locked,
                            bump,
                        };
                        proof {
                            lemma_index_of_id(self.records@, id@);
                        }
                        self.records.push(rec);
                        Ok(
                            CreateReceipt {
                                vault_id: id,
                                accept: AssetAction::TokenAccept {
                                    from_account: user_token_account,
                                    to_account: vault_token_account,
                                    authority: initializer,
                                    amount,
                                },
                            },
                        )
                    },
                }
            },
        }
    }

    /// Withdraw the native value of the vault `vault_id` to `caller`.
    /// On success exactly the stored amount is released and the record is
    /// paid out; on any failure nothing changes.
    pub fn withdraw(
        &mut self,
        vault_id: &AccountId,
        caller: &AccountId,
        owner_refund: &AccountId,
        now: i64,
    ) -> (r: Result<WithdrawReceipt, TimelockError>)
        requires
            old(self).wf(),
        ensures
            final(self).wf(),
            final(self).program_id == old(self).program_id,
            (final(self).records@, r) == spec_withdraw(
                old(self).records@,
                *vault_id,
                *caller,
                *owner_refund,
                now,
            ),
    {
        match self.find_index(vault_id) {
            None => Err(TimelockError::UnknownVault),
            Some(i) => {
                let mut rec = self.records[i];
                let requested = AssetKind::Native;
                match withdraw_record(&mut rec, caller, owner_refund, &requested, now) {
                    Err(e) => Err(e),
                    Ok(amount) => {
                        let release = AssetAction::NativeRelease {
                            custody: rec.id,
                            to: *caller,
                            amount,
                        };
                        self.records[i] = rec;
                        Ok(WithdrawReceipt { amount, release, reclaim: None })
                    },
                }
            },
        }
    }

    /// Withdraw the tokens of the vault `vault_id` to `caller_token_account`,
    /// closing the vault's holding sub-account `vault_token_account` and
    /// returning its reserve to `owner_refund`; otherwise as `withdraw`.
    pub fn withdraw_spl(
        &mut self,
        vault_id: &AccountId,
        caller: &AccountId,
        owner_refund: &AccountId,
        mint: &AccountId,
        vault_token_account: &AccountId,
        caller_token_account: &AccountId,
        now: i64,
    ) -> (r: Result<WithdrawReceipt, TimelockError>)
        requires
            old(self).wf(),
        ensures
            final(self).wf(),
            final(self).program_id == old(self).program_id,
            (final(self).records@, r) == spec_withdraw_spl(
                old(self).records@,
                *vault_id,
                *caller,
                *owner_refund,
                *mint,
                *vault_token_account,
                *caller_token_account,
                now,
            ),
    {
        match self.find_index(vault_id) {
            None => Err(TimelockError::UnknownVault),
            Some(i) => {
                let mut rec = self.records[i];
                let requested = AssetKind::Token { mint: *mint };
                match withdraw_record(&mut rec, caller, owner_refund, &requested, now) {
                    Err(e) => Err(e),
                    Ok(amount) => {
                        let authority = crate::vault::VaultAuthority {
                            vault_id: rec.id,
                            owner: rec.owner,
                            recipient: rec.recipient,
                            unlock_ts: rec.unlock_ts,
                            bump: rec.bump,
                        };
                        let release = AssetAction::TokenRelease {
                            from_account: *vault_token_account,
                            to_account: *caller_token_account,
                            authority,
                            amount,
                        };
                        let reclaim = AssetAction::TokenClose {
                            account: *vault_token_account,
                            destination: *owner_refund,
                            authority,
                        };
                        self.records[i] = rec;
                        Ok(WithdrawReceipt { amount, release, reclaim: Some(reclaim) })
                    },
                }
            },
        }
    }

    /// Read one vault's state; pure, and `Some` exactly for an existing
    /// vault.
    pub fn get_info(&self, vault_id: &AccountId, now: i64) -> (r: Option<VaultInfo>)
        ensures
            r == spec_get_info(self.records@, *vault_id, now),
    {
        match self.find_index(vault_id) {
            None => None,
            Some(i) => {
                let rec = &self.records[i];
                let seconds_remaining: u64 = if now >= rec.unlock_ts {
                    0
                } else {
                    let d: i128 = (rec.unlock_ts as i128) - (now as i128);
                    d as u64
                };
                Some(
                    VaultInfo {
                        owner: rec.owner,
                        recipient: rec.recipient,
                        amount: rec.amount,
                        unlock_ts: rec.unlock_ts,
                        created_at: rec.created_at,
                        status: rec.status,
                        seconds_remaining,
                        kind: rec.kind,
                    },
                )
            },
        }
    }
}

} // verus!
