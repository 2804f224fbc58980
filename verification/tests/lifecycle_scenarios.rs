//! End-to-end scenarios over the vault store and the per-record lifecycle.

use timelock_wallet::identity::AccountId;
use timelock_wallet::lifecycle::{check_create, withdraw_record};
use timelock_wallet::store::VaultStore;
use timelock_wallet::vault::{AssetAction, AssetKind, TimelockError, VaultStatus};

fn id(b: u8) -> AccountId {
    AccountId { bytes: [b; 32] }
}

const NOW: i64 = 1_700_000_000;

fn owner() -> AccountId {
    id(1)
}

fn recipient() -> AccountId {
    id(2)
}

fn store() -> VaultStore {
    VaultStore::new(id(9))
}

#[test]
fn native_lock_full_lifecycle() {
    let mut s = store();
    let receipt = s.initialize_lock(owner(), recipient(), 2_000_000, NOW + 100, NOW).unwrap();
    let vault = receipt.vault_id;
    assert_eq!(
        receipt.accept,
        AssetAction::NativeAccept { from: owner(), to: vault, amount: 2_000_000 },
    );

    let info = s.get_info(&vault, NOW).unwrap();
    assert_eq!(info.owner, owner());
    assert_eq!(info.recipient, recipient());
    assert_eq!(info.amount, 2_000_000);
    assert_eq!(info.unlock_ts, NOW + 100);
    assert_eq!(info.created_at, NOW);
    assert_eq!(info.status, VaultStatus::Locked);
    assert_eq!(info.seconds_remaining, 100);
    assert_eq!(info.kind, AssetKind::Native);

    let early = s.withdraw(&vault, &recipient(), &owner(), NOW + 50);
    assert_eq!(early.unwrap_err(), TimelockError::TooEarly);
    assert_eq!(s.get_info(&vault, NOW + 50).unwrap().status, VaultStatus::Locked);

    let paid = s.withdraw(&vault, &recipient(), &owner(), NOW + 101).unwrap();
    assert_eq!(paid.amount, 2_000_000);
    assert_eq!(
        paid.release,
        AssetAction::NativeRelease { custody: vault, to: recipient(), amount: 2_000_000 },
    );
    assert!(paid.reclaim.is_none());

    let info = s.get_info(&vault, NOW + 101).unwrap();
    assert_eq!(info.status, VaultStatus::Withdrawn);
    assert_eq!(info.amount, 0);
    assert_eq!(info.seconds_remaining, 0);
}

#[test]
fn token_lock_full_lifecycle() {
    let mut s = store();
    let mint = id(30);
    let user_ata = id(31);
    let vault_ata = id(32);
    let caller_ata = id(33);

    let receipt = s
        .initialize_lock_spl(owner(), recipient(), mint, user_ata, vault_ata, 500, NOW + 10, NOW)
        .unwrap();
    let vault = receipt.vault_id;
    assert_eq!(
        receipt.accept,
        AssetAction::TokenAccept {
            from_account: user_ata,
            to_account: vault_ata,
            authority: owner(),
            amount: 500,
        },
    );
    assert_eq!(s.get_info(&vault, NOW).unwrap().kind, AssetKind::Token { mint });

    let paid = s
        .withdraw_spl(&vault, &recipient(), &owner(), &mint, &vault_ata, &caller_ata, NOW + 11)
        .unwrap();
    assert_eq!(paid.amount, 500);
    match paid.release {
        AssetAction::TokenRelease { from_account, to_account, authority, amount } => {
            assert_eq!(from_account, vault_ata);
            assert_eq!(to_account, caller_ata);
            assert_eq!(amount, 500);
            assert_eq!(authority.vault_id, vault);
            assert_eq!(authority.owner, owner());
            assert_eq!(authority.recipient, recipient());
            assert_eq!(authority.unlock_ts, NOW + 10);
        },
        other => panic!("unexpected release action: {:?}", other),
    }
    match paid.reclaim.unwrap() {
        AssetAction::TokenClose { account, destination, authority } => {
            assert_eq!(account, vault_ata);
            assert_eq!(destination, owner());
            assert_eq!(authority.vault_id, vault);
        },
        other => panic!("unexpected reclaim action: {:?}", other),
    }

    let info = s.get_info(&vault, NOW + 11).unwrap();
    assert_eq!(info.status, VaultStatus::Withdrawn);
    assert_eq!(info.amount, 0);
}

#[test]
fn duplicate_create_leaves_one_vault() {
    let mut s = store();
    let first = s.initialize_lock(owner(), recipient(), 1_000, NOW + 60, NOW);
    assert!(first.is_ok());
    let second = s.initialize_lock(owner(), recipient(), 1_000, NOW + 60, NOW);
    assert_eq!(second.unwrap_err(), TimelockError::DuplicateVault);
    assert_eq!(s.records.len(), 1);
}

#[test]
fn cross_kind_creates_with_equal_inputs_collide() {
    let mut s = store();
    s.initialize_lock(owner(), recipient(), 1_000, NOW + 60, NOW).unwrap();
    let second = s.initialize_lock_spl(
        owner(),
        recipient(),
        id(30),
        id(31),
        id(32),
        1_000,
        NOW + 60,
        NOW,
    );
    assert_eq!(second.unwrap_err(), TimelockError::DuplicateVault);
}

#[test]
fn zero_amount_is_rejected() {
    let mut s = store();
    let r = s.initialize_lock(owner(), recipient(), 0, NOW + 60, NOW);
    assert_eq!(r.unwrap_err(), TimelockError::InvalidAmount);
    let r = s.initialize_lock_spl(owner(), recipient(), id(30), id(31), id(32), 0, NOW + 60, NOW);
    assert_eq!(r.unwrap_err(), TimelockError::InvalidAmount);
    assert_eq!(s.records.len(), 0);
}

#[test]
fn unlock_in_past_is_rejected() {
    let mut s = store();
    let r = s.initialize_lock(owner(), recipient(), 1_000, NOW, NOW);
    assert_eq!(r.unwrap_err(), TimelockError::UnlockInPast);
    let r = s.initialize_lock_spl(owner(), recipient(), id(30), id(31), id(32), 1_000, NOW - 1, NOW);
    assert_eq!(r.unwrap_err(), TimelockError::UnlockInPast);
    assert_eq!(s.records.len(), 0);
}

#[test]
fn check_create_guards_in_order() {
    assert_eq!(check_create(0, NOW - 5, NOW).unwrap_err(), TimelockError::InvalidAmount);
    assert_eq!(check_create(7, NOW, NOW).unwrap_err(), TimelockError::UnlockInPast);
    assert!(check_create(7, NOW + 1, NOW).is_ok());
}

#[test]
fn second_withdraw_fails_already_withdrawn() {
    let mut s = store();
    let vault = s.initialize_lock(owner(), recipient(), 1_000, NOW + 10, NOW).unwrap().vault_id;
    s.withdraw(&vault, &recipient(), &owner(), NOW + 10).unwrap();
    let again = s.withdraw(&vault, &recipient(), &owner(), NOW + 20);
    assert_eq!(again.unwrap_err(), TimelockError::AlreadyWithdrawn);
    let again_owner = s.withdraw(&vault, &owner(), &owner(), NOW + 30);
    assert_eq!(again_owner.unwrap_err(), TimelockError::AlreadyWithdrawn);
}

#[test]
fn owner_may_withdraw_too() {
    let mut s = store();
    let vault = s.initialize_lock(owner(), recipient(), 1_000, NOW + 10, NOW).unwrap().vault_id;
    let paid = s.withdraw(&vault, &owner(), &owner(), NOW + 10).unwrap();
    assert_eq!(paid.amount, 1_000);
}

#[test]
fn stranger_is_unauthorized() {
    let mut s = store();
    let vault = s.initialize_lock(owner(), recipient(), 1_000, NOW + 10, NOW).unwrap().vault_id;
    let r = s.withdraw(&vault, &id(50), &owner(), NOW + 10);
    assert_eq!(r.unwrap_err(), TimelockError::Unauthorized);
    assert_eq!(s.get_info(&vault, NOW + 10).unwrap().status, VaultStatus::Locked);
}

#[test]
fn kind_separation_is_enforced() {
    let mut s = store();
    let mint = id(30);
    let native_vault = s.initialize_lock(owner(), recipient(), 1_000, NOW + 10, NOW).unwrap().vault_id;
    let token_vault = s
        .initialize_lock_spl(owner(), id(3), mint, id(31), id(32), 500, NOW + 10, NOW)
        .unwrap()
        .vault_id;

    let r = s.withdraw(&token_vault, &id(3), &owner(), NOW + 10);
    assert_eq!(r.unwrap_err(), TimelockError::WrongAssetKind);

    let r = s.withdraw_spl(&native_vault, &recipient(), &owner(), &mint, &id(32), &id(33), NOW + 10);
    assert_eq!(r.unwrap_err(), TimelockError::WrongAssetKind);

    let wrong_mint = id(40);
    let r = s.withdraw_spl(&token_vault, &id(3), &owner(), &wrong_mint, &id(32), &id(33), NOW + 10);
    assert_eq!(r.unwrap_err(), TimelockError::WrongAssetKind);
}

#[test]
fn refund_account_must_match_owner() {
    let mut s = store();
    let vault = s.initialize_lock(owner(), recipient(), 1_000, NOW + 10, NOW).unwrap().vault_id;
    let r = s.withdraw(&vault, &recipient(), &id(50), NOW + 10);
    assert_eq!(r.unwrap_err(), TimelockError::OwnerMismatch);
}

#[test]
fn unknown_vault_is_reported() {
    let mut s = store();
    s.initialize_lock(owner(), recipient(), 1_000, NOW + 10, NOW).unwrap();
    let r = s.withdraw(&id(99), &recipient(), &owner(), NOW + 10);
    assert_eq!(r.unwrap_err(), TimelockError::UnknownVault);
    assert!(s.get_info(&id(99), NOW).is_none());
}

#[test]
fn withdraw_record_applies_the_one_transition() {
    let mut s = store();
    let vault = s.initialize_lock(owner(), recipient(), 1_000, NOW + 10, NOW).unwrap().vault_id;
    let mut rec = *s.records.iter().find(|r| r.id == vault).unwrap();

    let early = withdraw_record(&mut rec, &recipient(), &owner(), &AssetKind::Native, NOW + 5);
    assert_eq!(early.unwrap_err(), TimelockError::TooEarly);
    assert_eq!(rec.status, VaultStatus::Locked);
    assert_eq!(rec.amount, 1_000);

    let paid = withdraw_record(&mut rec, &recipient(), &owner(), &AssetKind::Native, NOW + 10);
    assert_eq!(paid.unwrap(), 1_000);
    assert_eq!(rec.status, VaultStatus::Withdrawn);
    assert_eq!(rec.amount, 0);

    let again = withdraw_record(&mut rec, &recipient(), &owner(), &AssetKind::Native, NOW + 11);
    assert_eq!(again.unwrap_err(), TimelockError::AlreadyWithdrawn);
}

#[test]
fn seconds_remaining_counts_down_to_zero() {
    let mut s = store();
    let vault = s.initialize_lock(owner(), recipient(), 1_000, NOW + 100, NOW).unwrap().vault_id;
    assert_eq!(s.get_info(&vault, NOW).unwrap().seconds_remaining, 100);
    assert_eq!(s.get_info(&vault, NOW + 99).unwrap().seconds_remaining, 1);
    assert_eq!(s.get_info(&vault, NOW + 100).unwrap().seconds_remaining, 0);
    assert_eq!(s.get_info(&vault, NOW + 5_000).unwrap().seconds_remaining, 0);
}
