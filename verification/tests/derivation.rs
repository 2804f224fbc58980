//! Tests of the deterministic identity derivation.

use timelock_wallet::identity::{derive_vault_identity, AccountId};

fn id(b: u8) -> AccountId {
    AccountId { bytes: [b; 32] }
}

#[test]
fn derivation_is_deterministic() {
    let pid = id(9);
    let owner = id(1);
    let recipient = id(2);
    let r1 = derive_vault_identity(&pid, &owner, &recipient, 1_700_000_000);
    let r2 = derive_vault_identity(&pid, &owner, &recipient, 1_700_000_000);
    assert!(r1.is_some());
    assert_eq!(r1, r2);
}

#[test]
fn derivation_transforms_its_inputs() {
    let pid = id(9);
    let owner = id(1);
    let recipient = id(2);
    let (vault_id, _bump) = derive_vault_identity(&pid, &owner, &recipient, 1_700_000_000).unwrap();
    assert_ne!(vault_id, owner);
    assert_ne!(vault_id, recipient);
    assert_ne!(vault_id, pid);
}

#[test]
fn distinct_inputs_yield_distinct_identities() {
    let pid = id(9);
    let owner = id(1);
    let (v1, _) = derive_vault_identity(&pid, &owner, &id(2), 1_700_000_000).unwrap();
    let (v2, _) = derive_vault_identity(&pid, &owner, &id(3), 1_700_000_000).unwrap();
    let (v3, _) = derive_vault_identity(&pid, &owner, &id(2), 1_700_000_001).unwrap();
    assert_ne!(v1, v2);
    assert_ne!(v1, v3);
}

#[test]
fn same_compares_by_bytes() {
    let a = id(7);
    let b = id(7);
    let c = id(8);
    assert!(a.same(&b));
    assert!(!a.same(&c));
}
