//! Deterministic vault identities.
//!
//! A vault is addressed by a 32-byte identity derived from the depositor, the
//! designated recipient and the unlock time, under a fixed domain-separation
//! tag and the program's own identity. The derivation also yields a one-byte
//! bump proof from which the vault's scoped signing authority can later be
//! reconstructed.
//!
//! The derivation inputs are the same for native and token vaults: an owner
//! may hold any number of concurrent vaults of either kind, but at most one
//! vault — of whichever kind — per `(owner, recipient, unlock time)` triple.

use vstd::prelude::*;

verus! {

/// A 32-byte account identity on the hosting ledger.
#[derive(Clone, Copy, Debug, PartialEq, Eq)]
pub struct AccountId {
    pub bytes: [u8; 32],
}

impl View for AccountId {
    type V = Seq<u8>;

    open spec fn view(&self) -> Seq<u8> {
        self.bytes@
    }
}

impl AccountId {
    /// Byte-wise equality of two account identities.
    pub fn same(&self, other: &AccountId) -> (r: bool)
        ensures
            r == (self@ == other@),
    {
        let mut i: usize = 0;
        while i < 32
            invariant
                i <= 32,
                forall|j: int| 0 <= j < i ==> self.bytes@[j] == other.bytes@[j],
            decreases 32 - i,
        {
            if self.bytes[i] != other.bytes[i] {
                assert(self@ != other@);
                return false;
            }
            i += 1;
        }
        assert(self@ =~= other@);
        true
    }
}

/// The address and bump that the hosting ledger's address derivation assigns
/// to a seed list `[tag, owner, recipient, unlock_ts as little-endian bytes]`
/// under `program_id`, or `None` in the statistically improbable event that
/// no bump yields a valid derived address.
pub uninterp spec fn derived_address(
    program_id: Seq<u8>,
    tag: Seq<u8>,
    owner: Seq<u8>,
    recipient: Seq<u8>,
    unlock_ts: i64,
) -> Option<(AccountId, u8)>;

/// The domain-separation tag under which every vault identity is derived:
/// the bytes of the ASCII string "timelock".
pub open spec fn domain_tag_spec() -> Seq<u8> {
    seq![116u8, 105u8, 109u8, 101u8, 108u8, 111u8, 99u8, 107u8]
}

/// The derived identity and bump of the vault for `(owner, recipient,
/// unlock_ts)` under `program_id`, with the library's domain tag.
pub open spec fn spec_derive(
    program_id: Seq<u8>,
    owner: Seq<u8>,
    recipient: Seq<u8>,
    unlock_ts: i64,
) -> Option<(AccountId, u8)> {
    derived_address(program_id, domain_tag_spec(), owner, recipient, unlock_ts)
}

fn domain_tag() -> (r: Vec<u8>)
    ensures
        r@ == domain_tag_spec(),
{
    let mut v: Vec<u8> = Vec::new();
    v.push(116);
    v.push(105);
    v.push(109);
    v.push(101);
    v.push(108);
    v.push(111);
    v.push(99);
    v.push(107);
    assert(v@ =~= domain_tag_spec());
    v
}

/// Relies on `Pubkey::try_find_program_address` (re-exported by
/// `anchor_lang`): the returned address and bump seed are a pure function of
/// the seed bytes and the program id, and `None` comes back only when no bump
/// byte yields a valid derived address. The seed list handed to it is
/// `[tag, owner, recipient, unlock_ts.to_le_bytes()]`.
#[verifier::external_body]
fn try_find_vault_address(
    program_id: &AccountId,
    tag: &Vec<u8>,
    owner: &AccountId,
    recipient: &AccountId,
    unlock_ts: i64,
) -> (r: Option<(AccountId, u8)>)
    ensures
        r == derived_address(program_id@, tag@, owner@, recipient@, unlock_ts),
{
    let pid = anchor_lang::prelude::Pubkey::new_from_array(program_id.bytes);
    let ts = unlock_ts.to_le_bytes();
    let seeds: [&[u8]; 4] = [tag.as_slice(), &owner.bytes, &recipient.bytes, &ts];
    anchor_lang::prelude::Pubkey::try_find_program_address(&seeds, &pid)
        .map(|(pk, bump)| (AccountId { bytes: pk.to_bytes() }, bump))
}

/// Derive the deterministic identity and bump proof of the vault for
/// `(owner, recipient, unlock_ts)` under `program_id`.
pub fn derive_vault_identity(
    program_id: &AccountId,
    owner: &AccountId,
    recipient: &AccountId,
    unlock_ts: i64,
) -> (r: Option<(AccountId, u8)>)
    ensures
        r == spec_derive(program_id@, owner@, recipient@, unlock_ts),
{
    let tag = domain_tag();
    try_find_vault_address(program_id, &tag, owner, recipient, unlock_ts)
}

} // verus!
