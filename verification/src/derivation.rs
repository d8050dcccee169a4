//! Deterministic authority derivation.
//!
//! The address of an owner's holding account is a pure function of a fixed
//! seed tag, the owner's identity and the program's own address; the bump
//! returned alongside it guarantees the address has no signing key. Control
//! over such an account is proven by re-deriving the address inside the
//! system and comparing it to the one a caller supplied; this module holds
//! that one trusted boundary and the verified comparison around it.

use vstd::prelude::*;

verus! {

/// The seed tag under which an owner's holding account is derived.
pub open spec fn vault_tag() -> Seq<u8> {
    seq![118u8, 97u8, 117u8, 108u8, 116u8]
}

/// The seed tag under which an owner's bookkeeping account is derived.
pub open spec fn state_tag() -> Seq<u8> {
    seq![115u8, 116u8, 97u8, 116u8, 101u8]
}

/// The holding-account tag, as bytes an outside call can take.
fn vault_tag_bytes() -> (r: [u8; 5])
    ensures
        r@ == vault_tag(),
{
    let r: [u8; 5] = [118, 97, 117, 108, 116];
    proof {
        assert(r@ =~= vault_tag());
    }
    r
}

/// The bookkeeping-account tag, as bytes an outside call can take.
fn state_tag_bytes() -> (r: [u8; 5])
    ensures
        r@ == state_tag(),
{
    let r: [u8; 5] = [115, 116, 97, 116, 101];
    proof {
        assert(r@ =~= state_tag());
    }
    r
}

/// What the derivation primitive returns for a tag, an owner and a program
/// address: the derived address and its bump, or nothing in the
/// statistically improbable event that no viable bump exists.
pub uninterp spec fn pda_of(tag: Seq<u8>, owner: Seq<u8>, program: Seq<u8>) -> Option<(Seq<u8>, u8)>;

/// How an executable derivation result corresponds to the mathematical one.
pub open spec fn pda_match(r: Option<([u8; 32], u8)>, d: Option<(Seq<u8>, u8)>) -> bool {
    match r {
        Some(p) => d == Some((p.0@, p.1)),
        None => d is None,
    }
}

/// Relies on solana_pubkey::Pubkey::try_find_program_address: for a fixed
/// seed list and program id the derived address and bump depend on the
/// arguments alone, and `None` comes back only when no viable bump exists
/// or the seeds break the derivation's limits.
#[verifier::external_body]
fn find_pda(tag: &[u8], owner: &[u8; 32], program: &[u8; 32]) -> (r: Option<([u8; 32], u8)>)
    ensures
        pda_match(r, pda_of(tag@, owner@, program@)),
{
    let program_key = solana_pubkey::Pubkey::new_from_array(*program);
    let found = solana_pubkey::Pubkey::try_find_program_address(&[tag, owner.as_slice()], &program_key);
    found.map(|p| (p.0.to_bytes(), p.1))
}

/// The address and bump of `owner`'s holding account under `program`.
pub fn derive_vault_address(program: &[u8; 32], owner: &[u8; 32]) -> (r: Option<([u8; 32], u8)>)
    ensures
        pda_match(r, pda_of(vault_tag(), owner@, program@)),
{
    let tag = vault_tag_bytes();
    find_pda(tag.as_slice(), owner, program)
}

/// The address and bump of `owner`'s bookkeeping account under `program`.
pub fn derive_state_address(program: &[u8; 32], owner: &[u8; 32]) -> (r: Option<([u8; 32], u8)>)
    ensures
        pda_match(r, pda_of(state_tag(), owner@, program@)),
{
    let tag = state_tag_bytes();
    find_pda(tag.as_slice(), owner, program)
}

/// Byte-for-byte equality of two 32-byte addresses.
pub fn address_eq(a: &[u8; 32], b: &[u8; 32]) -> (r: bool)
    ensures
        r <==> a@ == b@,
{
    let mut i: usize = 0;
    while i < 32
        invariant
            i <= 32,
            forall|j: int| 0 <= j < i ==> a@[j] == b@[j],
        decreases 32 - i,
    {
        if a[i] != b[i] {
            return false;
        }
        i = i + 1;
    }
    proof {
        assert(a@ =~= b@);
    }
    true
}

/// Accepts a caller-supplied holding-account address only if it equals the
/// freshly re-derived one, and hands back the bump that proves authority.
pub fn check_vault_account(program: &[u8; 32], owner: &[u8; 32], supplied: &[u8; 32]) -> (r: Option<
    u8,
>)
    ensures
        match r {
            Some(bump) => pda_of(vault_tag(), owner@, program@) == Some((supplied@, bump)),
            None => (pda_of(vault_tag(), owner@, program@) matches Some(p) ==> p.0 != supplied@),
        },
{
    match derive_vault_address(program, owner) {
        Some(p) => {
            if address_eq(&p.0, supplied) {
                Some(p.1)
            } else {
                None
            }
        },
        None => None,
    }
}

/// Accepts a caller-supplied bookkeeping-account address only if it equals
/// the freshly re-derived one, and hands back its bump.
pub fn check_state_account(program: &[u8; 32], owner: &[u8; 32], supplied: &[u8; 32]) -> (r: Option<
    u8,
>)
    ensures
        match r {
            Some(bump) => pda_of(state_tag(), owner@, program@) == Some((supplied@, bump)),
            None => (pda_of(state_tag(), owner@, program@) matches Some(p) ==> p.0 != supplied@),
        },
{
    match derive_state_address(program, owner) {
        Some(p) => {
            if address_eq(&p.0, supplied) {
                Some(p.1)
            } else {
                None
            }
        },
        None => None,
    }
}

} // verus!
