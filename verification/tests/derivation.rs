//! Tests of the deterministic authority derivation and account checks.

use anchor_vault::derivation::address_eq;
use anchor_vault::derivation::check_state_account;
use anchor_vault::derivation::check_vault_account;
use anchor_vault::derivation::derive_state_address;
use anchor_vault::derivation::derive_vault_address;
use anchor_vault::vault::Close;
use anchor_vault::vault::Deposit;
use anchor_vault::vault::VaultAction;
use anchor_vault::vault::Withdraw;

const PROGRAM: [u8; 32] = [7; 32];

/// A fixed-seed generator, good enough to spread owners over the key space.
struct SplitMix {
    state: u64,
}

impl SplitMix {
    fn next_u64(&mut self) -> u64 {
        self.state = self.state.wrapping_add(0x9e3779b97f4a7c15);
        let mut z = self.state;
        z = (z ^ (z >> 30)).wrapping_mul(0xbf58476d1ce4e5b9);
        z = (z ^ (z >> 27)).wrapping_mul(0x94d049bb133111eb);
        z ^ (z >> 31)
    }

    fn next_owner(&mut self) -> [u8; 32] {
        let mut owner = [0u8; 32];
        for chunk in owner.chunks_mut(8) {
            chunk.copy_from_slice(&self.next_u64().to_le_bytes());
        }
        owner
    }
}

#[test]
fn derivation_is_deterministic() {
    let mut rng = SplitMix { state: 1 };
    for _ in 0..100 {
        let owner = rng.next_owner();
        let first = derive_vault_address(&PROGRAM, &owner).unwrap();
        let second = derive_vault_address(&PROGRAM, &owner).unwrap();
        assert_eq!(first, second);
        let first = derive_state_address(&PROGRAM, &owner).unwrap();
        let second = derive_state_address(&PROGRAM, &owner).unwrap();
        assert_eq!(first, second);
    }
}

#[test]
fn distinct_owners_never_collide() {
    let mut rng = SplitMix { state: 2 };
    let mut addresses: Vec<[u8; 32]> = Vec::new();
    for _ in 0..1024 {
        let owner = rng.next_owner();
        let (address, _) = derive_vault_address(&PROGRAM, &owner).unwrap();
        addresses.push(address);
    }
    let count = addresses.len();
    addresses.sort();
    addresses.dedup();
    assert_eq!(addresses.len(), count);
}

#[test]
fn derived_address_is_not_the_owner_or_program() {
    let mut rng = SplitMix { state: 3 };
    for _ in 0..32 {
        let owner = rng.next_owner();
        let (address, _) = derive_vault_address(&PROGRAM, &owner).unwrap();
        assert_ne!(address, owner);
        assert_ne!(address, PROGRAM);
    }
}

#[test]
fn vault_and_state_tags_partition_the_address_space() {
    let mut rng = SplitMix { state: 4 };
    for _ in 0..32 {
        let owner = rng.next_owner();
        let (vault, _) = derive_vault_address(&PROGRAM, &owner).unwrap();
        let (state, _) = derive_state_address(&PROGRAM, &owner).unwrap();
        assert_ne!(vault, state);
    }
}

#[test]
fn address_eq_compares_bytes() {
    let a = [1u8; 32];
    let mut b = [1u8; 32];
    assert!(address_eq(&a, &b));
    b[31] = 2;
    assert!(!address_eq(&a, &b));
}

#[test]
fn check_accepts_only_the_derived_address() {
    let owner = [9u8; 32];
    let (vault, bump) = derive_vault_address(&PROGRAM, &owner).unwrap();
    assert_eq!(check_vault_account(&PROGRAM, &owner, &vault), Some(bump));
    let mut forged = vault;
    forged[0] ^= 1;
    assert_eq!(check_vault_account(&PROGRAM, &owner, &forged), None);
    // The holding account of one owner is not accepted for another.
    let other = [10u8; 32];
    assert_eq!(check_vault_account(&PROGRAM, &other, &vault), None);

    let (state, state_bump) = derive_state_address(&PROGRAM, &owner).unwrap();
    assert_eq!(
        check_state_account(&PROGRAM, &owner, &state),
        Some(state_bump)
    );
    assert_eq!(check_state_account(&PROGRAM, &owner, &vault), None);
}

#[test]
fn request_validation_matches_both_accounts() {
    let owner = [11u8; 32];
    let (vault, vault_bump) = derive_vault_address(&PROGRAM, &owner).unwrap();
    let (state, state_bump) = derive_state_address(&PROGRAM, &owner).unwrap();

    let good = Deposit {
        signer: owner,
        state,
        vault,
    };
    assert_eq!(good.validate(&PROGRAM), Some((state_bump, vault_bump)));

    let swapped = Deposit {
        signer: owner,
        state: vault,
        vault: state,
    };
    assert_eq!(swapped.validate(&PROGRAM), None);

    let withdraw = Withdraw {
        signer: owner,
        state,
        vault,
    };
    assert_eq!(withdraw.validate(&PROGRAM), Some((state_bump, vault_bump)));

    let close = Close {
        signer: [12u8; 32],
        state,
        vault,
    };
    // Another signer's accounts do not validate.
    assert_eq!(close.validate(&PROGRAM), None);
    let close = Close {
        signer: owner,
        state,
        vault,
    };
    assert_eq!(close.validate(&PROGRAM), Some((state_bump, vault_bump)));

    let action = VaultAction {
        signer: owner,
        vault,
    };
    assert_eq!(action.validate(&PROGRAM), Some(vault_bump));
    let wrong = VaultAction {
        signer: owner,
        vault: state,
    };
    assert_eq!(wrong.validate(&PROGRAM), None);
}
