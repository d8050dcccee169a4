//! Lifecycle laws of the vault, proved once and for all inputs.

use vstd::prelude::*;

use crate::derivation::pda_match;
use crate::vault::after_close;
use crate::vault::after_deposit;
use crate::vault::after_withdraw_all;
use crate::vault::bookkeeping_rent;
use crate::vault::deposit_amount_ok;
use crate::vault::phase;
use crate::vault::state_creation_cost;
use crate::vault::Phase;
use crate::vault::Vault;

verus! {

/// Every balance unit the accounts of one owner hold, wherever it sits:
/// with the owner, in the holding account, or retained as the bookkeeping
/// account's rent.
pub open spec fn total_units(v: Vault) -> int {
    v.owner_lamports + v.vault_lamports + if v.bookkeeping is Initialized {
        bookkeeping_rent(v.bookkeeping) as int
    } else {
        0
    }
}

/// No operation creates or loses balance units: a successful deposit,
/// full-drain withdrawal or close only moves them between the owner, the
/// holding account and the bookkeeping account's rent.
pub proof fn lemma_units_conserved(v: Vault, amount: u64, rent_floor: u64, state_rent: u64)
    requires
        deposit_amount_ok(amount, rent_floor),
        amount + state_creation_cost(v, state_rent) <= v.owner_lamports,
        v.vault_lamports + amount <= u64::MAX,
        v.owner_lamports + v.vault_lamports <= u64::MAX,
    ensures
        total_units(after_deposit(v, amount, state_rent)) == total_units(v),
        total_units(after_withdraw_all(v)) == total_units(v),
        v.bookkeeping is Initialized && v.owner_lamports + bookkeeping_rent(v.bookkeeping)
            <= u64::MAX ==> total_units(after_close(v)) == total_units(v),
{
}

/// Depositing `a1` and then `a2` accumulates: the holding account ends
/// with exactly `a1 + a2` more than it began with, and the owner has paid
/// exactly that plus the one-time bookkeeping rent.
pub proof fn lemma_deposit_additive(v: Vault, a1: u64, a2: u64, rent_floor: u64, state_rent: u64)
    requires
        deposit_amount_ok(a1, rent_floor),
        deposit_amount_ok(a2, rent_floor),
        a1 + a2 + state_creation_cost(v, state_rent) <= v.owner_lamports,
        v.vault_lamports + a1 + a2 <= u64::MAX,
    ensures
        after_deposit(after_deposit(v, a1, state_rent), a2, state_rent).vault_lamports
            == v.vault_lamports + a1 + a2,
        after_deposit(after_deposit(v, a1, state_rent), a2, state_rent).owner_lamports
            == v.owner_lamports - a1 - a2 - state_creation_cost(v, state_rent),
{
}

/// The derivation is deterministic: any two executable results that match
/// the same mathematical derivation are the same address and bump.
pub proof fn lemma_derivation_deterministic(
    r1: Option<([u8; 32], u8)>,
    r2: Option<([u8; 32], u8)>,
    d: Option<(Seq<u8>, u8)>,
)
    requires
        pda_match(r1, d),
        pda_match(r2, d),
    ensures
        r1 == r2,
{
    broadcast use vstd::array::group_array_axioms;

    match (r1, r2) {
        (Some(p1), Some(p2)) => {
            assert(p1.0@ == p2.0@);
            assert(p1.0 =~= p2.0);
        },
        _ => {},
    }
}

/// Round trip: withdrawing right after depositing `a` into an empty
/// holding account drains it back to zero and returns to the owner
/// exactly `a` more than the owner held after the deposit.
pub proof fn lemma_deposit_withdraw_round_trip(v: Vault, a: u64, rent_floor: u64, state_rent: u64)
    requires
        v.vault_lamports == 0,
        deposit_amount_ok(a, rent_floor),
        a + state_creation_cost(v, state_rent) <= v.owner_lamports,
    ensures
        after_withdraw_all(after_deposit(v, a, state_rent)).vault_lamports == 0,
        after_withdraw_all(after_deposit(v, a, state_rent)).owner_lamports == after_deposit(
            v,
            a,
            state_rent,
        ).owner_lamports + a,
        after_withdraw_all(after_deposit(v, a, state_rent)).owner_lamports == v.owner_lamports
            - state_creation_cost(v, state_rent),
{
}

/// A successful deposit leaves the vault funded, with its bookkeeping
/// account open.
pub proof fn lemma_deposit_funds(v: Vault, amount: u64, rent_floor: u64, state_rent: u64)
    requires
        deposit_amount_ok(amount, rent_floor),
        v.vault_lamports + amount <= u64::MAX,
    ensures
        phase(after_deposit(v, amount, state_rent)) is Funded,
        after_deposit(v, amount, state_rent).bookkeeping is Initialized,
{
}

/// A full-drain withdrawal moves the vault from funded to drained: the
/// holding account reaches exactly zero and the bookkeeping account is
/// untouched, so a close can follow.
pub proof fn lemma_withdraw_drains(v: Vault)
    requires
        phase(v) is Funded,
        v.bookkeeping is Initialized,
    ensures
        phase(after_withdraw_all(v)) is Drained,
        after_withdraw_all(v).bookkeeping == v.bookkeeping,
{
}

/// A close tears the vault down completely: the bookkeeping account is
/// gone, its rent is back with the owner, and the holding account still
/// holds what it held. Since a close succeeds only on an empty holding
/// account, there is no path from funded straight to closed.
pub proof fn lemma_close_clears(v: Vault)
    requires
        phase(v) is Drained,
        v.owner_lamports + bookkeeping_rent(v.bookkeeping) <= u64::MAX,
    ensures
        phase(after_close(v)) is Uninitialized,
        after_close(v).owner_lamports == v.owner_lamports + bookkeeping_rent(v.bookkeeping),
        after_close(v).vault_lamports == v.vault_lamports,
{
}

} // verus!
