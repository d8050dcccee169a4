use vstd::prelude::*;

verus! {

/// The ways a vault request can fail.
///
/// Every failure aborts the whole request: no balance or bookkeeping
/// mutation survives a failed precondition check.
#[derive(Clone, Copy, Debug, PartialEq, Eq, Structural)]
pub enum VaultError {
    /// A deposit of zero, a deposit at or below the rent-exemption floor,
    /// or a withdrawal from an empty holding account.
    InvalidAmount,
    /// A withdrawal of more than the holding account currently holds.
    InsufficientFunds,
    /// A close attempted while the holding account still holds funds.
    VaultNotEmpty,
    /// A deposit into an already funded holding account, under the policy
    /// that rejects top-ups.
    VaultAlreadyExists,
}

} // verus!
