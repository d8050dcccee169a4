//! The vault state machine.
//!
//! Each request runs as one indivisible unit against a snapshot of the
//! ledger: the owner's balance, the holding account's balance, and the
//! bookkeeping account. The three operations — deposit, withdraw, close —
//! validate their preconditions against that snapshot and either fail with
//! a [`VaultError`], leaving everything unchanged, or return the snapshot
//! as the ledger must look after the request commits.

use vstd::prelude::*;

use crate::derivation::check_state_account;
use crate::derivation::check_vault_account;
use crate::derivation::pda_of;
use crate::derivation::state_tag;
use crate::derivation::vault_tag;
use crate::error::VaultError;

verus! {

/// The record stored in the bookkeeping account. It carries no data: its
/// existence alone marks that the owner's vault has been set up, and the
/// rent it retains is reclaimed when it is closed.
#[derive(Clone, Copy, Debug, PartialEq, Eq, Structural)]
pub struct VaultState {}

/// Whether an owner's bookkeeping account exists on the ledger.
#[derive(Clone, Copy, Debug, PartialEq, Eq, Structural)]
pub enum Bookkeeping {
    /// No bookkeeping account exists yet, or it was closed.
    Uninitialized,
    /// The account exists, holds `state`, and retains `rent` balance units
    /// for rent exemption; `rent` is refunded to the owner on close.
    Initialized { state: VaultState, rent: u64 },
}

/// Whether a deposit may top up an already funded holding account.
#[derive(Clone, Copy, Debug, PartialEq, Eq, Structural)]
pub enum DepositPolicy {
    /// Repeated deposits accumulate in the holding account.
    TopUp,
    /// A deposit is accepted only while the holding account is empty.
    RequireEmpty,
}

/// One owner's slice of the ledger, re-read at the start of each request.
#[derive(Clone, Copy, Debug, PartialEq, Eq, Structural)]
pub struct Vault {
    /// Balance units in the owner's own account.
    pub owner_lamports: u64,
    /// Balance units in the derived holding account.
    pub vault_lamports: u64,
    /// The owner's bookkeeping account.
    pub bookkeeping: Bookkeeping,
}

/// Where an owner's vault stands in its lifecycle. A closed vault is
/// observably the same as one never initialized: the holding account simply
/// sits at zero balance, able to receive future deposits.
#[derive(Clone, Copy, Debug, PartialEq, Eq, Structural)]
pub enum Phase {
    /// No funds and no bookkeeping account.
    Uninitialized,
    /// The holding account holds funds.
    Funded,
    /// The holding account is empty but the bookkeeping account is open.
    Drained,
}

/// The lifecycle phase of a vault snapshot.
pub open spec fn phase(v: Vault) -> Phase {
    if v.vault_lamports > 0 {
        Phase::Funded
    } else if v.bookkeeping is Initialized {
        Phase::Drained
    } else {
        Phase::Uninitialized
    }
}

/// A deposit amount is acceptable when it is positive and strictly above
/// the rent-exemption floor of the holding account, so the account can
/// later be drained back to exactly zero.
pub open spec fn deposit_amount_ok(amount: u64, rent_floor: u64) -> bool {
    amount > 0 && amount > rent_floor
}

/// What lazily creating the bookkeeping account costs the owner: the rent
/// of the new account if none exists yet, nothing otherwise.
pub open spec fn state_creation_cost(v: Vault, state_rent: u64) -> int {
    if v.bookkeeping is Uninitialized {
        state_rent as int
    } else {
        0
    }
}

/// Idempotent lazy initialization: an absent bookkeeping account is
/// created with `state_rent` retained; an existing one is left untouched.
pub open spec fn after_init(b: Bookkeeping, state_rent: u64) -> Bookkeeping {
    if b is Uninitialized {
        Bookkeeping::Initialized { state: VaultState {  }, rent: state_rent }
    } else {
        b
    }
}

/// The rent the bookkeeping account retains.
pub open spec fn bookkeeping_rent(b: Bookkeeping) -> u64
    recommends
        b is Initialized,
{
    b->rent
}

/// The ledger after a successful deposit of `amount`: the owner has paid
/// the amount, plus the bookkeeping account's rent if it had to be
/// created; the holding account has gained the amount.
pub open spec fn after_deposit(v: Vault, amount: u64, state_rent: u64) -> Vault {
    Vault {
        owner_lamports: (v.owner_lamports - amount - state_creation_cost(v, state_rent)) as u64,
        vault_lamports: (v.vault_lamports + amount) as u64,
        bookkeeping: after_init(v.bookkeeping, state_rent),
    }
}

/// The ledger after a successful full-drain withdrawal: the holding
/// account's whole balance has moved to the owner.
pub open spec fn after_withdraw_all(v: Vault) -> Vault {
    Vault {
        owner_lamports: (v.owner_lamports + v.vault_lamports) as u64,
        vault_lamports: 0u64,
        bookkeeping: v.bookkeeping,
    }
}

/// The ledger after a successful partial withdrawal of `amount`.
pub open spec fn after_withdraw(v: Vault, amount: u64) -> Vault {
    Vault {
        owner_lamports: (v.owner_lamports + amount) as u64,
        vault_lamports: (v.vault_lamports - amount) as u64,
        bookkeeping: v.bookkeeping,
    }
}

/// The ledger after a successful close: the bookkeeping account is gone
/// and its retained rent is refunded to the owner.
pub open spec fn after_close(v: Vault) -> Vault {
    Vault {
        owner_lamports: (v.owner_lamports + bookkeeping_rent(v.bookkeeping)) as u64,
        vault_lamports: v.vault_lamports,
        bookkeeping: Bookkeeping::Uninitialized,
    }
}

/// Deposit `amount` balance units into the holding account.
///
/// The amount must be positive and strictly above `rent_floor`, the
/// ledger's minimum retained balance for the holding account; otherwise
/// the request fails with [`VaultError::InvalidAmount`]. Under
/// [`DepositPolicy::RequireEmpty`] a deposit into an already funded
/// holding account fails with [`VaultError::VaultAlreadyExists`]; under
/// [`DepositPolicy::TopUp`] it accumulates. On success the bookkeeping
/// account is created idempotently, paid for by the owner.
pub fn deposit(v: Vault, amount: u64, rent_floor: u64, state_rent: u64, policy: DepositPolicy) -> (r:
    Result<Vault, VaultError>)
    requires
        deposit_amount_ok(amount, rent_floor) && (policy is TopUp || v.vault_lamports == 0)
            ==> amount + state_creation_cost(v, state_rent) <= v.owner_lamports
            && v.vault_lamports + amount <= u64::MAX,
    ensures
        !deposit_amount_ok(amount, rent_floor) ==> r == Err::<Vault, VaultError>(
            VaultError::InvalidAmount,
        ),
        deposit_amount_ok(amount, rent_floor) && policy is RequireEmpty && v.vault_lamports > 0
            ==> r == Err::<Vault, VaultError>(VaultError::VaultAlreadyExists),
        deposit_amount_ok(amount, rent_floor) && (policy is TopUp || v.vault_lamports == 0) ==> r
            == Ok::<Vault, VaultError>(after_deposit(v, amount, state_rent)),
{
    if amount == 0 || amount <= rent_floor {
        return Err(VaultError::InvalidAmount);
    }
    let require_empty = match policy {
        DepositPolicy::RequireEmpty => true,
        DepositPolicy::TopUp => false,
    };
    if require_empty && v.vault_lamports > 0 {
        return Err(VaultError::VaultAlreadyExists);
    }
    let creation: u64 = match v.bookkeeping {
        Bookkeeping::Uninitialized => state_rent,
        Bookkeeping::Initialized { .. } => 0,
    };
    let bookkeeping = match v.bookkeeping {
        Bookkeeping::Uninitialized => Bookkeeping::Initialized {
            state: VaultState {  },
            rent: state_rent,
        },
        b => b,
    };
    Ok(
        Vault {
            owner_lamports: v.owner_lamports - amount - creation,
            vault_lamports: v.vault_lamports + amount,
            bookkeeping,
        },
    )
}

/// Withdraw the holding account's whole balance back to the owner.
///
/// The holding account must hold something; a withdrawal from an empty
/// account fails with [`VaultError::InvalidAmount`]. On success the
/// holding account is drained to exactly zero.
pub fn withdraw(v: Vault) -> (r: Result<Vault, VaultError>)
    requires
        v.vault_lamports > 0 ==> v.owner_lamports + v.vault_lamports <= u64::MAX,
    ensures
        v.vault_lamports == 0 ==> r == Err::<Vault, VaultError>(VaultError::InvalidAmount),
        v.vault_lamports > 0 ==> r == Ok::<Vault, VaultError>(after_withdraw_all(v)),
{
    if v.vault_lamports == 0 {
        return Err(VaultError::InvalidAmount);
    }
    Ok(
        Vault {
            owner_lamports: v.owner_lamports + v.vault_lamports,
            vault_lamports: 0,
            bookkeeping: v.bookkeeping,
        },
    )
}

/// Withdraw `amount` balance units back to the owner.
///
/// The holding account must hold something; a withdrawal from an empty
/// account fails with [`VaultError::InvalidAmount`]. The amount may not
/// exceed the holding account's current balance; otherwise the request
/// fails with [`VaultError::InsufficientFunds`].
pub fn withdraw_amount(v: Vault, amount: u64) -> (r: Result<Vault, VaultError>)
    requires
        v.vault_lamports > 0 && amount <= v.vault_lamports ==> v.owner_lamports + amount
            <= u64::MAX,
    ensures
        v.vault_lamports == 0 ==> r == Err::<Vault, VaultError>(VaultError::InvalidAmount),
        v.vault_lamports > 0 && amount > v.vault_lamports ==> r == Err::<Vault, VaultError>(
            VaultError::InsufficientFunds,
        ),
        v.vault_lamports > 0 && amount <= v.vault_lamports ==> r == Ok::<Vault, VaultError>(
            after_withdraw(v, amount),
        ),
{
    if v.vault_lamports == 0 {
        return Err(VaultError::InvalidAmount);
    }
    if amount > v.vault_lamports {
        return Err(VaultError::InsufficientFunds);
    }
    Ok(
        Vault {
            owner_lamports: v.owner_lamports + amount,
            vault_lamports: v.vault_lamports - amount,
            bookkeeping: v.bookkeeping,
        },
    )
}

/// Close the bookkeeping account, refunding its retained rent to the
/// owner.
///
/// The holding account must be exactly empty; otherwise the request fails
/// with [`VaultError::VaultNotEmpty`], so funds are never stranded by a
/// close. The holding account itself is left in place at zero balance.
pub fn close(v: Vault) -> (r: Result<Vault, VaultError>)
    requires
        v.bookkeeping is Initialized,
        v.vault_lamports == 0 ==> v.owner_lamports + bookkeeping_rent(v.bookkeeping) <= u64::MAX,
    ensures
        v.vault_lamports > 0 ==> r == Err::<Vault, VaultError>(VaultError::VaultNotEmpty),
        v.vault_lamports == 0 ==> r == Ok::<Vault, VaultError>(after_close(v)),
{
    if v.vault_lamports > 0 {
        return Err(VaultError::VaultNotEmpty);
    }
    let rent: u64 = match v.bookkeeping {
        Bookkeeping::Initialized { state: _, rent } => rent,
        Bookkeeping::Uninitialized => 0,
    };
    Ok(
        Vault {
            owner_lamports: v.owner_lamports + rent,
            vault_lamports: v.vault_lamports,
            bookkeeping: Bookkeeping::Uninitialized,
        },
    )
}

/// The accounts a deposit request names: the signing owner, its
/// bookkeeping account and the holding account it targets.
#[derive(Clone, Copy, Debug, PartialEq, Eq)]
pub struct Deposit {
    /// The owner authorizing the request.
    pub signer: [u8; 32],
    /// The caller-supplied bookkeeping-account address.
    pub state: [u8; 32],
    /// The caller-supplied holding-account address.
    pub vault: [u8; 32],
}

/// The accounts a withdraw request names, in the bookkeeping variant.
#[derive(Clone, Copy, Debug, PartialEq, Eq)]
pub struct Withdraw {
    /// The owner authorizing the request.
    pub signer: [u8; 32],
    /// The caller-supplied bookkeeping-account address.
    pub state: [u8; 32],
    /// The caller-supplied holding-account address.
    pub vault: [u8; 32],
}

/// The accounts a close request names.
#[derive(Clone, Copy, Debug, PartialEq, Eq)]
pub struct Close {
    /// The owner authorizing the request.
    pub signer: [u8; 32],
    /// The caller-supplied bookkeeping-account address.
    pub state: [u8; 32],
    /// The caller-supplied holding-account address.
    pub vault: [u8; 32],
}

/// The accounts a request names in the variant without bookkeeping state:
/// just the signing owner and the holding account.
#[derive(Clone, Copy, Debug, PartialEq, Eq)]
pub struct VaultAction {
    /// The owner authorizing the request.
    pub signer: [u8; 32],
    /// The caller-supplied holding-account address.
    pub vault: [u8; 32],
}

/// Both supplied addresses equal the ones re-derived from the signer, with
/// the returned bumps as authority proof.
pub open spec fn accounts_checked(
    program: Seq<u8>,
    signer: Seq<u8>,
    state: Seq<u8>,
    vault: Seq<u8>,
    bumps: (u8, u8),
) -> bool {
    &&& pda_of(state_tag(), signer, program) == Some((state, bumps.0))
    &&& pda_of(vault_tag(), signer, program) == Some((vault, bumps.1))
}

/// Some supplied address is not the derived one.
pub open spec fn accounts_refused(
    program: Seq<u8>,
    signer: Seq<u8>,
    state: Seq<u8>,
    vault: Seq<u8>,
) -> bool {
    ||| (pda_of(state_tag(), signer, program) matches Some(p) ==> p.0 != state)
    ||| (pda_of(vault_tag(), signer, program) matches Some(p) ==> p.0 != vault)
}

/// Re-derives both account addresses from the supplied signer and accepts
/// the bundle only on an exact match, handing back the two bumps.
fn validate_state_and_vault(
    program: &[u8; 32],
    signer: &[u8; 32],
    state: &[u8; 32],
    vault: &[u8; 32],
) -> (r: Option<(u8, u8)>)
    ensures
        match r {
            Some(bumps) => accounts_checked(program@, signer@, state@, vault@, bumps),
            None => accounts_refused(program@, signer@, state@, vault@),
        },
{
    let state_bump = match check_state_account(program, signer, state) {
        Some(b) => b,
        None => {
            return None;
        },
    };
    let vault_bump = match check_vault_account(program, signer, vault) {
        Some(b) => b,
        None => {
            return None;
        },
    };
    Some((state_bump, vault_bump))
}

impl Deposit {
    /// Accepts the request's accounts only when both supplied addresses
    /// equal the ones freshly re-derived from the signer.
    pub fn validate(&self, program: &[u8; 32]) -> (r: Option<(u8, u8)>)
        ensures
            match r {
                Some(bumps) => accounts_checked(
                    program@,
                    self.signer@,
                    self.state@,
                    self.vault@,
                    bumps,
                ),
                None => accounts_refused(program@, self.signer@, self.state@, self.vault@),
            },
    {
        validate_state_and_vault(program, &self.signer, &self.state, &self.vault)
    }
}

impl Withdraw {
    /// Accepts the request's accounts only when both supplied addresses
    /// equal the ones freshly re-derived from the signer.
    pub fn validate(&self, program: &[u8; 32]) -> (r: Option<(u8, u8)>)
        ensures
            match r {
                Some(bumps) => accounts_checked(
                    program@,
                    self.signer@,
                    self.state@,
                    self.vault@,
                    bumps,
                ),
                None => accounts_refused(program@, self.signer@, self.state@, self.vault@),
            },
    {
        validate_state_and_vault(program, &self.signer, &self.state, &self.vault)
    }
}

impl Close {
    /// Accepts the request's accounts only when both supplied addresses
    /// equal the ones freshly re-derived from the signer.
    pub fn validate(&self, program: &[u8; 32]) -> (r: Option<(u8, u8)>)
        ensures
            match r {
                Some(bumps) => accounts_checked(
                    program@,
                    self.signer@,
                    self.state@,
                    self.vault@,
                    bumps,
                ),
                None => accounts_refused(program@, self.signer@, self.state@, self.vault@),
            },
    {
        validate_state_and_vault(program, &self.signer, &self.state, &self.vault)
    }
}

impl VaultAction {
    /// Accepts the request's holding account only when the supplied
    /// address equals the one freshly re-derived from the signer.
    pub fn validate(&self, program: &[u8; 32]) -> (r: Option<u8>)
        ensures
            match r {
                Some(bump) => pda_of(vault_tag(), self.signer@, program@) == Some(
                    (self.vault@, bump),
                ),
                None => (pda_of(vault_tag(), self.signer@, program@) matches Some(p) ==> p.0
                    != self.vault@),
            },
    {
        check_vault_account(program, &self.signer, &self.vault)
    }
}

} // verus!
