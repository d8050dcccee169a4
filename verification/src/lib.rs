//! A minimal custodial vault over a ledger of balance-bearing accounts.
//!
//! An owner deposits balance units into a holding account whose address is
//! derived deterministically from the owner's identity and a fixed tag, so
//! that the account has no signing key of its own and control is proven by
//! re-deriving the address. The owner can later withdraw the funds and close
//! the auxiliary bookkeeping account to reclaim its rent.
//!
//! The crate is split into the address derivation primitive
//! ([`derivation`]), the per-request state machine over balances and
//! bookkeeping state ([`vault`]), its error type ([`error`]), and the
//! lifecycle laws proved about them ([`laws`]).

pub mod derivation;
pub mod error;
pub mod laws;
pub mod vault;
