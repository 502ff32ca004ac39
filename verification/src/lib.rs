//! A tokenized-vault ledger: depositors exchange an underlying asset for
//! fungible shares representing proportional claims on a pooled balance, and
//! later redeem shares back for the underlying asset.
//!
//! The crate holds the vault's bookkeeping core: the asset/share conversion
//! arithmetic, the balance and allowance ledgers with their transfer and
//! spend rules, and the deposit/mint/withdraw/redeem state transitions. The
//! host execution environment that dispatches calls, persists storage, moves
//! the underlying asset and carries events is an external collaborator: it
//! hands the vault plain values (the caller, the value transferred alongside
//! a call, the outcome of a runtime asset transfer) and receives plain values
//! back.

pub mod allowance;
pub mod asset;
pub mod conversion;
pub mod events;
pub mod ledger;
pub mod store;
pub mod vault;

use vstd::prelude::*;

verus! {

/// An account identifier, opaque to the vault: the ledger only ever compares
/// identifiers for equality.
pub type AccountId = u128;

/// An amount, either of vault shares or of the underlying asset.
pub type Balance = u128;

} // verus!
