//! The underlying asset's identity, and the runtime call the vault asks its
//! host to dispatch when assets leave the vault's custody.

use vstd::prelude::*;
use crate::AccountId;
use crate::Balance;

verus! {

/// The kinds of asset the host chain can manage. The vault accounts in the
/// chain's native asset.
#[derive(Clone, Copy, Debug, PartialEq, Eq)]
pub enum ZeitgeistAsset {
    CategoricalOutcome,
    ScalarOutcome,
    CombinatorialOutcome,
    PoolShare,
    Ztg,
    ForeignAsset(u32),
}

/// A call into the host runtime's asset manager.
#[derive(Clone, Copy, Debug, PartialEq, Eq)]
pub enum AssetManagerCall {
    /// Move `amount` units of `currency_id` from the vault's custody to
    /// `dest`.
    Transfer { dest: AccountId, currency_id: ZeitgeistAsset, amount: Balance },
}

/// A call into the host runtime.
#[derive(Clone, Copy, Debug, PartialEq, Eq)]
pub enum RuntimeCall {
    AssetManager(AssetManagerCall),
}

} // verus!
