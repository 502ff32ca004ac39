//! The event records the vault hands to its event sink: one record is
//! appended per successful state-changing call, never on failure. The vault
//! keeps the ordered sequence itself, so a host can drain and forward it.

use vstd::prelude::*;
use crate::AccountId;
use crate::Balance;

verus! {

/// A movement of shares. A mint carries no source and a burn would carry no
/// destination.
#[derive(Clone, Copy, Debug, PartialEq, Eq)]
pub struct Transfer {
    pub from: Option<AccountId>,
    pub to: Option<AccountId>,
    pub value: Balance,
}

/// `owner` allowed `spender` to move up to `value` shares on its behalf.
#[derive(Clone, Copy, Debug, PartialEq, Eq)]
pub struct Approval {
    pub owner: AccountId,
    pub spender: AccountId,
    pub value: Balance,
}

/// `sender` put `assets` units of the underlying asset into the vault's
/// custody and `owner` was credited `shares` vault shares for them.
#[derive(Clone, Copy, Debug, PartialEq, Eq)]
pub struct Deposit {
    pub sender: AccountId,
    pub owner: AccountId,
    pub assets: Balance,
    pub shares: Balance,
}

/// `sender` burned `shares` of `owner`'s vault shares and `assets` units of
/// the underlying asset left the vault's custody toward `receiver`.
#[derive(Clone, Copy, Debug, PartialEq, Eq)]
pub struct Withdraw {
    pub sender: AccountId,
    pub receiver: AccountId,
    pub owner: AccountId,
    pub assets: Balance,
    pub shares: Balance,
}

/// One record in the vault's event sequence.
#[derive(Clone, Copy, Debug, PartialEq, Eq)]
pub enum Event {
    Transfer(Transfer),
    Approval(Approval),
    Deposit(Deposit),
    Withdraw(Withdraw),
}

} // verus!
