//! The notifications that the contract hands to its host for the event log.

use crate::account::{AccountId, Balance, Era};
use vstd::prelude::*;

verus! {

/// `amount` was bonded for `account` in `era`.
#[derive(Clone, Copy, Debug, PartialEq, Eq)]
pub struct Staked {
    pub account: AccountId,
    pub era: Era,
    pub amount: Balance,
}

/// `amount` was unbonded for `account` in `era` and paid back to it.
#[derive(Clone, Copy, Debug, PartialEq, Eq)]
pub struct Unstaked {
    pub account: AccountId,
    pub era: Era,
    pub amount: Balance,
}

/// A notification of the contract.
#[derive(Clone, Copy, Debug, PartialEq, Eq)]
pub enum Event {
    Staked(Staked),
    Unstaked(Unstaked),
}

} // verus!
