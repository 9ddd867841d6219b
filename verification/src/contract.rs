//! The staking contract: the ledger of its callers' stakes and the operations
//! that change it.
//!
//! Every operation first settles the arithmetic on the ledger and writes the
//! new balance, and only then asks the host to call the staking service (see
//! [`crate::operation`]). The ledger is not written a second time: when the
//! service refuses the call, or the transfer back to the caller fails, the
//! operation reports the failure and the ledger keeps the balance that was
//! written. A host that wants all or nothing discards the contract's state
//! when an operation fails.

use crate::account::{AccountId, Balance};
use crate::error::ContractError;
use crate::ledger::{lookup, no_zero_entry, stake_of, stored, StakeLedger};
use crate::operation::{ServiceCall, Step};
use vstd::prelude::*;

verus! {

/// The ledger after `caller` has started to bond `value`: the caller's stake
/// has grown by `value` if the sum fits the balance type, and nothing has
/// changed if it does not.
pub open spec fn bond_ledger(
    stakes: Map<AccountId, Balance>,
    caller: AccountId,
    value: Balance,
) -> Map<AccountId, Balance> {
    if stake_of(stakes, caller) + value <= Balance::MAX {
        stored(stakes, caller, (stake_of(stakes, caller) + value) as Balance)
    } else {
        stakes
    }
}

/// The first step of bonding `value` for `caller`: the call to the staking
/// service if the new stake fits the balance type, and the end with
/// `AddOverFlow` if it does not.
pub open spec fn bond_step<E>(
    stakes: Map<AccountId, Balance>,
    caller: AccountId,
    value: Balance,
) -> Step<E> {
    if stake_of(stakes, caller) + value <= Balance::MAX {
        Step::Call(ServiceCall::Bond { caller, amount: value })
    } else {
        Step::Done(Err(ContractError::AddOverFlow))
    }
}

/// The ledger after `caller` has started to unbond `value`: the caller's
/// stake has shrunk by `value` if it was at least that, and nothing has
/// changed if it was less.
pub open spec fn unbond_ledger(
    stakes: Map<AccountId, Balance>,
    caller: AccountId,
    value: Balance,
) -> Map<AccountId, Balance> {
    if value <= stake_of(stakes, caller) {
        stored(stakes, caller, (stake_of(stakes, caller) - value) as Balance)
    } else {
        stakes
    }
}

/// The first step of unbonding `value` for `caller`: the call to the staking
/// service if the caller has staked at least `value`, and the end with
/// `SubOverFlow` if it has staked less.
pub open spec fn unbond_step<E>(
    stakes: Map<AccountId, Balance>,
    caller: AccountId,
    value: Balance,
) -> Step<E> {
    if value <= stake_of(stakes, caller) {
        Step::Call(ServiceCall::Unbond { caller, amount: value })
    } else {
        Step::Done(Err(ContractError::SubOverFlow))
    }
}

/// The contract's state: what each account has staked through it.
pub struct StakingContract {
    stakers: StakeLedger,
}

impl View for StakingContract {
    type V = Map<AccountId, Balance>;

    closed spec fn view(&self) -> Map<AccountId, Balance> {
        self.stakers@
    }
}

impl StakingContract {
    /// The contract as it is deployed: nobody has staked.
    pub fn default() -> (contract: Self)
        ensures
            contract@ == Map::<AccountId, Balance>::empty(),
    {
        StakingContract { stakers: StakeLedger::new() }
    }

    /// The contract over a ledger that exists already.
    pub fn with_stakers(stakers: StakeLedger) -> (contract: Self)
        ensures
            contract@ == stakers@,
    {
        StakingContract { stakers }
    }

    /// The ledger of the contract.
    pub fn stakers(&self) -> (stakers: &StakeLedger)
        ensures
            stakers@ == self@,
    {
        &self.stakers
    }

    /// What `account` has staked through the contract, or nothing if it has
    /// no stake. The ledger does not change.
    pub fn get_staked_amount(&self, account: AccountId) -> (staked: Option<Balance>)
        ensures
            staked == lookup(self@, account),
            staked != Some(0u128),
            no_zero_entry(self@),
    {
        self.stakers.get(account)
    }

    /// Starts the bonding of `value`, which `caller` has sent along, to the
    /// caller's stake.
    ///
    /// If the new stake does not fit the balance type, the operation is over
    /// with `AddOverFlow` and the ledger is as it was. Otherwise the new stake
    /// is written to the ledger and the host is asked to bond `value` with the
    /// staking service. The ledger keeps the new stake whatever the service
    /// answers.
    pub fn bond_and_stake<E>(&mut self, caller: AccountId, value: Balance) -> (next: Step<E>)
        ensures
            final(self)@ == bond_ledger(old(self)@, caller, value),
            next == bond_step::<E>(old(self)@, caller, value),
            stake_of(old(self)@, caller) + value > Balance::MAX ==> final(self)@ == old(self)@
                && next == Step::<E>::Done(Err(ContractError::AddOverFlow)),
            no_zero_entry(final(self)@),
    {
        match self.stakers.credit(caller, value) {
            Err(_) => Step::Done(Err(ContractError::AddOverFlow)),
            Ok(new_stake) => {
                self.stakers.store(caller, new_stake);
                Step::Call(ServiceCall::Bond { caller, amount: value })
            },
        }
    }

    /// Starts the unbonding of `value` from the stake of `caller`.
    ///
    /// If the caller has staked less than `value`, and so too if it has no
    /// stake and `value` is not zero, the operation is over with `SubOverFlow`
    /// and the ledger is as it was. Otherwise the rest of the stake is written
    /// to the ledger, which removes the entry when nothing is left, and the
    /// host is asked to unbond `value` with the staking service. The ledger
    /// keeps the rest whatever the service answers and whether or not the
    /// funds can be paid back.
    pub fn unbond_and_unstake<E>(&mut self, caller: AccountId, value: Balance) -> (next: Step<E>)
        ensures
            final(self)@ == unbond_ledger(old(self)@, caller, value),
            next == unbond_step::<E>(old(self)@, caller, value),
            value > stake_of(old(self)@, caller) ==> final(self)@ == old(self)@ && next
                == Step::<E>::Done(Err(ContractError::SubOverFlow)),
            no_zero_entry(final(self)@),
    {
        match self.stakers.debit(caller, value) {
            Err(_) => Step::Done(Err(ContractError::SubOverFlow)),
            Ok(new_stake) => {
                self.stakers.store(caller, new_stake);
                Step::Call(ServiceCall::Unbond { caller, amount: value })
            },
        }
    }

    /// Starts the withdrawal of what has finished unbonding: the host is asked
    /// to withdraw it from the staking service. The ledger does not change.
    pub fn withdraw_unbonded<E>(&mut self) -> (next: Step<E>)
        ensures
            final(self)@ == old(self)@,
            next == Step::<E>::Call(ServiceCall::Withdraw),
    {
        Step::Call(ServiceCall::Withdraw)
    }
}

} // verus!
