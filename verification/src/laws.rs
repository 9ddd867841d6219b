//! What holds of the contract across several calls.
//!
//! The functions of [`crate::contract`] and [`crate::operation`] state what a
//! single call does. The proof functions here state what follows for a whole
//! operation, from its first step to its end, and for operations that follow
//! one another. They speak of the ledger by its view and of the host by the
//! [`Answers`] that it gives.

use crate::account::{AccountId, Balance};
use crate::contract::{bond_ledger, bond_step, unbond_ledger, unbond_step};
use crate::error::ContractError;
use crate::event::{Event, Staked, Unstaked};
use crate::ledger::{lookup, no_zero_entry, stake_of, stored};
use crate::operation::{Answers, Outcome, PendingEvent, Refund, ServiceCall, Step};
use vstd::prelude::*;

verus! {

/// Storing a balance for an account makes that balance the account's stake
/// and leaves every other account's entry as it was.
pub proof fn law_store_touches_one_account(
    stakes: Map<AccountId, Balance>,
    account: AccountId,
    balance: Balance,
    other: AccountId,
)
    ensures
        stake_of(stored(stakes, account, balance), account) == balance,
        lookup(stored(stakes, account, balance), account) == (if balance == 0 {
            None
        } else {
            Some(balance)
        }),
        other != account ==> lookup(stored(stakes, account, balance), other) == lookup(
            stakes,
            other,
        ),
{
}

/// A ledger without an entry of zero stays one, whatever is stored and
/// whichever operation is started.
pub proof fn law_no_zero_entry_is_kept(
    stakes: Map<AccountId, Balance>,
    account: AccountId,
    value: Balance,
)
    requires
        no_zero_entry(stakes),
    ensures
        no_zero_entry(stored(stakes, account, value)),
        no_zero_entry(bond_ledger(stakes, account, value)),
        no_zero_entry(unbond_ledger(stakes, account, value)),
{
}

/// In a ledger without an entry of zero, an account has an entry exactly when
/// it has staked something.
pub proof fn law_entry_iff_staked(stakes: Map<AccountId, Balance>, account: AccountId)
    requires
        no_zero_entry(stakes),
    ensures
        stakes.dom().contains(account) <==> stake_of(stakes, account) > 0,
        lookup(stakes, account) is Some <==> stake_of(stakes, account) > 0,
{
}

/// Bonding `first` and then `second` for one account, where the account's
/// stake and the two amounts together fit the balance type, raises the stake
/// by their sum. For an account that had no stake, the stake is then
/// `first + second`.
pub proof fn law_bond_twice<E>(
    stakes: Map<AccountId, Balance>,
    account: AccountId,
    first: Balance,
    second: Balance,
)
    requires
        stake_of(stakes, account) + first + second <= Balance::MAX,
    ensures
        stake_of(bond_ledger(bond_ledger(stakes, account, first), account, second), account)
            == stake_of(stakes, account) + first + second,
        !stakes.dom().contains(account) ==> stake_of(
            bond_ledger(bond_ledger(stakes, account, first), account, second),
            account,
        ) == first + second,
        first + second > 0 ==> lookup(
            bond_ledger(bond_ledger(stakes, account, first), account, second),
            account,
        ) == Some((stake_of(stakes, account) + first + second) as Balance),
        bond_step::<E>(stakes, account, first) == Step::<E>::Call(
            (ServiceCall::Bond { caller: account, amount: first }),
        ),
        bond_step::<E>(bond_ledger(stakes, account, first), account, second) == Step::<E>::Call(
            (ServiceCall::Bond { caller: account, amount: second }),
        ),
{
}

/// Bonding an amount and then unbonding the same amount leaves the account
/// with the stake that it had.
pub proof fn law_bond_then_unbond(
    stakes: Map<AccountId, Balance>,
    account: AccountId,
    value: Balance,
)
    requires
        no_zero_entry(stakes),
        stake_of(stakes, account) + value <= Balance::MAX,
    ensures
        unbond_ledger(bond_ledger(stakes, account, value), account, value) == stakes,
{
    assert(unbond_ledger(bond_ledger(stakes, account, value), account, value) =~= stakes);
}

/// Unbonding more than the account has staked changes nothing, and the
/// operation is over with `SubOverFlow`. An account without a stake cannot
/// unbond any amount but zero.
pub proof fn law_unbond_too_much<E>(
    stakes: Map<AccountId, Balance>,
    account: AccountId,
    value: Balance,
    answers: Answers<E>,
)
    requires
        value > stake_of(stakes, account),
    ensures
        unbond_ledger(stakes, account, value) == stakes,
        unbond_step::<E>(stakes, account, value).outcome(answers) == Outcome::<E>::Err(
            ContractError::SubOverFlow,
        ),
{
}

/// An account without an entry cannot unbond: whatever amount above zero it
/// asks for, the operation is over with `SubOverFlow` and the account still
/// has no entry.
pub proof fn law_unbond_without_stake<E>(
    stakes: Map<AccountId, Balance>,
    account: AccountId,
    value: Balance,
    answers: Answers<E>,
)
    requires
        !stakes.dom().contains(account),
        value > 0,
    ensures
        unbond_step::<E>(stakes, account, value) == Step::<E>::Done(
            Err(ContractError::SubOverFlow),
        ),
        unbond_step::<E>(stakes, account, value).outcome(answers) == Outcome::<E>::Err(
            ContractError::SubOverFlow,
        ),
        lookup(unbond_ledger(stakes, account, value), account) == None::<Balance>,
{
}

/// Unbonding exactly what the account has staked removes its entry: a lookup
/// then finds nothing, and the other entries are as they were.
pub proof fn law_unbond_everything<E>(stakes: Map<AccountId, Balance>, account: AccountId)
    ensures
        unbond_ledger(stakes, account, stake_of(stakes, account)) == stakes.remove(account),
        lookup(unbond_ledger(stakes, account, stake_of(stakes, account)), account) == None::<
            Balance,
        >,
        unbond_step::<E>(stakes, account, stake_of(stakes, account)) == Step::<E>::Call(
            (ServiceCall::Unbond { caller: account, amount: stake_of(stakes, account) }),
        ),
{
}

/// Bonding an amount that takes the stake over the largest balance changes
/// nothing, and the operation is over with `AddOverFlow`.
pub proof fn law_bond_overflow<E>(
    stakes: Map<AccountId, Balance>,
    account: AccountId,
    value: Balance,
    answers: Answers<E>,
)
    requires
        stake_of(stakes, account) + value > Balance::MAX,
    ensures
        bond_ledger(stakes, account, value) == stakes,
        bond_step::<E>(stakes, account, value).outcome(answers) == Outcome::<E>::Err(
            ContractError::AddOverFlow,
        ),
{
}

/// When the staking service refuses the bond, the operation ends with the
/// service's error, wrapped and otherwise as it came. The ledger has been
/// written before the call and keeps the new stake.
pub proof fn law_refused_bond<E>(
    stakes: Map<AccountId, Balance>,
    account: AccountId,
    value: Balance,
    answers: Answers<E>,
    error: E,
)
    requires
        stake_of(stakes, account) + value <= Balance::MAX,
        answers.service == Err::<(), E>(error),
    ensures
        bond_step::<E>(stakes, account, value).outcome(answers) == Outcome::<E>::Err(
            ContractError::DSError(error),
        ),
        stake_of(bond_ledger(stakes, account, value), account) == stake_of(stakes, account)
            + value,
{
    reveal_with_fuel(Step::outcome, 2);
}

/// How a bonding ends, from its first step on: with `AddOverFlow` if the new
/// stake does not fit, else with the service's error if it refuses the bond,
/// else well, with a `Staked` event for the caller, the amount and the era
/// that the service gave.
pub proof fn law_bonding<E>(
    stakes: Map<AccountId, Balance>,
    caller: AccountId,
    value: Balance,
    answers: Answers<E>,
)
    ensures
        bond_step::<E>(stakes, caller, value).outcome(answers) == (if stake_of(stakes, caller)
            + value > Balance::MAX {
            Outcome::<E>::Err(ContractError::AddOverFlow)
        } else {
            match answers.service {
                Err(error) => Err(ContractError::DSError(error)),
                Ok(_) => Ok(
                    Some(
                        Event::Staked(Staked { account: caller, era: answers.era, amount: value }),
                    ),
                ),
            }
        }),
{
    reveal_with_fuel(Step::outcome, 3);
}

/// How an unbonding ends, from its first step on: with `SubOverFlow` if the
/// caller has staked less, else with the service's error if it refuses the
/// unbond, else with `TransferError` if the amount cannot be paid back, else
/// well, with an `Unstaked` event for the caller, the amount and the era that
/// the service gave.
pub proof fn law_unbonding<E>(
    stakes: Map<AccountId, Balance>,
    caller: AccountId,
    value: Balance,
    answers: Answers<E>,
)
    ensures
        unbond_step::<E>(stakes, caller, value).outcome(answers) == (if value > stake_of(
            stakes,
            caller,
        ) {
            Outcome::<E>::Err(ContractError::SubOverFlow)
        } else {
            match answers.service {
                Err(error) => Err(ContractError::DSError(error)),
                Ok(_) => if answers.moved {
                    Ok(
                        Some(
                            Event::Unstaked(
                                Unstaked { account: caller, era: answers.era, amount: value },
                            ),
                        ),
                    )
                } else {
                    Err(ContractError::TransferError)
                },
            }
        }),
{
    reveal_with_fuel(Step::outcome, 4);
}

/// How a withdrawal ends: with the service's error if it refuses, else well
/// and without an event.
pub proof fn law_withdrawing<E>(answers: Answers<E>)
    ensures
        Step::<E>::Call(ServiceCall::Withdraw).outcome(answers) == (match answers.service {
            Err(error) => Outcome::<E>::Err(ContractError::DSError(error)),
            Ok(_) => Ok(None),
        }),
{
    reveal_with_fuel(Step::outcome, 2);
}

/// An operation changes the entry of its caller and no other.
pub proof fn law_operation_touches_only_the_caller(
    stakes: Map<AccountId, Balance>,
    caller: AccountId,
    value: Balance,
    other: AccountId,
)
    requires
        other != caller,
    ensures
        lookup(bond_ledger(stakes, caller, value), other) == lookup(stakes, other),
        lookup(unbond_ledger(stakes, caller, value), other) == lookup(stakes, other),
{
}

/// An operation that has called the staking service does not end well unless
/// the service accepted the call, and an unbonding does not end well unless
/// the funds were paid back as well.
pub proof fn law_success_needs_the_service<E>(call: ServiceCall, answers: Answers<E>)
    requires
        Step::<E>::Call(call).outcome(answers) is Ok,
    ensures
        answers.service is Ok,
        call is Unbond ==> answers.moved,
{
    reveal_with_fuel(Step::outcome, 4);
}

/// Every step but the last brings the operation nearer to its end, so that no
/// operation asks its host for more than three answers.
pub proof fn law_operation_ends<E>(step: Step<E>, answers: Answers<E>)
    ensures
        step.remaining() <= 3,
        !(step is Done) ==> step.next(answers).remaining() < step.remaining(),
        step is Done ==> step.next(answers) == step,
        step.next(answers).next(answers).next(answers) is Done,
{
}

/// Funds are paid back only after the staking service has accepted an unbond
/// of the same amount for the same account. The era is read for a `Staked`
/// event only after the service has accepted that bond, and for an `Unstaked`
/// event only after the funds were paid back.
pub proof fn law_steps_follow_success<E>(
    call: ServiceCall,
    outcome: Result<(), E>,
    refund: Refund,
    moved: bool,
)
    ensures
        call.answered(outcome) matches Step::Transfer(asked) ==> outcome is Ok && call
            == (ServiceCall::Unbond { caller: asked.to, amount: asked.amount }),
        call.answered(outcome) matches Step::ReadEra(pending) ==> outcome is Ok && pending
            is Staked && call == (ServiceCall::Bond {
            caller: pending->Staked_account,
            amount: pending->Staked_amount,
        }),
        refund.settled::<E>(moved) matches Step::ReadEra(pending) ==> moved && pending
            == (PendingEvent::Unstaked { account: refund.to, amount: refund.amount }),
        !(refund.settled::<E>(moved) is Transfer) && !(refund.settled::<E>(moved) is Call),
        !(call.answered(outcome) is Call),
{
}

} // verus!
