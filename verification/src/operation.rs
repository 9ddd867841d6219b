//! The course of one operation between the contract and its host.
//!
//! The contract itself never talks to the staking service, moves funds or
//! writes to the event log: its host does. An operation therefore runs as a
//! dialogue. Each function here takes what the host has just learned and
//! answers with a [`Step`]: the next thing for the host to do, together with
//! the state that the operation has reached, or the end of the operation.
//!
//! ```text
//! bond      Call(Bond)     -ok->  ReadEra(Staked)    -era->  Done(Ok(Staked))
//! unbond    Call(Unbond)   -ok->  Transfer(Refund)   -moved->
//!                                 ReadEra(Unstaked)  -era->  Done(Ok(Unstaked))
//! withdraw  Call(Withdraw) -ok->  Done(Ok(None))
//! ```
//!
//! A call that the service refuses ends the operation with the service's own
//! error; a transfer that fails ends it with `TransferError`.

use crate::account::{AccountId, Balance, Era};
use crate::error::ContractError;
use crate::event::{Event, Staked, Unstaked};
use vstd::prelude::*;

verus! {

/// How an operation ended: the event to log, if it succeeded and has one, or
/// the failure to report.
pub type Outcome<E> = Result<Option<Event>, ContractError<E>>;

/// A call to the staking service that an operation is waiting on. The service
/// books every call under the contract's own account; `caller` is the account
/// on whose behalf the contract makes it.
#[derive(Clone, Copy, Debug, PartialEq, Eq)]
pub enum ServiceCall {
    /// Bond and stake `amount`.
    Bond { caller: AccountId, amount: Balance },
    /// Unbond and unstake `amount`.
    Unbond { caller: AccountId, amount: Balance },
    /// Withdraw what has finished unbonding.
    Withdraw,
}

/// A transfer from the contract to `to` that an operation is waiting on.
#[derive(Clone, Copy, Debug, PartialEq, Eq)]
pub struct Refund {
    pub to: AccountId,
    pub amount: Balance,
}

/// An event that is complete but for the era in which it happened.
#[derive(Clone, Copy, Debug, PartialEq, Eq)]
pub enum PendingEvent {
    Staked { account: AccountId, amount: Balance },
    Unstaked { account: AccountId, amount: Balance },
}

/// What the host does next for an operation.
#[derive(Debug, PartialEq, Eq)]
pub enum Step<E> {
    /// Make the call to the staking service, then go on with
    /// [`ServiceCall::answered`].
    Call(ServiceCall),
    /// Make the transfer, then go on with [`Refund::settled`].
    Transfer(Refund),
    /// Ask the staking service for the current era, then go on with
    /// [`PendingEvent::stamped`].
    ReadEra(PendingEvent),
    /// Nothing more: log the event, if there is one, and report the result.
    Done(Outcome<E>),
}

impl ServiceCall {
    /// The step that follows the service's answer to this call.
    ///
    /// An error ends the operation and is reported as it came. After a bond
    /// that the service accepted, the era is read for the `Staked` event;
    /// after an unbond, the amount is paid back to the caller; a withdrawal
    /// is over.
    pub open spec fn spec_answered<E>(self, outcome: Result<(), E>) -> Step<E> {
        match outcome {
            Err(error) => Step::Done(Err(ContractError::DSError(error))),
            Ok(_) => match self {
                ServiceCall::Bond { caller, amount } => Step::ReadEra(
                    PendingEvent::Staked { account: caller, amount },
                ),
                ServiceCall::Unbond { caller, amount } => Step::Transfer(
                    Refund { to: caller, amount },
                ),
                ServiceCall::Withdraw => Step::Done(Ok(None)),
            },
        }
    }

    /// Goes on after the staking service has answered this call with
    /// `outcome`.
    #[verifier::when_used_as_spec(spec_answered)]
    pub fn answered<E>(self, outcome: Result<(), E>) -> (next: Step<E>)
        ensures
            next == self.spec_answered(outcome),
            outcome matches Err(error) ==> next == Step::Done(
                Err(ContractError::DSError(error)),
            ),
    {
        match outcome {
            Err(error) => Step::Done(Err(ContractError::from(error))),
            Ok(_) => match self {
                ServiceCall::Bond { caller, amount } => Step::ReadEra(
                    PendingEvent::Staked { account: caller, amount },
                ),
                ServiceCall::Unbond { caller, amount } => Step::Transfer(
                    Refund { to: caller, amount },
                ),
                ServiceCall::Withdraw => Step::Done(Ok(None)),
            },
        }
    }
}

impl Refund {
    /// The step that follows the transfer: the era is read for the
    /// `Unstaked` event if the funds were moved, and the operation ends with
    /// `TransferError` if they were not.
    pub open spec fn spec_settled<E>(self, moved: bool) -> Step<E> {
        if moved {
            Step::ReadEra(PendingEvent::Unstaked { account: self.to, amount: self.amount })
        } else {
            Step::Done(Err(ContractError::TransferError))
        }
    }

    /// Goes on after the host has tried the transfer; `moved` says whether
    /// the funds reached the account.
    #[verifier::when_used_as_spec(spec_settled)]
    pub fn settled<E>(self, moved: bool) -> (next: Step<E>)
        ensures
            next == self.spec_settled::<E>(moved),
    {
        if moved {
            Step::ReadEra(PendingEvent::Unstaked { account: self.to, amount: self.amount })
        } else {
            Step::Done(Err(ContractError::TransferError))
        }
    }
}

impl PendingEvent {
    /// The step that follows the reading of the era: the operation ends well,
    /// with the event to log, which now holds the era.
    pub open spec fn spec_stamped<E>(self, era: Era) -> Step<E> {
        Step::Done(
            Ok(
                Some(
                    match self {
                        PendingEvent::Staked { account, amount } => Event::Staked(
                            Staked { account, era, amount },
                        ),
                        PendingEvent::Unstaked { account, amount } => Event::Unstaked(
                            Unstaked { account, era, amount },
                        ),
                    },
                ),
            ),
        )
    }

    /// Goes on after the staking service has given the current era.
    #[verifier::when_used_as_spec(spec_stamped)]
    pub fn stamped<E>(self, era: Era) -> (next: Step<E>)
        ensures
            next == self.spec_stamped::<E>(era),
    {
        let event = match self {
            PendingEvent::Staked { account, amount } => Event::Staked(
                Staked { account, era, amount },
            ),
            PendingEvent::Unstaked { account, amount } => Event::Unstaked(
                Unstaked { account, era, amount },
            ),
        };
        Step::Done(Ok(Some(event)))
    }
}

/// What the world outside the contract answers while one operation runs: the
/// staking service to the call, the host to the transfer, and the staking
/// service when asked for the era. An operation may end before it has asked
/// for all three. Specifications use this type to say how an operation ends;
/// a host gives its answers one by one.
pub struct Answers<E> {
    pub service: Result<(), E>,
    pub moved: bool,
    pub era: Era,
}

impl<E> Step<E> {
    /// An upper bound on the number of answers that the operation still needs.
    pub open spec fn remaining(self) -> nat {
        match self {
            Step::Call(_) => 3,
            Step::Transfer(_) => 2,
            Step::ReadEra(_) => 1,
            Step::Done(_) => 0,
        }
    }

    /// The step that follows this one under the given answers. A finished
    /// operation stays as it is.
    pub open spec fn next(self, answers: Answers<E>) -> Step<E> {
        match self {
            Step::Call(call) => call.answered(answers.service),
            Step::Transfer(refund) => refund.settled(answers.moved),
            Step::ReadEra(pending) => pending.stamped(answers.era),
            Step::Done(outcome) => Step::Done(outcome),
        }
    }

    /// How the operation ends when it is carried on from this step under the
    /// given answers.
    pub open spec fn outcome(self, answers: Answers<E>) -> Outcome<E>
        decreases self.remaining(),
    {
        match self {
            Step::Done(outcome) => outcome,
            _ => self.next(answers).outcome(answers),
        }
    }
}

} // verus!
