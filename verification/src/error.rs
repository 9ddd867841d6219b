//! The failures that an operation of the contract reports to its caller.

use vstd::prelude::*;

verus! {

/// Why an operation of the contract failed.
///
/// `E` is the error type of the staking service. The contract never looks
/// inside such an error: it hands it on as it came.
#[derive(Debug, PartialEq, Eq)]
pub enum ContractError<E> {
    /// The funds could not be transferred back to the caller.
    TransferError,
    /// The stake of the caller would exceed the largest representable balance.
    AddOverFlow,
    /// The caller asked to unstake more than it has staked.
    SubOverFlow,
    /// The staking service refused a call.
    DSError(E),
}

impl<E> From<E> for ContractError<E> {
    fn from(error: E) -> (wrapped: Self) {
        ContractError::DSError(error)
    }
}

impl<E> vstd::std_specs::convert::FromSpecImpl<E> for ContractError<E> {
    open spec fn obeys_from_spec() -> bool {
        true
    }

    open spec fn from_spec(error: E) -> Self {
        ContractError::DSError(error)
    }
}

} // verus!
