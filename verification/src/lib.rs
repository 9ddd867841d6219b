//! A staking ledger for a contract that delegates its callers' funds to a
//! staking service, with the bookkeeping and the sequencing of each operation
//! verified by Verus.
//!
//! * [`ledger`] keeps what each account has staked.
//! * [`contract`] holds the contract's state and starts its operations.
//! * [`operation`] carries an operation on from one answer of the host to the
//!   next.
//! * [`laws`] states what holds across several calls.

pub mod account;
pub mod contract;
pub mod error;
pub mod event;
pub mod laws;
pub mod ledger;
pub mod operation;

pub use account::{AccountId, Balance, Era};
pub use contract::StakingContract;
pub use error::ContractError;
pub use event::{Event, Staked, Unstaked};
pub use ledger::{Overflow, StakeLedger, Underflow};
pub use operation::{Outcome, PendingEvent, Refund, ServiceCall, Step};
