//! A conversational front desk for a small ledger of accounts. A language model reads the
//! user's messages and asks for one of four operations (signup, login, transfer, logout); the
//! session checks each request against the operations of its login state, validates the
//! arguments, carries it out on the ledger, and feeds the outcome back to the model.
//!
//! - `account`: the account record and the errors of the ledger.
//! - `ledger`: the store of accounts, with transactional transfer and its laws.
//! - `catalog`: the operations shown to the model, per login state.
//! - `dispatch`: reading and validating the arguments of a requested operation.
//! - `bot`: the session state machine that drives each chat.
use vstd::prelude::*;

pub mod account;
pub mod ledger;
pub mod catalog;
pub mod dispatch;
pub mod bot;

verus! {

/// Builds the error value that carries `msg`.
pub fn new_error<T>(msg: &str) -> (r: Result<T, String>)
    ensures
        r matches Err(e) && e@ == msg@,
{
    Err(msg.to_string())
}

} // verus!
