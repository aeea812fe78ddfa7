//! The bodies of requests and answers, as plain values.

use vstd::prelude::*;
use vstd::std_specs::convert::FromSpecImpl;
use crate::domain::{Account, AccountId};

verus! {

/// Asks for account `id` to be opened holding `initial`.
#[derive(Debug, Clone, Copy, PartialEq, Eq)]
pub struct CreateAccountRquest {
    pub id: AccountId,
    pub initial: i64,
}

/// The amount of a deposit or of a withdrawal.
#[derive(Debug, Clone, Copy, PartialEq, Eq)]
pub struct AmountRequest {
    pub amount: i64,
}

/// Asks for `amount` to be moved from account `from` to account `to`.
#[derive(Debug, Clone, Copy, PartialEq, Eq)]
pub struct TransferRequest {
    pub from: AccountId,
    pub to: AccountId,
    pub amount: i64,
}

/// An account as shown to the caller.
#[derive(Debug, Clone, Copy, PartialEq, Eq)]
pub struct AccountResponse {
    pub id: AccountId,
    pub balance: i64,
}

impl From<Account> for AccountResponse {
    fn from(acc: Account) -> (response: AccountResponse) {
        AccountResponse { id: acc.id(), balance: acc.balance() }
    }
}

impl FromSpecImpl<Account> for AccountResponse {
    open spec fn obeys_from_spec() -> bool {
        true
    }

    open spec fn from_spec(acc: Account) -> AccountResponse {
        AccountResponse { id: acc.id(), balance: acc.balance() }
    }
}

/// The body of an answer that reports a failure.
#[derive(Debug, PartialEq, Eq)]
pub struct ApiError {
    pub error: String,
}

impl ApiError {
    /// A failure described by `msg`.
    pub fn new(msg: String) -> (e: ApiError)
        ensures
            e.error == msg,
    {
        ApiError { error: msg }
    }
}

} // verus!
