use crate::address::Address;
use vstd::prelude::*;

verus! {

/// What observers are told about a deposit.
#[derive(Clone, Copy, Debug, PartialEq, Eq)]
pub struct DepositEvent {
    pub user: Address,
    pub amount: u64,
    pub new_balance: u64,
    pub timestamp: i64,
}

/// Why a deposit was refused before it reached the ledger.
#[derive(Clone, Copy, Debug, PartialEq, Eq)]
pub enum ErrorCode {
    /// The amount must be greater than zero.
    InvalidAmount,
}

impl ErrorCode {
    /// The text in which the refusal is reported.
    pub fn message(&self) -> (text: &'static str)
        ensures
            text@ == "Amount must be greater than 0"@,
    {
        "Amount must be greater than 0"
    }
}

} // verus!
