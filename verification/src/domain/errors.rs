//! The failures of ledger operations.

use vstd::prelude::*;
use crate::domain::money::MoneyError;

verus! {

/// Why a ledger operation was refused.
#[derive(Debug, PartialEq, Eq, Structural)]
pub enum DomainError {
    /// No event of the ledger belongs to the account.
    AccountNotFound,
    /// Replaying the account's events hit an arithmetic failure.
    InvalidMoney(MoneyError),
    /// A withdrawal asked for more than the balance holds.
    InsufficientFunds { required_minor: i64, available_minor: i64 },
}

impl From<MoneyError> for DomainError {
    /// An arithmetic failure, as the ledger reports it.
    fn from(e: MoneyError) -> (r: DomainError) {
        DomainError::InvalidMoney(e)
    }
}

impl vstd::std_specs::convert::FromSpecImpl<MoneyError> for DomainError {
    open spec fn obeys_from_spec() -> bool {
        true
    }

    open spec fn from_spec(e: MoneyError) -> DomainError {
        DomainError::InvalidMoney(e)
    }
}

} // verus!
