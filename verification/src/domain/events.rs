//! The events a ledger records.

use vstd::prelude::*;
use crate::domain::money::Money;
use crate::domain::types::{is_random_uuid, AccountId, EventId};

verus! {

/// `time::OffsetDateTime`, carried through events as an opaque value.
#[verifier::external_type_specification]
#[verifier::external_body]
pub struct ExOffsetDateTime(time::OffsetDateTime);

/// `time::OffsetDateTime::now_utc` reads the system clock and returns the
/// moment in UTC.
///
/// Trusted: that the call returns. Nothing is claimed of the moment.
pub assume_specification[ time::OffsetDateTime::now_utc ]() -> (now: time::OffsetDateTime);

/// What happened to an account.
#[derive(Debug, Clone, Copy, PartialEq, Eq)]
pub enum LedgerEventPayload {
    /// A new account was opened.
    AccountOpened,
    /// Money was added to the account.
    Deposit { amount: Money },
    /// Money was removed from the account.
    Withdraw { amount: Money },
}

/// One entry of the ledger. It is never changed once appended.
#[derive(Debug, Clone, Copy, PartialEq, Eq)]
pub struct LedgerEvent {
    pub id: EventId,
    pub account_id: AccountId,
    pub created_at: time::OffsetDateTime,
    pub payload: LedgerEventPayload,
}

impl LedgerEvent {
    /// An `AccountOpened` event for the account, with a fresh id, created now.
    pub fn account_opened(account_id: AccountId) -> (event: Self)
        ensures
            event.account_id == account_id,
            event.payload == LedgerEventPayload::AccountOpened,
            is_random_uuid(event.id.0),
    {
        Self {
            id: EventId::new_v4(),
            created_at: time::OffsetDateTime::now_utc(),
            account_id,
            payload: LedgerEventPayload::AccountOpened,
        }
    }

    /// A `Deposit` event of the amount for the account, with a fresh id, created now.
    pub fn deposit(account_id: AccountId, amount: Money) -> (event: Self)
        ensures
            event.account_id == account_id,
            event.payload == (LedgerEventPayload::Deposit { amount }),
            is_random_uuid(event.id.0),
    {
        Self {
            id: EventId::new_v4(),
            created_at: time::OffsetDateTime::now_utc(),
            account_id,
            payload: LedgerEventPayload::Deposit { amount },
        }
    }

    /// A `Withdraw` event of the amount for the account, with a fresh id, created now.
    pub fn withdraw(account_id: AccountId, amount: Money) -> (event: Self)
        ensures
            event.account_id == account_id,
            event.payload == (LedgerEventPayload::Withdraw { amount }),
            is_random_uuid(event.id.0),
    {
        Self {
            id: EventId::new_v4(),
            created_at: time::OffsetDateTime::now_utc(),
            account_id,
            payload: LedgerEventPayload::Withdraw { amount },
        }
    }
}

} // verus!
