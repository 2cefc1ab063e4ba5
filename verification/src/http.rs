//! The decisions of the request boundary: what each request does to the
//! ledger, what it answers, and how each failure is classified.
//!
//! Nothing here touches a transport. A caller hands in the plain values of a
//! request and the ledger it holds exclusively, and gets a plain answer back.

use vstd::prelude::*;
use vstd::string::StringExecFns;
use crate::domain::errors::DomainError;
use crate::domain::events::{LedgerEvent, LedgerEventPayload};
use crate::domain::ledger::{balance_of, has_account, history, Ledger};
use crate::domain::money::{display_chars, Currency, Money, MoneyError, MoneyView};
use crate::domain::types::{parsed_uuid, AccountId, EventId};

verus! {

/// Why a request was turned down.
#[derive(Debug, PartialEq, Eq, Structural)]
pub enum Rejection {
    /// The account id is not a UUID.
    InvalidAccountId,
    /// The currency code is not one that requests may use.
    UnsupportedCurrency,
    /// The amount of the request is not a valid amount of money.
    InvalidAmount(MoneyError),
    /// The ledger refused the operation.
    Ledger(DomainError),
    /// Exclusive access to the ledger could not be had.
    LedgerUnavailable,
}

/// The class of answer a transport gives to a rejected request.
#[derive(Debug, Clone, Copy, PartialEq, Eq, Structural)]
pub enum StatusClass {
    BadRequest,
    NotFound,
    InternalError,
}

impl Rejection {
    /// An unknown account is "not found"; a failure to reach the ledger is an
    /// internal error; everything else is a bad request.
    pub open spec fn class(self) -> StatusClass {
        match self {
            Rejection::Ledger(DomainError::AccountNotFound) => StatusClass::NotFound,
            Rejection::LedgerUnavailable => StatusClass::InternalError,
            _ => StatusClass::BadRequest,
        }
    }

    /// The class of answer for this rejection.
    pub fn status_class(&self) -> (class: StatusClass)
        ensures
            class == self.class(),
    {
        match self {
            Rejection::Ledger(DomainError::AccountNotFound) => StatusClass::NotFound,
            Rejection::LedgerUnavailable => StatusClass::InternalError,
            _ => StatusClass::BadRequest,
        }
    }
}

impl StatusClass {
    /// The HTTP status code of the class: 400, 404 or 500.
    pub fn code(&self) -> (code: u16)
        ensures
            code == match *self {
                StatusClass::BadRequest => 400u16,
                StatusClass::NotFound => 404u16,
                StatusClass::InternalError => 500u16,
            },
    {
        match self {
            StatusClass::BadRequest => 400,
            StatusClass::NotFound => 404,
            StatusClass::InternalError => 500,
        }
    }
}

/// The body of a deposit request.
#[derive(Debug, PartialEq, Eq)]
pub struct DepositRequest {
    pub amount_minor: i64,
    pub currency: String,
}

/// The answer to an accepted deposit.
#[derive(Debug, PartialEq, Eq)]
pub struct DepositResponse {
    pub id: EventId,
    pub account_id: AccountId,
    pub amount_minor: i64,
    pub currency: String,
}

/// The body of a withdrawal request.
#[derive(Debug, PartialEq, Eq)]
pub struct WithdrawalRequest {
    pub amount_minor: i64,
    pub currency: String,
}

/// The answer to an accepted withdrawal.
#[derive(Debug, PartialEq, Eq)]
pub struct WithdrawalResponse {
    pub id: EventId,
    pub account_id: AccountId,
    pub amount_minor: i64,
    pub currency: String,
}

/// The answer to a balance query.
#[derive(Debug, PartialEq, Eq)]
pub struct BalanceResponse {
    pub account_id: AccountId,
    pub amount_minor: i64,
    pub currency: String,
    pub display: String,
}

/// The answer to the opening of an account.
#[derive(Debug, Clone, Copy, PartialEq, Eq)]
pub struct NewAccountResponse {
    pub id: AccountId,
}

/// The answer to a liveness check.
#[derive(Debug, Clone, Copy, PartialEq, Eq)]
pub struct HealthResponse {
    pub status: &'static str,
}

/// The currency a request may name: only the code of the working currency.
pub open spec fn requested_currency(code: Seq<char>) -> Option<Currency> {
    if code == Currency::GBP.code_chars() {
        Some(Currency::GBP)
    } else {
        None
    }
}

/// The account and amount a request names, or the first thing wrong with it:
/// the account id is looked at first, then the currency, then the amount.
pub open spec fn validated(account: Option<AccountId>, amount_minor: i64, currency: Seq<char>) -> Result<
    (AccountId, MoneyView),
    Rejection,
> {
    match account {
        None => Err(Rejection::InvalidAccountId),
        Some(id) => match requested_currency(currency) {
            None => Err(Rejection::UnsupportedCurrency),
            Some(c) => if amount_minor < 0 {
                Err(Rejection::InvalidAmount(MoneyError::Negative(amount_minor)))
            } else {
                Ok((id, MoneyView { amount: amount_minor as int, currency: c }))
            },
        },
    }
}

/// Whether `after` is `before` with one event appended, of the given id,
/// account and kind, carrying the given amount.
pub open spec fn recorded(
    before: Seq<LedgerEvent>,
    after: Seq<LedgerEvent>,
    event_id: EventId,
    account_id: AccountId,
    is_deposit: bool,
    amount: MoneyView,
) -> bool {
    &&& after.len() == before.len() + 1
    &&& after.drop_last() == before
    &&& after.last().id == event_id
    &&& after.last().account_id == account_id
    &&& match after.last().payload {
        LedgerEventPayload::Deposit { amount: carried } => is_deposit && carried@ == amount,
        LedgerEventPayload::Withdraw { amount: carried } => !is_deposit && carried@ == amount,
        LedgerEventPayload::AccountOpened => false,
    }
}

/// Whether `r` is the right answer to a deposit request, and `after` the
/// right state of the ledger that was `before`.
///
/// A request that is not valid is rejected as [`validated`] says, and so is
/// one for an account without events; the ledger is then unchanged. Otherwise
/// one deposit event of the amount is appended for the account, and the answer
/// carries the event's id and repeats the request.
pub open spec fn deposit_answered(
    before: Seq<LedgerEvent>,
    after: Seq<LedgerEvent>,
    account: Option<AccountId>,
    amount_minor: i64,
    currency: Seq<char>,
    r: Result<DepositResponse, Rejection>,
) -> bool {
    match validated(account, amount_minor, currency) {
        Err(e) => r == Err::<DepositResponse, Rejection>(e) && after == before,
        Ok((id, money)) => if !has_account(before, id) {
            r == Err::<DepositResponse, Rejection>(Rejection::Ledger(DomainError::AccountNotFound))
                && after == before
        } else {
            &&& r is Ok
            &&& r->Ok_0.account_id == id
            &&& r->Ok_0.amount_minor == amount_minor
            &&& r->Ok_0.currency@ == currency
            &&& recorded(before, after, r->Ok_0.id, id, true, money)
        },
    }
}

/// Whether `r` is the right answer to a withdrawal request, and `after` the
/// right state of the ledger that was `before`.
///
/// A request that is not valid is rejected as [`validated`] says. One for an
/// account without events, with a balance that cannot be derived, or with a
/// balance below the amount is rejected with the ledger's own failure. In all
/// these cases the ledger is unchanged. Otherwise one withdrawal event of the
/// amount is appended for the account, and the answer carries the event's id
/// and repeats the request.
pub open spec fn withdrawal_answered(
    before: Seq<LedgerEvent>,
    after: Seq<LedgerEvent>,
    account: Option<AccountId>,
    amount_minor: i64,
    currency: Seq<char>,
    r: Result<WithdrawalResponse, Rejection>,
) -> bool {
    match validated(account, amount_minor, currency) {
        Err(e) => r == Err::<WithdrawalResponse, Rejection>(e) && after == before,
        Ok((id, money)) => match balance_of(before, id) {
            Err(e) => r == Err::<WithdrawalResponse, Rejection>(Rejection::Ledger(e)) && after
                == before,
            Ok(balance) => if balance.amount < money.amount {
                r == Err::<WithdrawalResponse, Rejection>(
                    Rejection::Ledger(
                        DomainError::InsufficientFunds {
                            required_minor: amount_minor,
                            available_minor: balance.amount as i64,
                        },
                    ),
                ) && after == before
            } else {
                &&& r is Ok
                &&& r->Ok_0.account_id == id
                &&& r->Ok_0.amount_minor == amount_minor
                &&& r->Ok_0.currency@ == currency
                &&& recorded(before, after, r->Ok_0.id, id, false, money)
            },
        },
    }
}

/// Whether `r` is the right answer to a balance query: the balance of the
/// account in minor units, with the code of its currency and its rendering,
/// or the reason why there is none.
pub open spec fn balance_answered(
    events: Seq<LedgerEvent>,
    account: Option<AccountId>,
    r: Result<BalanceResponse, Rejection>,
) -> bool {
    match account {
        None => r == Err::<BalanceResponse, Rejection>(Rejection::InvalidAccountId),
        Some(id) => match balance_of(events, id) {
            Err(e) => r == Err::<BalanceResponse, Rejection>(Rejection::Ledger(e)),
            Ok(balance) => {
                &&& r is Ok
                &&& r->Ok_0.account_id == id
                &&& r->Ok_0.amount_minor == balance.amount
                &&& r->Ok_0.currency@ == balance.currency.code_chars()
                &&& r->Ok_0.display@ == display_chars(balance)
            },
        },
    }
}

/// Whether `r` is the right answer to a query for an account's events: its
/// history in append order, or the reason why there is none.
pub open spec fn events_answered(
    events: Seq<LedgerEvent>,
    account: Option<AccountId>,
    r: Result<Vec<LedgerEvent>, Rejection>,
) -> bool {
    match account {
        None => r == Err::<Vec<LedgerEvent>, Rejection>(Rejection::InvalidAccountId),
        Some(id) => if has_account(events, id) {
            r is Ok && r->Ok_0@ == history(events, id)
        } else {
            r == Err::<Vec<LedgerEvent>, Rejection>(Rejection::Ledger(DomainError::AccountNotFound))
        },
    }
}

/// Reads the currency code of a request.
pub fn parse_currency(code: &str) -> (r: Option<Currency>)
    ensures
        r == requested_currency(code@),
{
    let given = String::from_str(code);
    let accepted = String::from_str(Currency::GBP.code());
    if given == accepted {
        Some(Currency::GBP)
    } else {
        None
    }
}

/// Checks the account, currency and amount of a request, in that order.
pub fn validate(account: Option<AccountId>, amount_minor: i64, currency: &str) -> (r: Result<
    (AccountId, Money),
    Rejection,
>)
    ensures
        match r {
            Ok((id, money)) => validated(account, amount_minor, currency@) == Ok::<
                (AccountId, MoneyView),
                Rejection,
            >((id, money@)),
            Err(e) => validated(account, amount_minor, currency@) == Err::<
                (AccountId, MoneyView),
                Rejection,
            >(e),
        },
{
    let id = match account {
        Some(id) => id,
        None => {
            return Err(Rejection::InvalidAccountId);
        },
    };
    let currency = match parse_currency(currency) {
        Some(currency) => currency,
        None => {
            return Err(Rejection::UnsupportedCurrency);
        },
    };
    match Money::new_minor(amount_minor, currency) {
        Ok(money) => Ok((id, money)),
        Err(e) => Err(Rejection::InvalidAmount(e)),
    }
}

/// Answers a liveness check.
pub fn health_handler() -> (response: HealthResponse)
    ensures
        response.status@ == seq!['o', 'k'],
{
    proof {
        reveal_strlit("ok");
    }
    let status = "ok";
    assert(status@ =~= seq!['o', 'k']);
    HealthResponse { status }
}

/// Opens an account and answers with its id.
pub fn new_account_handler(ledger: &mut Ledger) -> (response: NewAccountResponse)
    ensures
        final(ledger)@.len() == old(ledger)@.len() + 1,
        final(ledger)@.drop_last() == old(ledger)@,
        final(ledger)@.last().account_id == response.id,
        final(ledger)@.last().payload == LedgerEventPayload::AccountOpened,
{
    let id = ledger.open_account();
    NewAccountResponse { id }
}

/// Records the deposit a request asks for, given the account its path named.
pub fn deposit_into(ledger: &mut Ledger, account: Option<AccountId>, body: DepositRequest) -> (r:
    Result<DepositResponse, Rejection>)
    ensures
        deposit_answered(
            old(ledger)@,
            final(ledger)@,
            account,
            body.amount_minor,
            body.currency@,
            r,
        ),
{
    let (account_id, money) = match validate(account, body.amount_minor, body.currency.as_str()) {
        Ok(valid) => valid,
        Err(e) => {
            return Err(e);
        },
    };
    match ledger.deposit(account_id, money) {
        Ok(id) => Ok(
            DepositResponse {
                id,
                account_id,
                amount_minor: body.amount_minor,
                currency: body.currency,
            },
        ),
        Err(e) => Err(Rejection::Ledger(e)),
    }
}

/// Records the deposit a request asks for: reads the account id of its path
/// and goes on as [`deposit_into`].
pub fn deposit_handler(ledger: &mut Ledger, account_id: &str, body: DepositRequest) -> (r: Result<
    DepositResponse,
    Rejection,
>)
    ensures
        deposit_answered(
            old(ledger)@,
            final(ledger)@,
            AccountId::of_parsed(parsed_uuid(account_id@)),
            body.amount_minor,
            body.currency@,
            r,
        ),
{
    deposit_into(ledger, AccountId::parse_str(account_id), body)
}

/// Records the withdrawal a request asks for, given the account its path
/// named.
pub fn withdraw_from(ledger: &mut Ledger, account: Option<AccountId>, body: WithdrawalRequest) -> (r:
    Result<WithdrawalResponse, Rejection>)
    ensures
        withdrawal_answered(
            old(ledger)@,
            final(ledger)@,
            account,
            body.amount_minor,
            body.currency@,
            r,
        ),
{
    let (account_id, money) = match validate(account, body.amount_minor, body.currency.as_str()) {
        Ok(valid) => valid,
        Err(e) => {
            return Err(e);
        },
    };
    match ledger.withdraw(account_id, money) {
        Ok(id) => Ok(
            WithdrawalResponse {
                id,
                account_id,
                amount_minor: body.amount_minor,
                currency: body.currency,
            },
        ),
        Err(e) => Err(Rejection::Ledger(e)),
    }
}

/// Records the withdrawal a request asks for: reads the account id of its
/// path and goes on as [`withdraw_from`].
pub fn withdrawal_handler(ledger: &mut Ledger, account_id: &str, body: WithdrawalRequest) -> (r:
    Result<WithdrawalResponse, Rejection>)
    ensures
        withdrawal_answered(
            old(ledger)@,
            final(ledger)@,
            AccountId::of_parsed(parsed_uuid(account_id@)),
            body.amount_minor,
            body.currency@,
            r,
        ),
{
    withdraw_from(ledger, AccountId::parse_str(account_id), body)
}

/// The balance of the account a path named, with its code and rendering.
pub fn balance_of_account(ledger: &Ledger, account: Option<AccountId>) -> (r: Result<
    BalanceResponse,
    Rejection,
>)
    ensures
        balance_answered(ledger@, account, r),
{
    let account_id = match account {
        Some(id) => id,
        None => {
            return Err(Rejection::InvalidAccountId);
        },
    };
    match ledger.balance_for_account(account_id) {
        Ok(balance) => Ok(
            BalanceResponse {
                account_id,
                amount_minor: balance.amount(),
                currency: String::from_str(balance.currency().code()),
                display: balance.to_display_string(),
            },
        ),
        Err(e) => Err(Rejection::Ledger(e)),
    }
}

/// The balance of the account whose id a path gives as text.
pub fn balance_handler(ledger: &Ledger, account_id: &str) -> (r: Result<BalanceResponse, Rejection>)
    ensures
        balance_answered(ledger@, AccountId::of_parsed(parsed_uuid(account_id@)), r),
{
    balance_of_account(ledger, AccountId::parse_str(account_id))
}

/// The events of the account a path named, in append order.
pub fn events_of_account(ledger: &Ledger, account: Option<AccountId>) -> (r: Result<
    Vec<LedgerEvent>,
    Rejection,
>)
    ensures
        events_answered(ledger@, account, r),
{
    let account_id = match account {
        Some(id) => id,
        None => {
            return Err(Rejection::InvalidAccountId);
        },
    };
    match ledger.events_for_account(account_id) {
        Ok(events) => Ok(events),
        Err(e) => Err(Rejection::Ledger(e)),
    }
}

/// The events of the account whose id a path gives as text.
pub fn get_account_events_handler(ledger: &Ledger, account_id: &str) -> (r: Result<
    Vec<LedgerEvent>,
    Rejection,
>)
    ensures
        events_answered(ledger@, AccountId::of_parsed(parsed_uuid(account_id@)), r),
{
    events_of_account(ledger, AccountId::parse_str(account_id))
}

} // verus!
