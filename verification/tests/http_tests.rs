use mini_ledger::config::{Config, DEFAULT_HTTP_PORT};
use mini_ledger::domain::errors::DomainError;
use mini_ledger::domain::events::LedgerEventPayload;
use mini_ledger::domain::ledger::Ledger;
use mini_ledger::domain::types::AccountId;
use mini_ledger::domain::{Currency, Money, MoneyError};
use mini_ledger::http::{
    balance_handler, balance_of_account, deposit_handler, deposit_into, events_of_account,
    get_account_events_handler, health_handler, new_account_handler, parse_currency, validate,
    withdraw_from, withdrawal_handler, BalanceResponse, DepositRequest, DepositResponse,
    Rejection, StatusClass, WithdrawalRequest,
};

const TEXT: &str = "67e55044-10b1-426f-9247-bb680e5fe0c8";
const BITS: u128 = 0x67e5504410b1426f9247bb680e5fe0c8;

fn deposit(minor: i64, currency: &str) -> DepositRequest {
    DepositRequest {
        amount_minor: minor,
        currency: currency.to_string(),
    }
}

fn withdrawal(minor: i64, currency: &str) -> WithdrawalRequest {
    WithdrawalRequest {
        amount_minor: minor,
        currency: currency.to_string(),
    }
}

#[test]
fn account_id_is_read_from_uuid_text() {
    assert_eq!(AccountId::parse_str(TEXT), Some(AccountId::from_u128(BITS)));
    assert_eq!(
        AccountId::parse_str("67e5504410b1426f9247bb680e5fe0c8"),
        Some(AccountId::from_u128(BITS))
    );
    assert_eq!(AccountId::parse_str("not-a-uuid"), None);
    assert_eq!(AccountId::parse_str(""), None);
    assert_eq!(AccountId::from_parsed(Some(5)), Some(AccountId::from_u128(5)));
    assert_eq!(AccountId::from_parsed(None), None);
}

#[test]
fn only_the_working_currency_is_accepted_in_requests() {
    assert_eq!(parse_currency("GBP"), Some(Currency::GBP));
    assert_eq!(parse_currency("USD"), None);
    assert_eq!(parse_currency("EUR"), None);
    assert_eq!(parse_currency("gbp"), None);
    assert_eq!(parse_currency("GBP "), None);
    assert_eq!(parse_currency(""), None);
}

#[test]
fn validation_looks_at_account_then_currency_then_amount() {
    let id = AccountId::from_u128(1);
    assert_eq!(validate(None, -1, "XXX"), Err(Rejection::InvalidAccountId));
    assert_eq!(
        validate(Some(id), -1, "XXX"),
        Err(Rejection::UnsupportedCurrency)
    );
    assert_eq!(
        validate(Some(id), -1, "GBP"),
        Err(Rejection::InvalidAmount(MoneyError::Negative(-1)))
    );
    assert_eq!(
        validate(Some(id), 0, "GBP"),
        Ok((id, Money::new_minor(0, Currency::GBP).unwrap()))
    );
}

#[test]
fn rejections_are_classified() {
    let bad = [
        Rejection::InvalidAccountId,
        Rejection::UnsupportedCurrency,
        Rejection::InvalidAmount(MoneyError::Negative(-1)),
        Rejection::Ledger(DomainError::InsufficientFunds {
            required_minor: 2,
            available_minor: 1,
        }),
        Rejection::Ledger(DomainError::InvalidMoney(MoneyError::CurrencyMismatch(
            Currency::GBP,
            Currency::USD,
        ))),
    ];
    for rejection in bad {
        assert_eq!(rejection.status_class(), StatusClass::BadRequest);
    }
    assert_eq!(
        Rejection::Ledger(DomainError::AccountNotFound).status_class(),
        StatusClass::NotFound
    );
    assert_eq!(
        Rejection::LedgerUnavailable.status_class(),
        StatusClass::InternalError
    );
    assert_eq!(StatusClass::BadRequest.code(), 400);
    assert_eq!(StatusClass::NotFound.code(), 404);
    assert_eq!(StatusClass::InternalError.code(), 500);
}

#[test]
fn health_is_ok() {
    assert_eq!(health_handler().status, "ok");
}

#[test]
fn new_account_request_opens_an_account() {
    let mut ledger = Ledger::new();
    let response = new_account_handler(&mut ledger);
    assert!(ledger.account_exists(response.id));
    assert_eq!(ledger.events().len(), 1);
    assert_eq!(ledger.events()[0].payload, LedgerEventPayload::AccountOpened);
}

#[test]
fn deposit_request_is_recorded_and_repeated() {
    let mut ledger = Ledger::new();
    let id = ledger.open_account();
    let response = deposit_into(&mut ledger, Some(id), deposit(1250, "GBP")).unwrap();
    assert_eq!(
        response,
        DepositResponse {
            id: ledger.events()[1].id,
            account_id: id,
            amount_minor: 1250,
            currency: "GBP".to_string(),
        }
    );
    assert_eq!(ledger.balance_for_account(id).unwrap().amount(), 1250);
}

#[test]
fn deposit_request_rejections_leave_the_ledger_alone() {
    let mut ledger = Ledger::new();
    let id = ledger.open_account();
    let unknown = AccountId::from_u128(id.as_u128() ^ 1);

    assert_eq!(
        deposit_into(&mut ledger, None, deposit(1, "GBP")),
        Err(Rejection::InvalidAccountId)
    );
    assert_eq!(
        deposit_into(&mut ledger, Some(id), deposit(1, "USD")),
        Err(Rejection::UnsupportedCurrency)
    );
    assert_eq!(
        deposit_into(&mut ledger, Some(id), deposit(-7, "GBP")),
        Err(Rejection::InvalidAmount(MoneyError::Negative(-7)))
    );
    assert_eq!(
        deposit_into(&mut ledger, Some(unknown), deposit(1, "GBP")),
        Err(Rejection::Ledger(DomainError::AccountNotFound))
    );
    assert_eq!(ledger.events().len(), 1);
}

#[test]
fn handlers_read_the_account_id_from_text() {
    let mut ledger = Ledger::new();
    assert_eq!(
        deposit_handler(&mut ledger, "nonsense", deposit(1, "GBP")),
        Err(Rejection::InvalidAccountId)
    );
    assert_eq!(
        deposit_handler(&mut ledger, TEXT, deposit(1, "GBP")),
        Err(Rejection::Ledger(DomainError::AccountNotFound))
    );
    assert_eq!(
        withdrawal_handler(&mut ledger, "nonsense", withdrawal(1, "GBP")),
        Err(Rejection::InvalidAccountId)
    );
    assert_eq!(
        withdrawal_handler(&mut ledger, TEXT, withdrawal(1, "GBP")),
        Err(Rejection::Ledger(DomainError::AccountNotFound))
    );
    assert_eq!(
        balance_handler(&ledger, "nonsense"),
        Err(Rejection::InvalidAccountId)
    );
    assert_eq!(
        balance_handler(&ledger, TEXT),
        Err(Rejection::Ledger(DomainError::AccountNotFound))
    );
    assert_eq!(
        get_account_events_handler(&ledger, "nonsense"),
        Err(Rejection::InvalidAccountId)
    );
    assert_eq!(
        get_account_events_handler(&ledger, TEXT),
        Err(Rejection::Ledger(DomainError::AccountNotFound))
    );
    assert!(ledger.events().is_empty());
}

#[test]
fn withdrawal_request_is_recorded_or_rejected() {
    let mut ledger = Ledger::new();
    let id = ledger.open_account();
    deposit_into(&mut ledger, Some(id), deposit(1000, "GBP")).unwrap();

    let response = withdraw_from(&mut ledger, Some(id), withdrawal(600, "GBP")).unwrap();
    assert_eq!(response.id, ledger.events()[2].id);
    assert_eq!(response.account_id, id);
    assert_eq!(response.amount_minor, 600);
    assert_eq!(response.currency, "GBP");

    assert_eq!(
        withdraw_from(&mut ledger, Some(id), withdrawal(600, "GBP")),
        Err(Rejection::Ledger(DomainError::InsufficientFunds {
            required_minor: 600,
            available_minor: 400
        }))
    );
    assert_eq!(
        withdraw_from(&mut ledger, Some(id), withdrawal(-1, "GBP")),
        Err(Rejection::InvalidAmount(MoneyError::Negative(-1)))
    );
    assert_eq!(
        withdraw_from(&mut ledger, Some(id), withdrawal(1, "EUR")),
        Err(Rejection::UnsupportedCurrency)
    );
    assert_eq!(
        withdraw_from(&mut ledger, None, withdrawal(1, "GBP")),
        Err(Rejection::InvalidAccountId)
    );
    assert_eq!(ledger.events().len(), 3);
    assert_eq!(ledger.balance_for_account(id).unwrap().amount(), 400);
}

#[test]
fn balance_answer_carries_code_and_rendering() {
    let mut ledger = Ledger::new();
    let id = ledger.open_account();
    deposit_into(&mut ledger, Some(id), deposit(1200, "GBP")).unwrap();

    assert_eq!(
        balance_of_account(&ledger, Some(id)),
        Ok(BalanceResponse {
            account_id: id,
            amount_minor: 1200,
            currency: "GBP".to_string(),
            display: "£12.00".to_string(),
        })
    );
    assert_eq!(
        balance_of_account(&ledger, None),
        Err(Rejection::InvalidAccountId)
    );
}

#[test]
fn events_answer_is_the_history_of_the_account() {
    let mut ledger = Ledger::new();
    let a = ledger.open_account();
    let b = ledger.open_account();
    deposit_into(&mut ledger, Some(a), deposit(5, "GBP")).unwrap();

    let events = events_of_account(&ledger, Some(a)).unwrap();
    assert_eq!(events, vec![ledger.events()[0], ledger.events()[2]]);
    assert_eq!(events_of_account(&ledger, Some(b)).unwrap().len(), 1);
    assert_eq!(
        events_of_account(&ledger, None),
        Err(Rejection::InvalidAccountId)
    );
}

#[test]
fn port_is_parsed_or_defaulted() {
    assert_eq!(DEFAULT_HTTP_PORT, 8080);
    assert_eq!(Config::from_port_value(None).http_port, 8080);
    assert_eq!(Config::from_port_value(Some("9000")).http_port, 9000);
    assert_eq!(Config::from_port_value(Some("65535")).http_port, 65535);
    assert_eq!(Config::from_port_value(Some("65536")).http_port, 8080);
    assert_eq!(Config::from_port_value(Some("-1")).http_port, 8080);
    assert_eq!(Config::from_port_value(Some("port")).http_port, 8080);
    assert_eq!(Config::from_port_value(Some("")).http_port, 8080);
    assert_eq!(Config::from_parsed_port(Some(1)).http_port, 1);
    assert_eq!(Config::from_parsed_port(None).http_port, 8080);
}
