use mini_ledger::domain::{Currency, Money, MoneyError};

#[test]
fn new_minor_rejects_negative() {
    let result = Money::new_minor(-1, Currency::GBP);
    assert_eq!(result, Err(MoneyError::Negative(-1)));
}

#[test]
fn new_minor_creates_valid_money() {
    let m = Money::new_minor(123, Currency::GBP).unwrap();
    assert_eq!(m.amount(), 123);
    assert_eq!(m.currency(), Currency::GBP);
}

#[test]
fn checked_add_same_currency_succeeds() {
    let a = Money::new_minor(100, Currency::GBP).unwrap();
    let b = Money::new_minor(50, Currency::GBP).unwrap();

    let sum = a.checked_add(b).unwrap();
    assert_eq!(sum.amount(), 150);
    assert_eq!(sum.currency(), Currency::GBP);
}

#[test]
fn checked_add_different_currency_fails() {
    let gbp = Money::new_minor(100, Currency::GBP).unwrap();
    let usd = Money::new_minor(50, Currency::USD).unwrap();

    let result = gbp.checked_add(usd);
    assert_eq!(
        result,
        Err(MoneyError::CurrencyMismatch(Currency::GBP, Currency::USD))
    );
}

#[test]
fn checked_sub_cannot_go_negative() {
    let a = Money::new_minor(100, Currency::GBP).unwrap();
    let b = Money::new_minor(150, Currency::GBP).unwrap();

    let result = a.checked_sub(b);
    assert!(matches!(result, Err(MoneyError::Negative(_))));
}

#[test]
fn display_formats_gbp_properly() {
    let m = Money::new_minor(3400, Currency::GBP).unwrap();
    assert_eq!(m.to_display_string(), "£34.00");
}

#[test]
fn display_formats_small_amounts() {
    let m = Money::new_minor(99, Currency::GBP).unwrap();
    assert_eq!(m.to_display_string(), "£0.99");
}

#[test]
fn display_formats_usd() {
    let m = Money::new_minor(1250, Currency::USD).unwrap();
    assert_eq!(m.to_display_string(), "$12.50");
}

#[test]
fn display_formats_eur() {
    let m = Money::new_minor(12345, Currency::EUR).unwrap();
    assert_eq!(m.to_display_string(), "€123.45");
}

#[test]
fn display_formats_euro_zero() {
    let m = Money::new_minor(0, Currency::EUR).unwrap();
    assert_eq!(m.to_display_string(), "€0.00");
}

#[test]
fn new_minor_rejects_minus_five() {
    assert_eq!(
        Money::new_minor(-5, Currency::GBP),
        Err(MoneyError::Negative(-5))
    );
}

#[test]
fn new_minor_accepts_zero_and_the_largest_amount() {
    assert_eq!(Money::new_minor(0, Currency::USD).unwrap().amount(), 0);
    assert_eq!(
        Money::new_minor(i64::MAX, Currency::USD).unwrap().amount(),
        i64::MAX
    );
    assert_eq!(
        Money::new_minor(i64::MIN, Currency::USD),
        Err(MoneyError::Negative(i64::MIN))
    );
}

#[test]
fn zero_is_zero_of_its_currency() {
    let z = Money::zero(Currency::EUR);
    assert_eq!(z.amount(), 0);
    assert_eq!(z.currency(), Currency::EUR);
    assert_eq!(z, Money::new_minor(0, Currency::EUR).unwrap());
}

#[test]
fn checked_add_reports_overflow() {
    let a = Money::new_minor(i64::MAX, Currency::GBP).unwrap();
    let b = Money::new_minor(1, Currency::GBP).unwrap();
    assert_eq!(a.checked_add(b), Err(MoneyError::Overflow));
    assert_eq!(b.checked_add(a), Err(MoneyError::Overflow));
    let c = Money::new_minor(i64::MAX - 1, Currency::GBP).unwrap();
    assert_eq!(c.checked_add(b).unwrap().amount(), i64::MAX);
}

#[test]
fn checked_sub_same_currency_succeeds() {
    let a = Money::new_minor(150, Currency::USD).unwrap();
    let b = Money::new_minor(100, Currency::USD).unwrap();
    let rest = a.checked_sub(b).unwrap();
    assert_eq!(rest.amount(), 50);
    assert_eq!(rest.currency(), Currency::USD);
    assert_eq!(a.checked_sub(a).unwrap().amount(), 0);
}

#[test]
fn checked_sub_carries_the_difference() {
    let a = Money::new_minor(100, Currency::GBP).unwrap();
    let b = Money::new_minor(150, Currency::GBP).unwrap();
    assert_eq!(a.checked_sub(b), Err(MoneyError::Negative(-50)));
}

#[test]
fn checked_sub_different_currency_fails() {
    let eur = Money::new_minor(100, Currency::EUR).unwrap();
    let gbp = Money::new_minor(50, Currency::GBP).unwrap();
    assert_eq!(
        eur.checked_sub(gbp),
        Err(MoneyError::CurrencyMismatch(Currency::EUR, Currency::GBP))
    );
    // The currencies are compared before the amounts.
    let big = Money::new_minor(500, Currency::GBP).unwrap();
    assert_eq!(
        eur.checked_sub(big),
        Err(MoneyError::CurrencyMismatch(Currency::EUR, Currency::GBP))
    );
}

#[test]
fn symbols_and_codes() {
    assert_eq!(Currency::GBP.symbol(), "£");
    assert_eq!(Currency::USD.symbol(), "$");
    assert_eq!(Currency::EUR.symbol(), "€");
    assert_eq!(Currency::GBP.code(), "GBP");
    assert_eq!(Currency::USD.code(), "USD");
    assert_eq!(Currency::EUR.code(), "EUR");
}

#[test]
fn display_pads_minor_units_and_keeps_all_major_digits() {
    assert_eq!(
        Money::new_minor(5, Currency::USD).unwrap().to_display_string(),
        "$0.05"
    );
    assert_eq!(
        Money::new_minor(100, Currency::USD).unwrap().to_display_string(),
        "$1.00"
    );
    assert_eq!(
        Money::new_minor(1_000_000, Currency::GBP)
            .unwrap()
            .to_display_string(),
        "£10000.00"
    );
    assert_eq!(
        Money::new_minor(i64::MAX, Currency::EUR)
            .unwrap()
            .to_display_string(),
        "€92233720368547758.07"
    );
}
