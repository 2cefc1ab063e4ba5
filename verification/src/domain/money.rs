//! Exact, currency-tagged, non-negative amounts of money in integer minor units.

use vstd::prelude::*;
use vstd::string::StringExecFns;

verus! {

/// The currencies the ledger knows.
#[derive(Debug, Clone, Copy, PartialEq, Eq, Structural)]
pub enum Currency {
    GBP,
    USD,
    EUR,
}

impl Currency {
    /// The display symbol of the currency, as a sequence of characters.
    pub open spec fn symbol_chars(self) -> Seq<char> {
        match self {
            Currency::EUR => seq!['€'],
            Currency::GBP => seq!['£'],
            Currency::USD => seq!['$'],
        }
    }

    /// The stable three-letter code of the currency, as a sequence of characters.
    pub open spec fn code_chars(self) -> Seq<char> {
        match self {
            Currency::EUR => seq!['E', 'U', 'R'],
            Currency::GBP => seq!['G', 'B', 'P'],
            Currency::USD => seq!['U', 'S', 'D'],
        }
    }

    /// The display symbol of the currency.
    pub fn symbol(&self) -> (s: &'static str)
        ensures
            s@ == self.symbol_chars(),
    {
        proof {
            reveal_strlit("€");
            reveal_strlit("£");
            reveal_strlit("$");
        }
        let s = match self {
            Currency::EUR => "€",
            Currency::GBP => "£",
            Currency::USD => "$",
        };
        assert(s@ =~= self.symbol_chars());
        s
    }

    /// The stable textual code of the currency.
    pub fn code(&self) -> (s: &'static str)
        ensures
            s@ == self.code_chars(),
    {
        proof {
            reveal_strlit("EUR");
            reveal_strlit("GBP");
            reveal_strlit("USD");
        }
        let s = match self {
            Currency::EUR => "EUR",
            Currency::GBP => "GBP",
            Currency::USD => "USD",
        };
        assert(s@ =~= self.code_chars());
        s
    }
}

/// What a [`Money`] value stands for: a number of minor units and a currency.
pub struct MoneyView {
    pub amount: int,
    pub currency: Currency,
}

/// An amount of money in minor units (pence, cents) of one currency.
///
/// The amount is never negative: no constructor or operation produces a value
/// with a negative amount.
#[derive(Debug, Clone, Copy, PartialEq, Eq, Structural)]
pub struct Money {
    amount: i64,
    currency: Currency,
}

/// Why a monetary value could not be built or combined.
#[derive(Debug, PartialEq, Eq, Structural)]
pub enum MoneyError {
    /// The amount would be negative; carries the offending amount.
    Negative(i64),
    /// Two values of different currencies were combined: left, then right.
    CurrencyMismatch(Currency, Currency),
    /// The sum does not fit in the range of minor units.
    Overflow,
}

impl View for Money {
    type V = MoneyView;

    closed spec fn view(&self) -> MoneyView {
        MoneyView { amount: self.amount as int, currency: self.currency }
    }
}

/// The sum of two amounts, or the reason why they cannot be added.
pub open spec fn add_views(a: MoneyView, b: MoneyView) -> Result<MoneyView, MoneyError> {
    if a.currency != b.currency {
        Err(MoneyError::CurrencyMismatch(a.currency, b.currency))
    } else if a.amount + b.amount > i64::MAX {
        Err(MoneyError::Overflow)
    } else {
        Ok(MoneyView { amount: a.amount + b.amount, currency: a.currency })
    }
}

/// The difference of two amounts, or the reason why they cannot be subtracted.
pub open spec fn sub_views(a: MoneyView, b: MoneyView) -> Result<MoneyView, MoneyError> {
    if a.currency != b.currency {
        Err(MoneyError::CurrencyMismatch(a.currency, b.currency))
    } else if a.amount < b.amount {
        Err(MoneyError::Negative((a.amount - b.amount) as i64))
    } else {
        Ok(MoneyView { amount: a.amount - b.amount, currency: a.currency })
    }
}

/// Whether an exec result of a monetary operation is the one the model gives.
pub open spec fn agrees(r: Result<Money, MoneyError>, model: Result<MoneyView, MoneyError>) -> bool {
    match r {
        Ok(m) => model == Ok::<MoneyView, MoneyError>(m@),
        Err(e) => model == Err::<MoneyView, MoneyError>(e),
    }
}

/// The decimal digit characters of a natural number, most significant first.
pub open spec fn decimal_chars(n: nat) -> Seq<char>
    decreases n,
{
    if n < 10 {
        seq![digit_char(n)]
    } else {
        decimal_chars(n / 10).push(digit_char(n % 10))
    }
}

/// The character of a single decimal digit.
pub open spec fn digit_char(d: nat) -> char
    recommends
        d < 10,
{
    if d == 0 {
        '0'
    } else if d == 1 {
        '1'
    } else if d == 2 {
        '2'
    } else if d == 3 {
        '3'
    } else if d == 4 {
        '4'
    } else if d == 5 {
        '5'
    } else if d == 6 {
        '6'
    } else if d == 7 {
        '7'
    } else if d == 8 {
        '8'
    } else {
        '9'
    }
}

/// The rendering of an amount: symbol, major units, a dot, two digits of minor units.
pub open spec fn display_chars(m: MoneyView) -> Seq<char>
    recommends
        m.amount >= 0,
{
    let major = (m.amount / 100) as nat;
    let minor = (m.amount % 100) as nat;
    m.currency.symbol_chars() + decimal_chars(major) + seq!['.'] + seq![
        digit_char(minor / 10),
        digit_char(minor % 10),
    ]
}

fn digit_str(d: u64) -> (s: &'static str)
    requires
        d < 10,
    ensures
        s@ == seq![digit_char(d as nat)],
{
    proof {
        reveal_strlit("0");
        reveal_strlit("1");
        reveal_strlit("2");
        reveal_strlit("3");
        reveal_strlit("4");
        reveal_strlit("5");
        reveal_strlit("6");
        reveal_strlit("7");
        reveal_strlit("8");
        reveal_strlit("9");
    }
    let s = if d == 0 {
        "0"
    } else if d == 1 {
        "1"
    } else if d == 2 {
        "2"
    } else if d == 3 {
        "3"
    } else if d == 4 {
        "4"
    } else if d == 5 {
        "5"
    } else if d == 6 {
        "6"
    } else if d == 7 {
        "7"
    } else if d == 8 {
        "8"
    } else {
        "9"
    };
    assert(s@ =~= seq![digit_char(d as nat)]);
    s
}

fn append_decimal(out: &mut String, n: u64)
    ensures
        final(out)@ == old(out)@ + decimal_chars(n as nat),
    decreases n,
{
    if n >= 10 {
        append_decimal(out, n / 10);
    }
    out.append(digit_str(n % 10));
    assert(final(out)@ =~= old(out)@ + decimal_chars(n as nat));
}

impl Money {
    /// The invariant of every value: the amount is not negative.
    #[verifier::type_invariant]
    pub open spec fn is_valid(self) -> bool {
        self@.amount >= 0
    }

    /// Builds an amount from minor units; a negative amount is refused.
    pub fn new_minor(amount: i64, currency: Currency) -> (r: Result<Self, MoneyError>)
        ensures
            amount < 0 ==> r == Err::<Self, MoneyError>(MoneyError::Negative(amount)),
            amount >= 0 ==> r is Ok && r->Ok_0@ == (MoneyView { amount: amount as int, currency }),
    {
        if amount < 0 {
            return Err(MoneyError::Negative(amount));
        }
        Ok(Self { amount, currency })
    }

    /// The amount of nothing, in the given currency.
    pub fn zero(currency: Currency) -> (m: Self)
        ensures
            m@ == (MoneyView { amount: 0, currency }),
    {
        Self { amount: 0, currency }
    }

    /// The amount in minor units; never negative.
    pub fn amount(&self) -> (a: i64)
        ensures
            a == self@.amount,
            a >= 0,
    {
        proof {
            use_type_invariant(self);
        }
        self.amount
    }

    /// The currency of the amount.
    pub fn currency(&self) -> (c: Currency)
        ensures
            c == self@.currency,
    {
        self.currency
    }

    /// Adds an amount of the same currency.
    ///
    /// Fails with `CurrencyMismatch` when the currencies differ, and with
    /// `Overflow` when the sum exceeds the range of minor units.
    pub fn checked_add(self, other: Money) -> (r: Result<Money, MoneyError>)
        ensures
            agrees(r, add_views(self@, other@)),
            r is Ok ==> r->Ok_0@.amount >= 0,
    {
        proof {
            use_type_invariant(&self);
            use_type_invariant(&other);
        }
        if self.currency != other.currency {
            return Err(MoneyError::CurrencyMismatch(self.currency, other.currency));
        }
        if self.amount > i64::MAX - other.amount {
            return Err(MoneyError::Overflow);
        }
        Ok(Self { amount: self.amount + other.amount, currency: self.currency })
    }

    /// Subtracts an amount of the same currency.
    ///
    /// Fails with `CurrencyMismatch` when the currencies differ, and with
    /// `Negative`, carrying the difference, when the result would go below zero.
    pub fn checked_sub(self, other: Money) -> (r: Result<Money, MoneyError>)
        ensures
            agrees(r, sub_views(self@, other@)),
            r is Ok ==> r->Ok_0@.amount >= 0,
    {
        proof {
            use_type_invariant(&self);
            use_type_invariant(&other);
        }
        if self.currency != other.currency {
            return Err(MoneyError::CurrencyMismatch(self.currency, other.currency));
        }
        if self.amount < other.amount {
            return Err(MoneyError::Negative(self.amount - other.amount));
        }
        Ok(Self { amount: self.amount - other.amount, currency: self.currency })
    }

    /// Renders the amount as symbol, major units, a dot and two digits of minor
    /// units: 1250 minor units of USD read `$12.50`.
    pub fn to_display_string(&self) -> (s: String)
        ensures
            s@ == display_chars(self@),
    {
        proof {
            use_type_invariant(self);
            reveal_strlit(".");
        }
        let major: u64 = (self.amount / 100) as u64;
        let minor: u64 = (self.amount % 100) as u64;
        let mut out = String::from_str(self.currency.symbol());
        append_decimal(&mut out, major);
        out.append(".");
        out.append(digit_str(minor / 10));
        out.append(digit_str(minor % 10));
        assert(out@ =~= display_chars(self@));
        out
    }
}

} // verus!
