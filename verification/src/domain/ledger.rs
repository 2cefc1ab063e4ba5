//! The ledger: an append-only sequence of events, and the balances and
//! histories derived from it by replay.

use vstd::prelude::*;
use crate::domain::errors::DomainError;
use crate::domain::events::{LedgerEvent, LedgerEventPayload};
use crate::domain::laws::{
    balances_follow, lemma_append_moves_one_balance, lemma_fresh_account_starts_empty,
};
use crate::domain::money::{add_views, sub_views, Currency, Money, MoneyError, MoneyView};
use crate::domain::types::{is_random_uuid, AccountId, EventId};

verus! {

/// The one currency in which balances are kept.
pub open spec fn working_currency() -> Currency {
    Currency::GBP
}

/// Whether some event of the sequence belongs to the account.
pub open spec fn has_account(events: Seq<LedgerEvent>, id: AccountId) -> bool {
    exists|i: int| 0 <= i < events.len() && (#[trigger] events[i]).account_id == id
}

/// The events of one account, in the order in which they were appended.
pub open spec fn history(events: Seq<LedgerEvent>, id: AccountId) -> Seq<LedgerEvent> {
    events.filter(|e: LedgerEvent| e.account_id == id)
}

/// The balance after one more event, or the arithmetic failure it causes.
pub open spec fn apply_payload(balance: MoneyView, payload: LedgerEventPayload) -> Result<
    MoneyView,
    MoneyError,
> {
    match payload {
        LedgerEventPayload::AccountOpened => Ok(balance),
        LedgerEventPayload::Deposit { amount } => add_views(balance, amount@),
        LedgerEventPayload::Withdraw { amount } => sub_views(balance, amount@),
    }
}

/// The left fold of the events' payloads, seeded with zero of the working
/// currency. The first arithmetic failure ends the fold.
pub open spec fn replay(events: Seq<LedgerEvent>) -> Result<MoneyView, MoneyError>
    decreases events.len(),
{
    if events.len() == 0 {
        Ok(MoneyView { amount: 0, currency: working_currency() })
    } else {
        match replay(events.drop_last()) {
            Ok(balance) => apply_payload(balance, events.last().payload),
            Err(e) => Err(e),
        }
    }
}

/// The balance of an account: the replay of its history, if it has one.
pub open spec fn balance_of(events: Seq<LedgerEvent>, id: AccountId) -> Result<
    MoneyView,
    DomainError,
> {
    if !has_account(events, id) {
        Err(DomainError::AccountNotFound)
    } else {
        match replay(history(events, id)) {
            Ok(balance) => Ok(balance),
            Err(e) => Err(DomainError::InvalidMoney(e)),
        }
    }
}

/// Whether an event may be appended to the sequence, and if not, why.
///
/// An opening is always accepted. A deposit needs an existing account. A
/// withdrawal needs an existing account whose balance can be derived and
/// covers the amount.
pub open spec fn verdict(events: Seq<LedgerEvent>, event: LedgerEvent) -> Result<(), DomainError> {
    match event.payload {
        LedgerEventPayload::AccountOpened => Ok(()),
        LedgerEventPayload::Deposit { amount } => if has_account(events, event.account_id) {
            Ok(())
        } else {
            Err(DomainError::AccountNotFound)
        },
        LedgerEventPayload::Withdraw { amount } => match balance_of(events, event.account_id) {
            Err(e) => Err(e),
            Ok(balance) => if balance.amount < amount@.amount {
                Err(
                    DomainError::InsufficientFunds {
                        required_minor: amount@.amount as i64,
                        available_minor: balance.amount as i64,
                    },
                )
            } else {
                Ok(())
            },
        },
    }
}

/// The sequence after an attempt to append the event: one longer where the
/// event is accepted, unchanged where it is refused.
pub open spec fn after_append(events: Seq<LedgerEvent>, event: LedgerEvent) -> Seq<LedgerEvent> {
    if verdict(events, event) is Ok {
        events.push(event)
    } else {
        events
    }
}

/// Whether every event of the sequence was acceptable when it was appended:
/// each one passes the rules against the events before it.
pub open spec fn accepted(events: Seq<LedgerEvent>) -> bool {
    forall|n: int| 0 <= n < events.len() ==> verdict(#[trigger] events.take(n), events[n]) is Ok
}

/// Whether `after` is `before` with exactly one event appended, which has the
/// given id, account and payload.
pub open spec fn appended(
    before: Seq<LedgerEvent>,
    after: Seq<LedgerEvent>,
    event_id: EventId,
    account_id: AccountId,
    payload: LedgerEventPayload,
) -> bool {
    &&& after.len() == before.len() + 1
    &&& after.drop_last() == before
    &&& after.last().id == event_id
    &&& after.last().account_id == account_id
    &&& after.last().payload == payload
}

/// Appending an event extends the history of its own account and of no other.
pub proof fn lemma_history_push(events: Seq<LedgerEvent>, event: LedgerEvent, id: AccountId)
    ensures
        history(events.push(event), id) == if event.account_id == id {
            history(events, id).push(event)
        } else {
            history(events, id)
        },
{
    reveal(Seq::filter);
    assert(events.push(event).drop_last() =~= events);
}

/// An account exists exactly when its history is not empty.
pub proof fn lemma_history_nonempty(events: Seq<LedgerEvent>, id: AccountId)
    ensures
        has_account(events, id) <==> history(events, id).len() > 0,
    decreases events.len(),
{
    reveal(Seq::filter);
    if events.len() > 0 {
        let front = events.drop_last();
        lemma_history_nonempty(front, id);
        if has_account(events, id) {
            let i = choose|i: int| 0 <= i < events.len() && (#[trigger] events[i]).account_id == id;
            if i < events.len() - 1 {
                assert(front[i].account_id == id);
            }
        }
        if has_account(front, id) {
            let i = choose|i: int| 0 <= i < front.len() && (#[trigger] front[i]).account_id == id;
            assert(events[i].account_id == id);
        }
        if events.last().account_id == id {
            assert(events[events.len() - 1].account_id == id);
        }
    }
}

/// The append-only store of all events of all accounts.
#[derive(Debug)]
pub struct Ledger {
    events: Vec<LedgerEvent>,
}

impl View for Ledger {
    type V = Seq<LedgerEvent>;

    closed spec fn view(&self) -> Seq<LedgerEvent> {
        self.events@
    }
}

impl Default for Ledger {
    fn default() -> (ledger: Self)
        ensures
            ledger@ == Seq::<LedgerEvent>::empty(),
    {
        Ledger::new()
    }
}

impl Ledger {
    /// The invariant of every ledger: each of its events was acceptable when
    /// it was appended.
    #[verifier::type_invariant]
    pub open spec fn is_consistent(self) -> bool {
        accepted(self@)
    }

    /// An empty ledger.
    pub fn new() -> (ledger: Self)
        ensures
            ledger@ == Seq::<LedgerEvent>::empty(),
    {
        Self { events: Vec::new() }
    }

    /// All events, in the order in which they were appended. Each of them was
    /// acceptable when it was appended.
    pub fn events(&self) -> (events: &[LedgerEvent])
        ensures
            events@ == self@,
            accepted(events@),
    {
        proof {
            use_type_invariant(self);
        }
        self.events.as_slice()
    }

    /// Whether some event belongs to the account.
    pub fn account_exists(&self, account_id: AccountId) -> (found: bool)
        ensures
            found == has_account(self@, account_id),
    {
        let mut i: usize = 0;
        while i < self.events.len()
            invariant
                i <= self.events.len(),
                forall|j: int| 0 <= j < i ==> (#[trigger] self.events@[j]).account_id != account_id,
            decreases self.events.len() - i,
        {
            if self.events[i].account_id == account_id {
                assert(self.events@[i as int].account_id == account_id);
                return true;
            }
            i += 1;
        }
        false
    }

    /// A snapshot of the account's events, in append order; `AccountNotFound`
    /// where the account has none.
    pub fn events_for_account(&self, account_id: AccountId) -> (r: Result<
        Vec<LedgerEvent>,
        DomainError,
    >)
        ensures
            !has_account(self@, account_id) ==> r == Err::<Vec<LedgerEvent>, DomainError>(
                DomainError::AccountNotFound,
            ),
            has_account(self@, account_id) ==> r is Ok && r->Ok_0@ == history(self@, account_id),
    {
        if !self.account_exists(account_id) {
            return Err(DomainError::AccountNotFound);
        }
        let mut found: Vec<LedgerEvent> = Vec::new();
        let mut i: usize = 0;
        proof {
            reveal(Seq::filter);
            assert(self.events@.take(0) =~= Seq::<LedgerEvent>::empty());
        }
        while i < self.events.len()
            invariant
                i <= self.events.len(),
                found@ == history(self.events@.take(i as int), account_id),
            decreases self.events.len() - i,
        {
            let event = self.events[i];
            proof {
                lemma_history_push(self.events@.take(i as int), event, account_id);
                assert(self.events@.take(i as int).push(event) =~= self.events@.take(i + 1));
            }
            if event.account_id == account_id {
                found.push(event);
            }
            i += 1;
        }
        assert(self.events@.take(i as int) =~= self.events@);
        Ok(found)
    }

    /// The balance of the account, derived by replaying its events.
    ///
    /// `AccountNotFound` where the account has no event; `InvalidMoney` with
    /// the first arithmetic failure where the replay hits one.
    pub fn balance_for_account(&self, account_id: AccountId) -> (r: Result<Money, DomainError>)
        ensures
            match r {
                Ok(balance) => balance_of(self@, account_id) == Ok::<MoneyView, DomainError>(
                    balance@,
                ),
                Err(e) => balance_of(self@, account_id) == Err::<MoneyView, DomainError>(e),
            },
            r is Ok ==> r->Ok_0@.amount >= 0,
    {
        let events = match self.events_for_account(account_id) {
            Ok(events) => events,
            Err(e) => {
                return Err(e);
            },
        };
        let mut balance = Money::zero(Currency::GBP);
        let mut i: usize = 0;
        assert(events@.take(0) =~= Seq::<LedgerEvent>::empty());
        while i < events.len()
            invariant
                i <= events.len(),
                events@ == history(self@, account_id),
                has_account(self@, account_id),
                replay(events@.take(i as int)) == Ok::<MoneyView, MoneyError>(balance@),
                balance@.amount >= 0,
            decreases events.len() - i,
        {
            let event = events[i];
            let ghost upto = events@.take(i + 1);
            proof {
                assert(upto.drop_last() =~= events@.take(i as int));
                assert(upto.last() == event);
                if apply_payload(balance@, event.payload) is Err {
                    lemma_replay_prefix_failure(events@, i + 1);
                }
            }
            match event.payload {
                LedgerEventPayload::Deposit { amount } => {
                    match balance.checked_add(amount) {
                        Ok(sum) => {
                            balance = sum;
                        },
                        Err(e) => {
                            return Err(DomainError::InvalidMoney(e));
                        },
                    }
                },
                LedgerEventPayload::Withdraw { amount } => {
                    match balance.checked_sub(amount) {
                        Ok(rest) => {
                            balance = rest;
                        },
                        Err(e) => {
                            return Err(DomainError::InvalidMoney(e));
                        },
                    }
                },
                LedgerEventPayload::AccountOpened => {},
            }
            i += 1;
        }
        assert(events@.take(i as int) =~= events@);
        Ok(balance)
    }

    /// Appends the event if the rules accept it, and returns its id.
    ///
    /// The ledger is one event longer on success and unchanged on failure.
    pub fn append(&mut self, event: LedgerEvent) -> (r: Result<EventId, DomainError>)
        ensures
            match verdict(old(self)@, event) {
                Ok(_) => r == Ok::<EventId, DomainError>(event.id),
                Err(e) => r == Err::<EventId, DomainError>(e),
            },
            final(self)@ == after_append(old(self)@, event),
            verdict(old(self)@, event) is Ok ==> balances_follow(old(self)@, final(self)@, event),
    {
        match event.payload {
            LedgerEventPayload::AccountOpened => {},
            LedgerEventPayload::Deposit { amount } => {
                if !self.account_exists(event.account_id) {
                    return Err(DomainError::AccountNotFound);
                }
            },
            LedgerEventPayload::Withdraw { amount } => {
                if !self.account_exists(event.account_id) {
                    return Err(DomainError::AccountNotFound);
                }
                let balance = match self.balance_for_account(event.account_id) {
                    Ok(balance) => balance,
                    Err(e) => {
                        return Err(e);
                    },
                };
                if balance.amount() < amount.amount() {
                    return Err(
                        DomainError::InsufficientFunds {
                            required_minor: amount.amount(),
                            available_minor: balance.amount(),
                        },
                    );
                }
            },
        }
        let id = event.id;
        proof {
            lemma_append_moves_one_balance(self@, event);
        }
        self.push_accepted(event);
        Ok(id)
    }

    /// Puts an acceptable event at the end of the sequence.
    fn push_accepted(&mut self, event: LedgerEvent)
        requires
            verdict(old(self)@, event) is Ok,
        ensures
            final(self)@ == old(self)@.push(event),
    {
        proof {
            use_type_invariant(&*self);
            lemma_accepted_push(self@, event);
        }
        let mut events: Vec<LedgerEvent> = Vec::new();
        core::mem::swap(&mut self.events, &mut events);
        events.push(event);
        self.events = events;
    }

    /// Opens an account under a fresh id and returns the id. Always succeeds
    /// and appends exactly one `AccountOpened` event.
    pub fn open_account(&mut self) -> (account_id: AccountId)
        ensures
            appended(
                old(self)@,
                final(self)@,
                final(self)@.last().id,
                account_id,
                LedgerEventPayload::AccountOpened,
            ),
            has_account(final(self)@, account_id),
            is_random_uuid(account_id.0),
            balances_follow(old(self)@, final(self)@, final(self)@.last()),
            !has_account(old(self)@, account_id) ==> balance_of(final(self)@, account_id) == Ok::<
                MoneyView,
                DomainError,
            >(MoneyView { amount: 0, currency: working_currency() }),
    {
        let account_id = AccountId::new_v4();
        let event = LedgerEvent::account_opened(account_id);
        let _ = self.append(event);
        proof {
            assert(self@.drop_last() =~= old(self)@);
            assert(self@[self@.len() - 1].account_id == account_id);
            if !has_account(old(self)@, account_id) {
                lemma_fresh_account_starts_empty(old(self)@, event);
            }
        }
        account_id
    }

    /// Records a deposit into an existing account and returns the event's id.
    ///
    /// `AccountNotFound`, with the ledger unchanged, where the account has no
    /// event. No amount is refused.
    pub fn deposit(&mut self, account_id: AccountId, amount: Money) -> (r: Result<
        EventId,
        DomainError,
    >)
        ensures
            !has_account(old(self)@, account_id) ==> r == Err::<EventId, DomainError>(
                DomainError::AccountNotFound,
            ) && final(self)@ == old(self)@,
            has_account(old(self)@, account_id) ==> r is Ok && appended(
                old(self)@,
                final(self)@,
                r->Ok_0,
                account_id,
                LedgerEventPayload::Deposit { amount },
            ) && balances_follow(old(self)@, final(self)@, final(self)@.last()),
    {
        if !self.account_exists(account_id) {
            return Err(DomainError::AccountNotFound);
        }
        let event = LedgerEvent::deposit(account_id, amount);
        let r = self.append(event);
        proof {
            assert(self@.drop_last() =~= old(self)@);
        }
        r
    }

    /// Records a withdrawal from an existing account whose balance covers it,
    /// and returns the event's id.
    ///
    /// Fails, with the ledger unchanged: with `AccountNotFound` where the
    /// account has no event; with `InvalidMoney` where its balance cannot be
    /// derived; with `InsufficientFunds`, carrying the amount asked for and
    /// the balance, where the balance is below the amount.
    pub fn withdraw(&mut self, account_id: AccountId, amount: Money) -> (r: Result<
        EventId,
        DomainError,
    >)
        ensures
            !has_account(old(self)@, account_id) ==> r == Err::<EventId, DomainError>(
                DomainError::AccountNotFound,
            ) && final(self)@ == old(self)@,
            match balance_of(old(self)@, account_id) {
                Err(e) => r == Err::<EventId, DomainError>(e) && final(self)@ == old(self)@,
                Ok(balance) => if balance.amount < amount@.amount {
                    r == Err::<EventId, DomainError>(
                        DomainError::InsufficientFunds {
                            required_minor: amount@.amount as i64,
                            available_minor: balance.amount as i64,
                        },
                    ) && final(self)@ == old(self)@
                } else {
                    r is Ok && appended(
                        old(self)@,
                        final(self)@,
                        r->Ok_0,
                        account_id,
                        LedgerEventPayload::Withdraw { amount },
                    ) && balances_follow(old(self)@, final(self)@, final(self)@.last())
                },
            },
    {
        if !self.account_exists(account_id) {
            return Err(DomainError::AccountNotFound);
        }
        let event = LedgerEvent::withdraw(account_id, amount);
        let r = self.append(event);
        proof {
            if r is Ok {
                assert(self@.drop_last() =~= old(self)@);
            }
        }
        r
    }
}

/// Once a prefix of the events fails to replay, so does every longer prefix,
/// with the same failure.
pub proof fn lemma_replay_prefix_failure(events: Seq<LedgerEvent>, n: int)
    requires
        0 <= n <= events.len(),
        replay(events.take(n)) is Err,
    ensures
        replay(events) == replay(events.take(n)),
    decreases events.len() - n,
{
    if n == events.len() {
        assert(events.take(n) =~= events);
    } else {
        assert(events.take(n + 1).drop_last() =~= events.take(n));
        lemma_replay_prefix_failure(events, n + 1);
    }
}

/// Appending an acceptable event to a sequence of accepted events gives a
/// sequence of accepted events.
pub proof fn lemma_accepted_push(events: Seq<LedgerEvent>, event: LedgerEvent)
    requires
        accepted(events),
        verdict(events, event) is Ok,
    ensures
        accepted(events.push(event)),
{
    let after = events.push(event);
    assert forall|n: int| 0 <= n < after.len() implies verdict(
        #[trigger] after.take(n),
        after[n],
    ) is Ok by {
        if n < events.len() {
            assert(after.take(n) =~= events.take(n));
        } else {
            assert(after.take(n) =~= events);
        }
    }
}

/// Every prefix of a sequence of accepted events is one too.
pub proof fn lemma_accepted_prefix(events: Seq<LedgerEvent>, n: int)
    requires
        accepted(events),
        0 <= n <= events.len(),
    ensures
        accepted(events.take(n)),
{
    let front = events.take(n);
    assert forall|k: int| 0 <= k < front.len() implies verdict(
        #[trigger] front.take(k),
        front[k],
    ) is Ok by {
        assert(front.take(k) =~= events.take(k));
    }
}

} // verus!
