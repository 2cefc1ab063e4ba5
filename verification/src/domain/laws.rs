//! What holds of every ledger: balances as sums, isolation of accounts, and
//! the effect of one more event.

use vstd::prelude::*;
use crate::domain::errors::DomainError;
use crate::domain::events::{LedgerEvent, LedgerEventPayload};
use crate::domain::ledger::{
    accepted, after_append, apply_payload, balance_of, has_account, history,
    lemma_accepted_prefix, lemma_history_nonempty, lemma_history_push, replay, verdict,
    working_currency,
};
use crate::domain::money::{Money, MoneyError, MoneyView};
use crate::domain::types::AccountId;

verus! {

/// The minor units an event deposits: its amount for a deposit, else zero.
pub open spec fn deposit_of(payload: LedgerEventPayload) -> int {
    match payload {
        LedgerEventPayload::Deposit { amount } => amount@.amount,
        _ => 0,
    }
}

/// The minor units an event withdraws: its amount for a withdrawal, else zero.
pub open spec fn withdrawal_of(payload: LedgerEventPayload) -> int {
    match payload {
        LedgerEventPayload::Withdraw { amount } => amount@.amount,
        _ => 0,
    }
}

/// The sum of all deposited minor units.
pub open spec fn deposited(events: Seq<LedgerEvent>) -> int
    decreases events.len(),
{
    if events.len() == 0 {
        0
    } else {
        deposited(events.drop_last()) + deposit_of(events.last().payload)
    }
}

/// The sum of all withdrawn minor units.
pub open spec fn withdrawn(events: Seq<LedgerEvent>) -> int
    decreases events.len(),
{
    if events.len() == 0 {
        0
    } else {
        withdrawn(events.drop_last()) + withdrawal_of(events.last().payload)
    }
}

/// Whether the amount an event carries, if any, is valid.
pub open spec fn in_valid_amount(payload: LedgerEventPayload) -> bool {
    match payload {
        LedgerEventPayload::AccountOpened => true,
        LedgerEventPayload::Deposit { amount } => amount.is_valid(),
        LedgerEventPayload::Withdraw { amount } => amount.is_valid(),
    }
}

/// Whether the amount an event carries, if any, is a valid amount of the
/// working currency.
pub open spec fn in_working_currency(payload: LedgerEventPayload) -> bool {
    match payload {
        LedgerEventPayload::AccountOpened => true,
        LedgerEventPayload::Deposit { amount } => amount.is_valid() && amount@.currency
            == working_currency(),
        LedgerEventPayload::Withdraw { amount } => amount.is_valid() && amount@.currency
            == working_currency(),
    }
}

/// Whether all events of the account carry valid amounts of the working
/// currency.
pub open spec fn account_in_working_currency(events: Seq<LedgerEvent>, id: AccountId) -> bool {
    forall|i: int|
        0 <= i < events.len() && (#[trigger] events[i]).account_id == id ==> in_working_currency(
            events[i].payload,
        )
}

/// The outcome of a replay as the outcome of a balance query.
pub open spec fn as_balance(r: Result<MoneyView, MoneyError>) -> Result<MoneyView, DomainError> {
    match r {
        Ok(balance) => Ok(balance),
        Err(e) => Err(DomainError::InvalidMoney(e)),
    }
}

proof fn lemma_replay_is_net(events: Seq<LedgerEvent>, id: AccountId)
    requires
        accepted(events),
        account_in_working_currency(events, id),
        deposited(history(events, id)) <= i64::MAX,
    ensures
        replay(history(events, id)) == Ok::<MoneyView, MoneyError>(
            MoneyView {
                amount: deposited(history(events, id)) - withdrawn(history(events, id)),
                currency: working_currency(),
            },
        ),
        0 <= withdrawn(history(events, id)) <= deposited(history(events, id)),
    decreases events.len(),
{
    reveal(Seq::filter);
    if events.len() > 0 {
        let front = events.drop_last();
        let last = events.last();
        let mine = history(front, id);
        assert(front =~= events.take(events.len() - 1));
        assert(events =~= front.push(last));
        lemma_accepted_prefix(events, events.len() - 1);
        assert(verdict(events.take(events.len() - 1), events[events.len() - 1]) is Ok);
        lemma_history_push(front, last, id);
        assert forall|i: int| 0 <= i < front.len() && (#[trigger] front[i]).account_id
            == id implies in_working_currency(front[i].payload) by {
            assert(events[i].account_id == id);
        }
        if last.account_id == id {
            assert(in_working_currency(events[events.len() - 1].payload));
            assert(mine.push(last).drop_last() =~= mine);
            lemma_replay_is_net(front, id);
            if last.payload is Withdraw {
                lemma_history_nonempty(front, id);
            }
        } else {
            lemma_replay_is_net(front, id);
        }
    }
}

/// The balance of an account is the sum of its deposits minus the sum of its
/// withdrawals, and is never negative.
///
/// This holds of every ledger built by accepted appends, for an account whose
/// amounts are all of the working currency and whose deposits together stay
/// within the range of minor units.
pub proof fn lemma_balance_is_deposits_minus_withdrawals(events: Seq<LedgerEvent>, id: AccountId)
    requires
        accepted(events),
        has_account(events, id),
        account_in_working_currency(events, id),
        deposited(history(events, id)) <= i64::MAX,
    ensures
        balance_of(events, id) == Ok::<MoneyView, DomainError>(
            MoneyView {
                amount: deposited(history(events, id)) - withdrawn(history(events, id)),
                currency: working_currency(),
            },
        ),
        deposited(history(events, id)) - withdrawn(history(events, id)) >= 0,
{
    lemma_replay_is_net(events, id);
}

/// A replay that succeeds never yields a negative balance, whatever the
/// events, as long as the amounts they carry are valid.
pub proof fn lemma_replay_never_negative(events: Seq<LedgerEvent>)
    requires
        forall|i: int| 0 <= i < events.len() ==> in_valid_amount(#[trigger] events[i].payload),
    ensures
        replay(events) is Ok ==> replay(events)->Ok_0.amount >= 0,
    decreases events.len(),
{
    if events.len() > 0 {
        let front = events.drop_last();
        assert forall|i: int| 0 <= i < front.len() implies in_valid_amount(
            #[trigger] front[i].payload,
        ) by {
            assert(front[i] == events[i]);
        }
        lemma_replay_never_negative(front);
        assert(in_valid_amount(events[events.len() - 1].payload));
    }
}

/// The balance of an account is a function of that account's history alone:
/// two ledgers in which the account has the same events give the same balance.
pub proof fn lemma_balance_depends_on_history(
    a: Seq<LedgerEvent>,
    b: Seq<LedgerEvent>,
    id: AccountId,
)
    requires
        history(a, id) == history(b, id),
    ensures
        balance_of(a, id) == balance_of(b, id),
{
    lemma_history_nonempty(a, id);
    lemma_history_nonempty(b, id);
}

/// An event of another account, wherever it stands in the sequence, changes
/// neither the history nor the balance of this one. So events of other
/// accounts can be added, removed or moved without any effect here.
pub proof fn lemma_foreign_event_ignored(
    before: Seq<LedgerEvent>,
    foreign: LedgerEvent,
    after: Seq<LedgerEvent>,
    id: AccountId,
)
    requires
        foreign.account_id != id,
    ensures
        history(before.push(foreign) + after, id) == history(before + after, id),
        balance_of(before.push(foreign) + after, id) == balance_of(before + after, id),
{
    let keep = |e: LedgerEvent| e.account_id == id;
    lemma_history_push(before, foreign, id);
    Seq::filter_distributes_over_add(before.push(foreign), after, keep);
    Seq::filter_distributes_over_add(before, after, keep);
    lemma_balance_depends_on_history(before.push(foreign) + after, before + after, id);
}

/// Opening an account under an id that no event uses yet gives an account
/// whose history is the one opening event and whose balance is zero.
pub proof fn lemma_fresh_account_starts_empty(events: Seq<LedgerEvent>, opened: LedgerEvent)
    requires
        opened.payload == LedgerEventPayload::AccountOpened,
        !has_account(events, opened.account_id),
    ensures
        has_account(events.push(opened), opened.account_id),
        history(events.push(opened), opened.account_id) == seq![opened],
        balance_of(events.push(opened), opened.account_id) == Ok::<MoneyView, DomainError>(
            MoneyView { amount: 0, currency: working_currency() },
        ),
{
    let id = opened.account_id;
    let after = events.push(opened);
    lemma_history_nonempty(events, id);
    lemma_history_push(events, opened, id);
    assert(history(events, id) =~= Seq::<LedgerEvent>::empty());
    assert(history(after, id) =~= seq![opened]);
    lemma_history_nonempty(after, id);
    assert(seq![opened].drop_last() =~= Seq::<LedgerEvent>::empty());
    assert(replay(Seq::<LedgerEvent>::empty()) == Ok::<MoneyView, MoneyError>(
        MoneyView { amount: 0, currency: working_currency() },
    ));
}

/// One more event of an account with a balance moves that balance by the
/// event's payload: up by a deposit, down by a withdrawal, not at all by an
/// opening.
pub proof fn lemma_balance_after_event(events: Seq<LedgerEvent>, event: LedgerEvent)
    requires
        balance_of(events, event.account_id) is Ok,
    ensures
        balance_of(events.push(event), event.account_id) == as_balance(
            apply_payload(balance_of(events, event.account_id)->Ok_0, event.payload),
        ),
{
    let id = event.account_id;
    let after = events.push(event);
    lemma_history_push(events, event, id);
    lemma_history_nonempty(events, id);
    lemma_history_nonempty(after, id);
    assert(history(events, id).push(event).drop_last() =~= history(events, id));
}

/// Of two withdrawals from one account that its balance covers singly but not
/// together, the one that comes first is accepted and the other is then
/// refused for insufficient funds. Nothing is appended for the second, and the
/// balance left is the old one less the first amount: never negative.
///
/// A ledger is changed only through exclusive access, so two callers in a race
/// are served one after the other, in one of the two orders this law covers.
pub proof fn lemma_one_of_two_withdrawals(
    events: Seq<LedgerEvent>,
    first: LedgerEvent,
    first_amount: Money,
    second: LedgerEvent,
    second_amount: Money,
)
    requires
        first.account_id == second.account_id,
        first.payload == (LedgerEventPayload::Withdraw { amount: first_amount }),
        second.payload == (LedgerEventPayload::Withdraw { amount: second_amount }),
        first_amount.is_valid(),
        second_amount.is_valid(),
        balance_of(events, first.account_id) is Ok,
        first_amount@.currency == balance_of(events, first.account_id)->Ok_0.currency,
        second_amount@.currency == balance_of(events, first.account_id)->Ok_0.currency,
        first_amount@.amount <= balance_of(events, first.account_id)->Ok_0.amount,
        second_amount@.amount <= balance_of(events, first.account_id)->Ok_0.amount,
        balance_of(events, first.account_id)->Ok_0.amount < first_amount@.amount
            + second_amount@.amount,
    ensures
        verdict(events, first) is Ok,
        verdict(events.push(first), second) == Err::<(), DomainError>(
            DomainError::InsufficientFunds {
                required_minor: second_amount@.amount as i64,
                available_minor: (balance_of(events, first.account_id)->Ok_0.amount
                    - first_amount@.amount) as i64,
            },
        ),
        after_append(after_append(events, first), second) == events.push(first),
        balance_of(events.push(first), first.account_id) == Ok::<MoneyView, DomainError>(
            MoneyView {
                amount: balance_of(events, first.account_id)->Ok_0.amount - first_amount@.amount,
                currency: balance_of(events, first.account_id)->Ok_0.currency,
            },
        ),
{
    lemma_balance_after_event(events, first);
}

/// How the balances stand after one more event: every other account keeps
/// its balance, and the event's own account, if it had one, has it moved by
/// the event's payload.
pub open spec fn balances_follow(
    before: Seq<LedgerEvent>,
    after: Seq<LedgerEvent>,
    event: LedgerEvent,
) -> bool {
    &&& forall|other: AccountId|
        other != event.account_id ==> #[trigger] balance_of(after, other) == balance_of(
            before,
            other,
        )
    &&& balance_of(before, event.account_id) is Ok ==> balance_of(after, event.account_id)
        == as_balance(apply_payload(balance_of(before, event.account_id)->Ok_0, event.payload))
}

/// Appending an event moves the balance of its own account by its payload and
/// leaves the balance of every other account as it was.
pub proof fn lemma_append_moves_one_balance(events: Seq<LedgerEvent>, event: LedgerEvent)
    ensures
        balances_follow(events, events.push(event), event),
{
    let after = events.push(event);
    assert forall|other: AccountId| other != event.account_id implies #[trigger] balance_of(
        after,
        other,
    ) == balance_of(events, other) by {
        lemma_foreign_event_ignored(events, event, Seq::<LedgerEvent>::empty(), other);
        assert(events.push(event) + Seq::<LedgerEvent>::empty() =~= after);
        assert(events + Seq::<LedgerEvent>::empty() =~= events);
    }
    if balance_of(events, event.account_id) is Ok {
        lemma_balance_after_event(events, event);
    }
}

} // verus!
