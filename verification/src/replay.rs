//! What holds of a whole run: a sequence of transactions applied one after
//! the other, in the order in which they arrive.

use crate::client::Client;
use crate::engine::{after, lemma_step_keeps_balance, lemma_step_opens_one_account, steps_exactly, unlocked_balanced, Books};
use crate::transaction::{JournalEntry, Transaction};
use vstd::prelude::*;

verus! {

/// The state before anything has been applied: no account, no journal entry.
pub open spec fn empty_books() -> Books {
    Books { accounts: Map::<u16, Client>::empty(), journal: Map::<u32, JournalEntry>::empty() }
}

/// The state after each of `transactions` has been applied in turn,
/// starting from `state`.
pub open spec fn replayed(state: Books, transactions: Seq<Transaction>) -> Books
    decreases transactions.len(),
{
    if transactions.len() == 0 {
        state
    } else {
        after(replayed(state, transactions.drop_last()), transactions.last())
    }
}

/// Whether each of `transactions`, applied in turn from `state`, moves
/// balances without rounding, if it moves any.
pub open spec fn replays_exactly(state: Books, transactions: Seq<Transaction>) -> bool
    decreases transactions.len(),
{
    transactions.len() == 0 || {
        &&& replays_exactly(state, transactions.drop_last())
        &&& steps_exactly(replayed(state, transactions.drop_last()), transactions.last())
    }
}

/// Whether one of `transactions` names client `id`.
pub open spec fn refers_to(transactions: Seq<Transaction>, id: u16) -> bool {
    exists|i: int| 0 <= i < transactions.len() && (#[trigger] transactions[i]).client_id == id
}

/// At every point of a run without rounding, from the empty state or from
/// any state of which the same holds, the total of every account that no
/// chargeback has locked is the sum of its available and its held funds.
pub proof fn lemma_replay_keeps_balance(state: Books, transactions: Seq<Transaction>)
    requires
        unlocked_balanced(state.accounts),
        replays_exactly(state, transactions),
    ensures
        unlocked_balanced(replayed(state, transactions).accounts),
    decreases transactions.len(),
{
    if transactions.len() > 0 {
        lemma_replay_keeps_balance(state, transactions.drop_last());
        lemma_step_keeps_balance(replayed(state, transactions.drop_last()), transactions.last());
    }
}

/// After a run the accounts are those that were there before and those of
/// the clients that a transaction of the run names: a client that no
/// transaction names has no account.
pub proof fn lemma_replay_opens_referenced_accounts(
    state: Books,
    transactions: Seq<Transaction>,
    id: u16,
)
    ensures
        replayed(state, transactions).accounts.contains_key(id) <==> state.accounts.contains_key(id)
            || refers_to(transactions, id),
    decreases transactions.len(),
{
    if transactions.len() > 0 {
        let front = transactions.drop_last();
        let last = transactions.last();
        lemma_replay_opens_referenced_accounts(state, front, id);
        lemma_step_opens_one_account(replayed(state, front), last);
        if refers_to(front, id) {
            let i = choose|i: int| 0 <= i < front.len() && (#[trigger] front[i]).client_id == id;
            assert(transactions[i].client_id == id);
        }
        if last.client_id == id {
            assert(transactions[transactions.len() - 1].client_id == id);
        }
        if refers_to(transactions, id) && last.client_id != id {
            let i = choose|i: int|
                0 <= i < transactions.len() && (#[trigger] transactions[i]).client_id == id;
            assert(front[i].client_id == id);
        }
    }
}

/// The empty state is balanced: it has no account.
pub proof fn lemma_empty_books_balanced()
    ensures
        unlocked_balanced(empty_books().accounts),
{
}

} // verus!
