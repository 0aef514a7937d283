//! The ledger engine: what one transaction does to the account store and to
//! the transaction journal.

use crate::amount::{lemma_zero_units, Amount};
use crate::client::Client;
use crate::client_list::{with_account, ClientList};
use crate::transaction::{JournalEntry, LedgerError, Transaction, TransactionType};
use crate::transaction_list::{marked, TransactionList};
use vstd::prelude::*;

verus! {

/// The state of the ledger as contracts see it: the accounts by client
/// identifier and the journal by transaction identifier.
pub struct Books {
    pub accounts: Map<u16, Client>,
    pub journal: Map<u32, JournalEntry>,
}

/// The state that the two stores hold between them.
pub open spec fn books(client_list: ClientList, transaction_list: TransactionList) -> Books {
    Books { accounts: client_list@, journal: transaction_list@ }
}

/// The entry that the journal keeps of a standard transaction.
pub open spec fn entry_of(transaction: Transaction, amount: Amount) -> JournalEntry {
    JournalEntry {
        client_id: transaction.client_id,
        transaction_type: transaction.transaction_type,
        amount,
        disputed: false,
    }
}

/// Whether `client` can take a transaction of `kind` over `amount` without
/// a balance leaving the representable amounts.
pub open spec fn within_range(client: Client, kind: TransactionType, amount: Amount) -> bool {
    match kind {
        TransactionType::Deposit => client.can_deposit(amount),
        TransactionType::Withdrawal => client.can_withdraw(amount),
        TransactionType::Dispute => client.can_hold(amount),
        TransactionType::Resolve => client.can_release(amount),
        TransactionType::ChargeBack => client.can_withdraw(amount),
    }
}

/// The account of `client` after a transaction of `kind` over `amount` has
/// taken effect on it.
pub open spec fn applied(client: Client, kind: TransactionType, amount: Amount) -> Client {
    match kind {
        TransactionType::Deposit => client.deposited(amount),
        TransactionType::Withdrawal => client.withdrawn(amount),
        TransactionType::Dispute => client.holding(amount),
        TransactionType::Resolve => client.released(amount),
        TransactionType::ChargeBack => client.withdrawn(amount).frozen(),
    }
}

/// Whether a meta transaction of `kind` takes effect on `entry`: a dispute
/// always does, a resolve and a chargeback only on a disputed entry.
pub open spec fn takes_effect(kind: TransactionType, entry: JournalEntry) -> bool {
    kind is Dispute || entry.disputed
}

/// How a standard transaction ends.
pub open spec fn standard_result(state: Books, transaction: Transaction) -> Result<
    (),
    LedgerError,
> {
    match transaction.amount {
        None => Err(LedgerError::MissingAmount),
        Some(amount) => {
            let client = with_account(state.accounts, transaction.client_id)[transaction.client_id];
            if within_range(client, transaction.transaction_type, amount) {
                Ok(())
            } else {
                Err(LedgerError::AmountOverflow)
            }
        },
    }
}

/// The state after a standard transaction. Without an amount nothing
/// changes. Otherwise the client has an account; where the balances stay in
/// range they move, and the transaction is journaled under its identifier,
/// in place of any entry that stood there.
pub open spec fn after_standard(state: Books, transaction: Transaction) -> Books {
    match transaction.amount {
        None => state,
        Some(amount) => {
            let accounts = with_account(state.accounts, transaction.client_id);
            let client = accounts[transaction.client_id];
            if within_range(client, transaction.transaction_type, amount) {
                Books {
                    accounts: accounts.insert(
                        transaction.client_id,
                        applied(client, transaction.transaction_type, amount),
                    ),
                    journal: state.journal.insert(
                        transaction.transaction_id,
                        entry_of(transaction, amount),
                    ),
                }
            } else {
                Books { accounts, journal: state.journal }
            }
        },
    }
}

/// How a meta transaction ends.
pub open spec fn meta_result(state: Books, transaction: Transaction) -> Result<(), LedgerError> {
    if state.journal.contains_key(transaction.transaction_id) {
        let entry = state.journal[transaction.transaction_id];
        let client = with_account(state.accounts, transaction.client_id)[transaction.client_id];
        if takes_effect(transaction.transaction_type, entry) && !within_range(
            client,
            transaction.transaction_type,
            entry.amount,
        ) {
            Err(LedgerError::AmountOverflow)
        } else {
            Ok(())
        }
    } else {
        Ok(())
    }
}

/// The state after a meta transaction. Where the journal has no entry under
/// the identifier referred to, nothing changes. Otherwise the client named by
/// the meta transaction has an account; where the transaction takes effect
/// and the balances stay in range, they move by the amount of the entry, and
/// a dispute marks the entry.
pub open spec fn after_meta(state: Books, transaction: Transaction) -> Books {
    if state.journal.contains_key(transaction.transaction_id) {
        let entry = state.journal[transaction.transaction_id];
        let accounts = with_account(state.accounts, transaction.client_id);
        let client = accounts[transaction.client_id];
        let kind = transaction.transaction_type;
        if takes_effect(kind, entry) && within_range(client, kind, entry.amount) {
            Books {
                accounts: accounts.insert(
                    transaction.client_id,
                    applied(client, kind, entry.amount),
                ),
                journal: if kind is Dispute {
                    marked(state.journal, transaction.transaction_id, true)
                } else {
                    state.journal
                },
            }
        } else {
            Books { accounts, journal: state.journal }
        }
    } else {
        state
    }
}

/// The state in which the client of `transaction` has an account.
pub open spec fn opened(state: Books, transaction: Transaction) -> Books {
    Books { accounts: with_account(state.accounts, transaction.client_id), journal: state.journal }
}

/// How a transaction ends.
pub open spec fn result_of(state: Books, transaction: Transaction) -> Result<(), LedgerError> {
    if transaction.transaction_type.is_standard() {
        standard_result(opened(state, transaction), transaction)
    } else {
        meta_result(opened(state, transaction), transaction)
    }
}

/// The state after a transaction: its client has an account, whatever
/// else happens, and the transaction is applied by its kind.
pub open spec fn after(state: Books, transaction: Transaction) -> Books {
    if transaction.transaction_type.is_standard() {
        after_standard(opened(state, transaction), transaction)
    } else {
        after_meta(opened(state, transaction), transaction)
    }
}

/// Whether `client` can take a transaction of `kind` over `amount`, tried
/// on its balances.
fn stays_within_range(client: &Client, kind: TransactionType, amount: Amount) -> (r: bool)
    ensures
        r == within_range(*client, kind, amount),
{
    match kind {
        TransactionType::Deposit => client.available_amount.checked_add(amount).is_some()
            && client.total_amount.checked_add(amount).is_some(),
        TransactionType::Withdrawal | TransactionType::ChargeBack => {
            client.available_amount.checked_sub(amount).is_some()
                && client.total_amount.checked_sub(amount).is_some()
        },
        TransactionType::Dispute => client.available_amount.checked_sub(amount).is_some()
            && client.held_amount.checked_add(amount).is_some(),
        TransactionType::Resolve => client.held_amount.checked_sub(amount).is_some()
            && client.available_amount.checked_add(amount).is_some(),
    }
}

/// Applies a deposit or a withdrawal.
pub fn handle_standard_transaction(
    transaction: Transaction,
    client_list: &mut ClientList,
    transaction_list: &mut TransactionList,
) -> (r: Result<(), LedgerError>)
    requires
        transaction.transaction_type.is_standard(),
    ensures
        r == standard_result(books(*old(client_list), *old(transaction_list)), transaction),
        books(*final(client_list), *final(transaction_list)) == after_standard(
            books(*old(client_list), *old(transaction_list)),
            transaction,
        ),
{
    let amount = match transaction.amount() {
        Ok(amount) => amount,
        Err(e) => {
            return Err(e);
        },
    };
    let mut client = client_list.get_or_create(transaction.client_id);
    if !stays_within_range(&client, transaction.transaction_type, amount) {
        return Err(LedgerError::AmountOverflow);
    }
    match transaction.transaction_type {
        TransactionType::Deposit => client.deposit(amount),
        _ => client.withdraw(amount),
    }
    client_list.insert(client);
    transaction_list.record(
        transaction.transaction_id,
        transaction.client_id,
        transaction.transaction_type,
        amount,
    );
    Ok(())
}

/// Applies a dispute, a resolve or a chargeback.
pub fn handle_meta_transaction(
    transaction: Transaction,
    client_list: &mut ClientList,
    transaction_list: &mut TransactionList,
) -> (r: Result<(), LedgerError>)
    requires
        !transaction.transaction_type.is_standard(),
    ensures
        r == meta_result(books(*old(client_list), *old(transaction_list)), transaction),
        books(*final(client_list), *final(transaction_list)) == after_meta(
            books(*old(client_list), *old(transaction_list)),
            transaction,
        ),
{
    let entry = match transaction_list.get(transaction.transaction_id) {
        Some(entry) => *entry,
        None => {
            return Ok(());
        },
    };
    let mut client = client_list.get_or_create(transaction.client_id);
    match transaction.transaction_type {
        TransactionType::Dispute => {
            if !stays_within_range(&client, TransactionType::Dispute, entry.amount) {
                return Err(LedgerError::AmountOverflow);
            }
            client.hold(entry.amount);
            client_list.insert(client);
            transaction_list.mark_disputed(transaction.transaction_id, true);
        },
        TransactionType::Resolve => {
            if entry.disputed {
                if !stays_within_range(&client, TransactionType::Resolve, entry.amount) {
                    return Err(LedgerError::AmountOverflow);
                }
                client.release(entry.amount);
                client_list.insert(client);
            }
        },
        _ => {
            if entry.disputed {
                if !stays_within_range(&client, TransactionType::ChargeBack, entry.amount) {
                    return Err(LedgerError::AmountOverflow);
                }
                client.withdraw(entry.amount);
                client.freeze();
                client_list.insert(client);
            }
        },
    }
    Ok(())
}

/// Applies one transaction to the two stores.
///
/// The client of the transaction has an account afterwards, whatever else
/// happens. A deposit or a withdrawal moves the balances and is journaled. A
/// dispute, a resolve or a chargeback acts on the journaled transaction it
/// refers to, and is dropped where there is none or where it does not take
/// effect. The only failures are a standard transaction without an amount
/// and a balance that would leave the representable amounts; on both,
/// balances and journal are as before.
pub fn handle_transaction(
    transaction: Transaction,
    client_list: &mut ClientList,
    transaction_list: &mut TransactionList,
) -> (r: Result<(), LedgerError>)
    ensures
        r == result_of(books(*old(client_list), *old(transaction_list)), transaction),
        books(*final(client_list), *final(transaction_list)) == after(
            books(*old(client_list), *old(transaction_list)),
            transaction,
        ),
{
    client_list.get_or_create(transaction.client_id);
    if transaction.transaction_type.is_standard() {
        handle_standard_transaction(transaction, client_list, transaction_list)
    } else {
        handle_meta_transaction(transaction, client_list, transaction_list)
    }
}

/// Whether every account that no chargeback has locked is balanced.
pub open spec fn unlocked_balanced(accounts: Map<u16, Client>) -> bool {
    forall|id: u16| #[trigger]
        accounts.contains_key(id) && !accounts[id].locked ==> accounts[id].balanced()
}

/// Whether a transaction of `kind` over `amount` moves the balances of
/// `client` without rounding. A chargeback breaks the balance whether it
/// rounds or not, and counts as exact.
pub open spec fn moves_exactly(client: Client, kind: TransactionType, amount: Amount) -> bool {
    match kind {
        TransactionType::Deposit => client.deposits_exactly(amount),
        TransactionType::Withdrawal => client.withdraws_exactly(amount),
        TransactionType::Dispute => client.holds_exactly(amount),
        TransactionType::Resolve => client.releases_exactly(amount),
        TransactionType::ChargeBack => true,
    }
}

/// Whether `transaction`, applied in `state`, moves balances without
/// rounding, if it moves any.
pub open spec fn steps_exactly(state: Books, transaction: Transaction) -> bool {
    let client = with_account(state.accounts, transaction.client_id)[transaction.client_id];
    let kind = transaction.transaction_type;
    if kind.is_standard() {
        transaction.amount matches Some(amount) ==> moves_exactly(client, kind, amount)
    } else {
        state.journal.contains_key(transaction.transaction_id) && takes_effect(
            kind,
            state.journal[transaction.transaction_id],
        ) ==> moves_exactly(client, kind, state.journal[transaction.transaction_id].amount)
    }
}

/// A transaction that moves balances without rounding leaves every account
/// balanced that was balanced before and that no chargeback has locked: the
/// total stays the sum of the available and the held funds.
pub proof fn lemma_step_keeps_balance(state: Books, transaction: Transaction)
    requires
        unlocked_balanced(state.accounts),
        steps_exactly(state, transaction),
    ensures
        unlocked_balanced(after(state, transaction).accounts),
{
    let id = transaction.client_id;
    let kind = transaction.transaction_type;
    let accounts = with_account(state.accounts, id);
    let client = accounts[id];
    Amount::lemma_of(0, 0);
    lemma_zero_units(0);
    assert(Client::fresh(id).balanced());
    assert(unlocked_balanced(accounts));
    let end = after(state, transaction).accounts;
    assert forall|other: u16| #[trigger] end.contains_key(other) && !end[other].locked implies end[other].balanced() by {
        if other != id {
            assert(accounts.contains_key(other));
            assert(end[other] == accounts[other]);
        } else {
            assert(accounts.contains_key(id));
            if end[id] != client {
                assert(!client.locked);
                assert(client.balanced());
            }
        }
    }
}

/// A dispute, a resolve or a chargeback that refers to a transaction the
/// journal does not hold changes no balance and no journal entry, the first
/// time and every time after: all it leaves behind is the account of its
/// client, empty where the client was new.
pub proof fn lemma_dangling_reference_is_dropped(state: Books, transaction: Transaction)
    requires
        !transaction.transaction_type.is_standard(),
        !state.journal.contains_key(transaction.transaction_id),
    ensures
        result_of(state, transaction) == Ok::<(), LedgerError>(()),
        after_meta(state, transaction) == state,
        after(state, transaction) == opened(state, transaction),
        after(state, transaction).journal == state.journal,
        forall|id: u16| #[trigger]
            state.accounts.contains_key(id) ==> after(state, transaction).accounts[id]
                == state.accounts[id],
        after(after(state, transaction), transaction) == after(state, transaction),
{
    let once = after(state, transaction);
    assert(with_account(once.accounts, transaction.client_id) == once.accounts);
}

/// A resolve or a chargeback that refers to a journaled transaction which
/// is not disputed changes no balance and no journal entry.
pub proof fn lemma_undisputed_reference_is_dropped(state: Books, transaction: Transaction)
    requires
        transaction.transaction_type is Resolve || transaction.transaction_type is ChargeBack,
        state.journal.contains_key(transaction.transaction_id),
        !state.journal[transaction.transaction_id].disputed,
    ensures
        result_of(state, transaction) == Ok::<(), LedgerError>(()),
        after(state, transaction) == opened(state, transaction),
{
}

/// A transaction gives an account to its own client and to no other.
pub proof fn lemma_step_opens_one_account(state: Books, transaction: Transaction)
    ensures
        after(state, transaction).accounts.dom() == state.accounts.dom().insert(
            transaction.client_id,
        ),
{
    assert(after(state, transaction).accounts.dom() =~= state.accounts.dom().insert(
        transaction.client_id,
    ));
}

/// A deposit followed by a withdrawal of the same amount by the same client,
/// both without rounding, brings the available and the total funds of that
/// client back to the values they had, and leaves the held funds untouched.
pub proof fn lemma_deposit_then_withdrawal(
    state: Books,
    deposit: Transaction,
    withdrawal: Transaction,
)
    requires
        deposit.transaction_type is Deposit,
        withdrawal.transaction_type is Withdrawal,
        deposit.client_id == withdrawal.client_id,
        deposit.amount is Some,
        deposit.amount == withdrawal.amount,
        steps_exactly(state, deposit),
        steps_exactly(after(state, deposit), withdrawal),
    ensures
        ({
            let id = deposit.client_id;
            let before = with_account(state.accounts, id)[id];
            let end = after(after(state, deposit), withdrawal).accounts[id];
            &&& end.available_amount.units() == before.available_amount.units()
            &&& end.total_amount.units() == before.total_amount.units()
            &&& end.held_amount == before.held_amount
            &&& end.locked == before.locked
        }),
{
    let id = deposit.client_id;
    let amount = deposit.amount.unwrap();
    let before = with_account(state.accounts, id)[id];
    let between = after(state, deposit);
    assert(between.accounts[id] == before.deposited(amount));
    assert(with_account(between.accounts, id) == between.accounts);
    before.lemma_deposit_then_withdraw(amount);
}

} // verus!
