use ledger_engine::{
    handle_meta_transaction, handle_standard_transaction, handle_transaction, Amount, Client,
    ClientList, LedgerError, Transaction, TransactionList, TransactionType,
};

fn deposit(client_id: u16, transaction_id: u32, amount: Amount) -> Transaction {
    Transaction {
        transaction_type: TransactionType::Deposit,
        client_id,
        transaction_id,
        amount: Some(amount),
    }
}

fn withdrawal(client_id: u16, transaction_id: u32, amount: Amount) -> Transaction {
    Transaction {
        transaction_type: TransactionType::Withdrawal,
        client_id,
        transaction_id,
        amount: Some(amount),
    }
}

fn meta(kind: TransactionType, client_id: u16, transaction_id: u32) -> Transaction {
    Transaction { transaction_type: kind, client_id, transaction_id, amount: None }
}

#[test]
fn handle_transaction_deposit_test() {
    let mut client_list = ClientList::new();
    let mut transaction_list = TransactionList::new();

    let client_id = 1;

    let transaction_amount = Amount::new(104752, 4);

    handle_transaction(
        Transaction {
            transaction_type: TransactionType::Deposit,
            client_id,
            transaction_id: 1,
            amount: Some(transaction_amount),
        },
        &mut client_list,
        &mut transaction_list,
    )
    .unwrap();

    assert_eq!(
        &Client {
            id: client_id,
            available_amount: transaction_amount,
            held_amount: Amount::new(0, 0),
            total_amount: transaction_amount,
            locked: false,
        },
        client_list.get(client_id).unwrap()
    );

    handle_transaction(
        Transaction {
            transaction_type: TransactionType::Deposit,
            client_id,
            transaction_id: 1,
            amount: Some(Amount::new(50000, 4)),
        },
        &mut client_list,
        &mut transaction_list,
    )
    .unwrap();

    let sum = transaction_amount.checked_add(Amount::new(5, 0)).unwrap();
    assert_eq!(
        &Client {
            id: client_id,
            available_amount: sum,
            held_amount: Amount::new(0, 0),
            total_amount: sum,
            locked: false,
        },
        client_list.get(client_id).unwrap()
    );
}

#[test]
fn dispute_should_hold_the_amount_specified_in_the_target_transaction() {
    let client_id = 1;
    let mut client_list = ClientList::new();
    client_list.insert(Client::new(client_id));
    let amount = Amount::new(50000, 4);
    let mut transaction_list = TransactionList::new();
    let deposit_transaction_id = 1;

    handle_transaction(
        Transaction {
            transaction_type: TransactionType::Deposit,
            client_id,
            transaction_id: deposit_transaction_id,
            amount: Some(amount),
        },
        &mut client_list,
        &mut transaction_list,
    )
    .unwrap();

    handle_transaction(
        Transaction {
            transaction_type: TransactionType::Dispute,
            client_id,
            transaction_id: deposit_transaction_id,
            amount: None,
        },
        &mut client_list,
        &mut transaction_list,
    )
    .unwrap();

    let client = client_list.get(client_id).unwrap();
    assert_eq!(client.held_amount, amount);
    assert_eq!(client.available_amount, Amount::new(0, 0));
}

#[test]
fn resolve_releases_the_disputed_funds_and_references_the_transaction_given_by_the_tx() {
    let client_id = 1;
    let mut client_list = ClientList::new();
    client_list.insert(Client::new(client_id));
    let mut transaction_list = TransactionList::new();
    let deposit_transaction_id = 1;

    handle_transaction(
        Transaction {
            transaction_type: TransactionType::Deposit,
            client_id,
            transaction_id: deposit_transaction_id,
            amount: Some(Amount::new(100000, 4)),
        },
        &mut client_list,
        &mut transaction_list,
    )
    .unwrap();

    handle_transaction(
        Transaction {
            transaction_type: TransactionType::Resolve,
            client_id,
            transaction_id: deposit_transaction_id,
            amount: None,
        },
        &mut client_list,
        &mut transaction_list,
    )
    .unwrap();

    // The deposit was never disputed, so the resolve is dropped.
    let client = client_list.get(client_id).unwrap();
    assert_eq!(client.held_amount, Amount::new(0, 0));
    assert_eq!(client.available_amount, Amount::new(100000, 4));
    assert_eq!(client.total_amount, Amount::new(100000, 4));
    assert!(!client.locked);
}

#[test]
fn two_deposits_accumulate() {
    let mut clients = ClientList::new();
    let mut journal = TransactionList::new();
    handle_transaction(deposit(1, 1, Amount::new(104752, 4)), &mut clients, &mut journal).unwrap();
    handle_transaction(deposit(1, 2, Amount::new(50000, 4)), &mut clients, &mut journal).unwrap();
    let client = *clients.get(1).unwrap();
    assert_eq!(client.available_amount.mantissa(), 154752);
    assert_eq!(client.available_amount.scale(), 4);
    assert_eq!(client.held_amount, Amount::zero());
    assert_eq!(client.total_amount, Amount::new(154752, 4));
    assert!(!client.locked);
    assert_eq!(journal.get(1).unwrap().amount, Amount::new(104752, 4));
    assert_eq!(journal.get(2).unwrap().amount, Amount::new(5, 0));
    assert!(!journal.get(2).unwrap().disputed);
    assert_eq!(journal.get(2).unwrap().client_id, 1);
    assert_eq!(journal.get(2).unwrap().transaction_type, TransactionType::Deposit);
}

#[test]
fn dispute_moves_funds_to_held() {
    let mut clients = ClientList::new();
    let mut journal = TransactionList::new();
    handle_transaction(deposit(1, 1, Amount::new(50000, 4)), &mut clients, &mut journal).unwrap();
    handle_transaction(meta(TransactionType::Dispute, 1, 1), &mut clients, &mut journal).unwrap();
    let client = *clients.get(1).unwrap();
    assert_eq!(client.available_amount, Amount::zero());
    assert_eq!(client.held_amount, Amount::new(50000, 4));
    assert_eq!(client.total_amount, Amount::new(50000, 4));
    assert!(!client.locked);
    assert!(journal.get(1).unwrap().disputed);
}

#[test]
fn resolve_without_dispute_changes_nothing() {
    let mut clients = ClientList::new();
    let mut journal = TransactionList::new();
    handle_transaction(deposit(1, 1, Amount::new(100000, 4)), &mut clients, &mut journal).unwrap();
    let before = *clients.get(1).unwrap();
    handle_transaction(meta(TransactionType::Resolve, 1, 1), &mut clients, &mut journal).unwrap();
    let client = *clients.get(1).unwrap();
    assert_eq!(client, before);
    assert_eq!(client.available_amount, Amount::new(100000, 4));
    assert_eq!(client.held_amount, Amount::zero());
    assert_eq!(client.total_amount, Amount::new(100000, 4));
    assert!(!journal.get(1).unwrap().disputed);
}

#[test]
fn chargeback_without_dispute_changes_nothing() {
    let mut clients = ClientList::new();
    let mut journal = TransactionList::new();
    handle_transaction(deposit(1, 1, Amount::new(100000, 4)), &mut clients, &mut journal).unwrap();
    handle_transaction(meta(TransactionType::ChargeBack, 1, 1), &mut clients, &mut journal)
        .unwrap();
    let client = *clients.get(1).unwrap();
    assert_eq!(client.available_amount, Amount::new(100000, 4));
    assert_eq!(client.total_amount, Amount::new(100000, 4));
    assert!(!client.locked);
}

#[test]
fn chargeback_after_dispute_locks_the_account() {
    let mut clients = ClientList::new();
    let mut journal = TransactionList::new();
    handle_transaction(deposit(1, 1, Amount::new(100000, 4)), &mut clients, &mut journal).unwrap();
    handle_transaction(meta(TransactionType::Dispute, 1, 1), &mut clients, &mut journal).unwrap();
    let disputed = *clients.get(1).unwrap();
    assert_eq!(disputed.available_amount, Amount::zero());
    assert_eq!(disputed.held_amount, Amount::new(100000, 4));
    handle_transaction(meta(TransactionType::ChargeBack, 1, 1), &mut clients, &mut journal)
        .unwrap();
    let client = *clients.get(1).unwrap();
    assert!(client.locked);
    // The chargeback takes the amount from the available and the total
    // funds; the held funds stay.
    assert_eq!(client.available_amount, Amount::new(-100000, 4));
    assert_eq!(client.total_amount, Amount::zero());
    assert_eq!(client.held_amount, Amount::new(100000, 4));
}

#[test]
fn resolve_after_dispute_releases_and_keeps_the_mark() {
    let mut clients = ClientList::new();
    let mut journal = TransactionList::new();
    handle_transaction(deposit(1, 1, Amount::new(100000, 4)), &mut clients, &mut journal).unwrap();
    handle_transaction(meta(TransactionType::Dispute, 1, 1), &mut clients, &mut journal).unwrap();
    handle_transaction(meta(TransactionType::Resolve, 1, 1), &mut clients, &mut journal).unwrap();
    let client = *clients.get(1).unwrap();
    assert_eq!(client.available_amount, Amount::new(10, 0));
    assert_eq!(client.held_amount, Amount::zero());
    assert_eq!(client.total_amount, Amount::new(10, 0));
    assert!(!client.locked);
    assert!(journal.get(1).unwrap().disputed);
    // The mark is still set, so a chargeback takes effect.
    handle_transaction(meta(TransactionType::ChargeBack, 1, 1), &mut clients, &mut journal)
        .unwrap();
    let client = *clients.get(1).unwrap();
    assert_eq!(client.available_amount, Amount::zero());
    assert_eq!(client.total_amount, Amount::zero());
    assert!(client.locked);
}

#[test]
fn dispute_twice_holds_twice() {
    let mut clients = ClientList::new();
    let mut journal = TransactionList::new();
    handle_transaction(deposit(1, 1, Amount::new(10, 0)), &mut clients, &mut journal).unwrap();
    handle_transaction(meta(TransactionType::Dispute, 1, 1), &mut clients, &mut journal).unwrap();
    handle_transaction(meta(TransactionType::Dispute, 1, 1), &mut clients, &mut journal).unwrap();
    let client = *clients.get(1).unwrap();
    assert_eq!(client.available_amount, Amount::new(-10, 0));
    assert_eq!(client.held_amount, Amount::new(20, 0));
    assert_eq!(client.total_amount, Amount::new(10, 0));
}

#[test]
fn withdrawal_may_overdraw() {
    let mut clients = ClientList::new();
    let mut journal = TransactionList::new();
    handle_transaction(deposit(3, 1, Amount::new(5, 0)), &mut clients, &mut journal).unwrap();
    handle_transaction(withdrawal(3, 2, Amount::new(75, 1)), &mut clients, &mut journal).unwrap();
    let client = *clients.get(3).unwrap();
    assert_eq!(client.available_amount, Amount::new(-25, 1));
    assert_eq!(client.total_amount, Amount::new(-25, 1));
    assert_eq!(client.held_amount, Amount::zero());
    assert_eq!(journal.get(2).unwrap().transaction_type, TransactionType::Withdrawal);
}

#[test]
fn deposit_then_withdrawal_of_the_same_amount_restores_the_balances() {
    let mut clients = ClientList::new();
    let mut journal = TransactionList::new();
    handle_transaction(deposit(1, 1, Amount::new(123456, 3)), &mut clients, &mut journal).unwrap();
    handle_transaction(meta(TransactionType::Dispute, 1, 1), &mut clients, &mut journal).unwrap();
    handle_transaction(deposit(1, 2, Amount::new(77, 1)), &mut clients, &mut journal).unwrap();
    let before = *clients.get(1).unwrap();
    handle_transaction(deposit(1, 3, Amount::new(104752, 4)), &mut clients, &mut journal).unwrap();
    handle_transaction(withdrawal(1, 4, Amount::new(104752, 4)), &mut clients, &mut journal)
        .unwrap();
    let client = *clients.get(1).unwrap();
    assert_eq!(client.available_amount, before.available_amount);
    assert_eq!(client.total_amount, before.total_amount);
    assert_eq!(client.held_amount, before.held_amount);
    assert_eq!(client.available_amount, Amount::new(77, 1));
    assert_eq!(client.held_amount, Amount::new(123456, 3));
    assert_eq!(client.total_amount, Amount::new(131156, 3));
}

#[test]
fn dangling_reference_changes_nothing_however_often() {
    let mut clients = ClientList::new();
    let mut journal = TransactionList::new();
    handle_transaction(deposit(1, 1, Amount::new(30, 1)), &mut clients, &mut journal).unwrap();
    let before = *clients.get(1).unwrap();
    for kind in [TransactionType::Dispute, TransactionType::Resolve, TransactionType::ChargeBack] {
        for _ in 0..3 {
            handle_transaction(meta(kind, 1, 99), &mut clients, &mut journal).unwrap();
            assert_eq!(*clients.get(1).unwrap(), before);
            assert!(journal.get(99).is_none());
            assert_eq!(journal.get(1).unwrap().amount, Amount::new(30, 1));
            assert!(!journal.get(1).unwrap().disputed);
            assert_eq!(clients.snapshot().len(), 1);
        }
    }
}

#[test]
fn dangling_reference_of_a_new_client_leaves_an_empty_account() {
    let mut clients = ClientList::new();
    let mut journal = TransactionList::new();
    handle_transaction(meta(TransactionType::Dispute, 9, 5), &mut clients, &mut journal).unwrap();
    assert_eq!(*clients.get(9).unwrap(), Client::new(9));
    assert!(journal.get(5).is_none());
    handle_transaction(meta(TransactionType::Dispute, 9, 5), &mut clients, &mut journal).unwrap();
    assert_eq!(*clients.get(9).unwrap(), Client::new(9));
    assert_eq!(clients.snapshot().len(), 1);
}

#[test]
fn meta_transaction_alone_leaves_the_stores_untouched_on_a_dangling_reference() {
    let mut clients = ClientList::new();
    let mut journal = TransactionList::new();
    let r = handle_meta_transaction(meta(TransactionType::Resolve, 9, 5), &mut clients, &mut journal);
    assert_eq!(r, Ok(()));
    assert!(clients.get(9).is_none());
    assert!(clients.snapshot().is_empty());
    assert!(journal.get(5).is_none());
}

#[test]
fn standard_transaction_without_amount_fails() {
    let mut clients = ClientList::new();
    let mut journal = TransactionList::new();
    let r = handle_transaction(meta(TransactionType::Deposit, 1, 1), &mut clients, &mut journal);
    assert_eq!(r, Err(LedgerError::MissingAmount));
    assert!(journal.get(1).is_none());
    assert_eq!(*clients.get(1).unwrap(), Client::new(1));
    let r = handle_transaction(meta(TransactionType::Withdrawal, 2, 2), &mut clients, &mut journal);
    assert_eq!(r, Err(LedgerError::MissingAmount));
    assert!(journal.get(2).is_none());
    let r = handle_standard_transaction(
        meta(TransactionType::Deposit, 7, 3),
        &mut clients,
        &mut journal,
    );
    assert_eq!(r, Err(LedgerError::MissingAmount));
    assert!(clients.get(7).is_none());
    assert!(journal.get(3).is_none());
}

#[test]
fn amount_accessor_reports_a_missing_amount() {
    assert_eq!(meta(TransactionType::Deposit, 1, 1).amount(), Err(LedgerError::MissingAmount));
    assert_eq!(deposit(1, 1, Amount::new(15, 1)).amount(), Ok(Amount::new(15, 1)));
}

#[test]
fn meta_transaction_ignores_its_own_amount() {
    let mut clients = ClientList::new();
    let mut journal = TransactionList::new();
    handle_transaction(deposit(1, 1, Amount::new(8, 0)), &mut clients, &mut journal).unwrap();
    let dispute = Transaction {
        transaction_type: TransactionType::Dispute,
        client_id: 1,
        transaction_id: 1,
        amount: Some(Amount::new(3, 0)),
    };
    handle_transaction(dispute, &mut clients, &mut journal).unwrap();
    let client = *clients.get(1).unwrap();
    assert_eq!(client.held_amount, Amount::new(8, 0));
    assert_eq!(client.available_amount, Amount::zero());
    assert_eq!(journal.get(1).unwrap().amount, Amount::new(8, 0));
}

#[test]
fn overflowing_deposit_fails_and_moves_nothing() {
    let mut clients = ClientList::new();
    let mut journal = TransactionList::new();
    let most = Amount::try_new(79_228_162_514_264_337_593_543_950_335, 0).unwrap();
    handle_transaction(deposit(1, 1, most), &mut clients, &mut journal).unwrap();
    let before = *clients.get(1).unwrap();
    let r = handle_transaction(deposit(1, 2, Amount::new(1, 0)), &mut clients, &mut journal);
    assert_eq!(r, Err(LedgerError::AmountOverflow));
    assert_eq!(*clients.get(1).unwrap(), before);
    assert!(journal.get(2).is_none());
    let r = handle_transaction(deposit(2, 3, most), &mut clients, &mut journal);
    assert_eq!(r, Ok(()));
    // Holding the deposit would take the first client's held funds out of
    // range: the dispute fails and marks nothing.
    handle_transaction(meta(TransactionType::Dispute, 1, 1), &mut clients, &mut journal).unwrap();
    let r = handle_transaction(meta(TransactionType::Dispute, 1, 3), &mut clients, &mut journal);
    assert_eq!(r, Err(LedgerError::AmountOverflow));
    assert!(!journal.get(3).unwrap().disputed);
    assert_eq!(clients.get(1).unwrap().held_amount, most);
    assert_eq!(clients.get(1).unwrap().available_amount, Amount::zero());
}

#[test]
fn later_transaction_with_the_same_identifier_replaces_the_entry() {
    let mut clients = ClientList::new();
    let mut journal = TransactionList::new();
    handle_transaction(deposit(1, 1, Amount::new(10, 0)), &mut clients, &mut journal).unwrap();
    handle_transaction(meta(TransactionType::Dispute, 1, 1), &mut clients, &mut journal).unwrap();
    handle_transaction(withdrawal(2, 1, Amount::new(3, 0)), &mut clients, &mut journal).unwrap();
    let entry = *journal.get(1).unwrap();
    assert_eq!(entry.client_id, 2);
    assert_eq!(entry.transaction_type, TransactionType::Withdrawal);
    assert_eq!(entry.amount, Amount::new(3, 0));
    assert!(!entry.disputed);
    // A resolve now finds an entry that is not disputed.
    handle_transaction(meta(TransactionType::Resolve, 1, 1), &mut clients, &mut journal).unwrap();
    assert_eq!(clients.get(1).unwrap().held_amount, Amount::new(10, 0));
}

#[test]
fn dispute_acts_on_the_client_it_names() {
    let mut clients = ClientList::new();
    let mut journal = TransactionList::new();
    handle_transaction(deposit(1, 1, Amount::new(10, 0)), &mut clients, &mut journal).unwrap();
    handle_transaction(meta(TransactionType::Dispute, 2, 1), &mut clients, &mut journal).unwrap();
    assert_eq!(clients.get(1).unwrap().available_amount, Amount::new(10, 0));
    assert_eq!(clients.get(1).unwrap().held_amount, Amount::zero());
    assert_eq!(clients.get(2).unwrap().available_amount, Amount::new(-10, 0));
    assert_eq!(clients.get(2).unwrap().held_amount, Amount::new(10, 0));
    assert_eq!(clients.get(2).unwrap().total_amount, Amount::zero());
}

#[test]
fn transactions_go_on_after_a_chargeback() {
    let mut clients = ClientList::new();
    let mut journal = TransactionList::new();
    handle_transaction(deposit(1, 1, Amount::new(10, 0)), &mut clients, &mut journal).unwrap();
    handle_transaction(meta(TransactionType::Dispute, 1, 1), &mut clients, &mut journal).unwrap();
    handle_transaction(meta(TransactionType::ChargeBack, 1, 1), &mut clients, &mut journal)
        .unwrap();
    handle_transaction(deposit(1, 2, Amount::new(4, 0)), &mut clients, &mut journal).unwrap();
    let client = *clients.get(1).unwrap();
    assert!(client.locked);
    assert_eq!(client.available_amount, Amount::new(-6, 0));
    assert_eq!(client.total_amount, Amount::new(4, 0));
    assert_eq!(client.held_amount, Amount::new(10, 0));
}

#[test]
fn only_clients_that_are_named_get_an_account() {
    let mut clients = ClientList::new();
    let mut journal = TransactionList::new();
    handle_transaction(deposit(7, 1, Amount::new(1, 0)), &mut clients, &mut journal).unwrap();
    handle_transaction(deposit(2, 2, Amount::new(2, 0)), &mut clients, &mut journal).unwrap();
    handle_transaction(meta(TransactionType::Dispute, 65535, 2), &mut clients, &mut journal)
        .unwrap();
    handle_transaction(withdrawal(0, 3, Amount::new(1, 0)), &mut clients, &mut journal).unwrap();
    let rows = clients.snapshot();
    let ids: Vec<u16> = rows.iter().map(|client| client.id).collect();
    assert_eq!(ids, vec![0, 2, 7, 65535]);
    assert!(clients.get(1).is_none());
    assert!(clients.get(3).is_none());
    assert_eq!(rows[1], *clients.get(2).unwrap());
    assert_eq!(rows[3].held_amount, Amount::new(2, 0));
}

#[test]
fn totals_stay_the_sum_of_available_and_held_until_a_chargeback() {
    let mut clients = ClientList::new();
    let mut journal = TransactionList::new();
    let steps = [
        deposit(1, 1, Amount::new(104752, 4)),
        deposit(1, 2, Amount::new(5, 0)),
        meta(TransactionType::Dispute, 1, 1),
        withdrawal(1, 3, Amount::new(125, 2)),
        meta(TransactionType::Resolve, 1, 1),
        meta(TransactionType::Dispute, 1, 2),
        deposit(1, 4, Amount::new(1, 3)),
    ];
    for step in steps {
        handle_transaction(step, &mut clients, &mut journal).unwrap();
        let client = *clients.get(1).unwrap();
        let sum = client.available_amount.checked_add(client.held_amount).unwrap();
        assert_eq!(client.total_amount, sum);
    }
    let client = *clients.get(1).unwrap();
    assert_eq!(client.available_amount, Amount::new(92262, 4));
    assert_eq!(client.held_amount, Amount::new(5, 0));
    assert_eq!(client.total_amount, Amount::new(142262, 4));
}
