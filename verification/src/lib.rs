//! A ledger replay engine: deposits, withdrawals and disputes are folded, in
//! arrival order, over an account store and a transaction journal.

pub mod amount;
pub mod client;
pub mod client_list;
pub mod decimal;
pub mod engine;
pub mod replay;
pub mod transaction;
pub mod transaction_list;

pub use amount::Amount;
pub use client::Client;
pub use client_list::ClientList;
pub use engine::{handle_meta_transaction, handle_standard_transaction, handle_transaction};
pub use transaction::{JournalEntry, LedgerError, Transaction, TransactionType};
pub use transaction_list::TransactionList;
