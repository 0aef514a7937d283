//! The transaction journal: every deposit and withdrawal seen so far, under
//! its identifier, with the mark of an open dispute.

use crate::amount::Amount;
use crate::transaction::{JournalEntry, TransactionType};
use std::collections::HashMap;
use vstd::prelude::*;

verus! {

/// Whether every entry is of a deposit or of a withdrawal.
pub open spec fn standard_only(journal: Map<u32, JournalEntry>) -> bool {
    forall|id: u32| #[trigger]
        journal.contains_key(id) ==> journal[id].transaction_type.is_standard()
}

/// The journal with the dispute mark of entry `id` set to `disputed`, and
/// unchanged where it has no such entry.
pub open spec fn marked(journal: Map<u32, JournalEntry>, id: u32, disputed: bool) -> Map<
    u32,
    JournalEntry,
> {
    if journal.contains_key(id) {
        journal.insert(id, JournalEntry { disputed, ..journal[id] })
    } else {
        journal
    }
}

/// Journal entries by transaction identifier. Identifiers are global across
/// clients. No entry is ever removed; one is replaced when its identifier
/// comes again on a later deposit or withdrawal.
pub struct TransactionList {
    entries: HashMap<u32, JournalEntry>,
}

impl View for TransactionList {
    type V = Map<u32, JournalEntry>;

    closed spec fn view(&self) -> Map<u32, JournalEntry> {
        self.entries@
    }
}

impl TransactionList {
    /// Only deposits and withdrawals are journaled.
    #[verifier::type_invariant]
    pub open spec fn wf(self) -> bool {
        standard_only(self@)
    }

    /// The empty journal.
    pub fn new() -> (list: TransactionList)
        ensures
            list@ == Map::<u32, JournalEntry>::empty(),
    {
        TransactionList { entries: HashMap::new() }
    }

    /// Journals the standard transaction `id` of `client`, not disputed, in
    /// place of any entry that stood under `id`.
    pub fn record(&mut self, id: u32, client: u16, kind: TransactionType, amount: Amount)
        requires
            kind.is_standard(),
        ensures
            final(self)@ == old(self)@.insert(
                id,
                JournalEntry {
                    client_id: client,
                    transaction_type: kind,
                    amount,
                    disputed: false,
                },
            ),
    {
        proof {
            use_type_invariant(&*self);
        }
        let entry = JournalEntry {
            client_id: client,
            transaction_type: kind,
            amount,
            disputed: false,
        };
        let mut entries = HashMap::new();
        std::mem::swap(&mut entries, &mut self.entries);
        entries.insert(id, entry);
        self.entries = entries;
    }

    /// The entry of transaction `id`, if there is one.
    pub fn get(&self, id: u32) -> (r: Option<&JournalEntry>)
        ensures
            match r {
                Some(entry) => self@.contains_key(id) && *entry == self@[id]
                    && entry.transaction_type.is_standard(),
                None => !self@.contains_key(id),
            },
    {
        proof {
            use_type_invariant(self);
        }
        self.entries.get(&id)
    }

    /// Sets the dispute mark of entry `id`; does nothing where the journal
    /// has no such entry.
    pub fn mark_disputed(&mut self, id: u32, disputed: bool)
        ensures
            final(self)@ == marked(old(self)@, id, disputed),
    {
        proof {
            use_type_invariant(&*self);
        }
        let found = match self.entries.get(&id) {
            Some(entry) => Some(*entry),
            None => None,
        };
        match found {
            Some(entry) => {
                let mut entries = HashMap::new();
                std::mem::swap(&mut entries, &mut self.entries);
                entries.insert(id, JournalEntry { disputed, ..entry });
                self.entries = entries;
            },
            None => {},
        }
    }
}

} // verus!
