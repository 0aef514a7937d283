//! The account store: every client seen so far, under its identifier.

use crate::client::Client;
use std::collections::HashMap;
use vstd::prelude::*;

verus! {

/// The account that `accounts` holds for client `id`, made fresh where it
/// holds none.
pub open spec fn with_account(accounts: Map<u16, Client>, id: u16) -> Map<u16, Client> {
    if accounts.contains_key(id) {
        accounts
    } else {
        accounts.insert(id, Client::fresh(id))
    }
}

/// Whether every account stands under its own identifier.
pub open spec fn keyed_by_id(accounts: Map<u16, Client>) -> bool {
    forall|id: u16| #[trigger] accounts.contains_key(id) ==> accounts[id].id == id
}

/// Accounts by client identifier. An account comes into being when its
/// client is first referred to, and is never removed.
pub struct ClientList {
    accounts: HashMap<u16, Client>,
}

impl View for ClientList {
    type V = Map<u16, Client>;

    closed spec fn view(&self) -> Map<u16, Client> {
        self.accounts@
    }
}

impl ClientList {
    /// Every account stands under its own identifier.
    #[verifier::type_invariant]
    pub open spec fn wf(self) -> bool {
        keyed_by_id(self@)
    }

    /// The empty store.
    pub fn new() -> (list: ClientList)
        ensures
            list@ == Map::<u16, Client>::empty(),
    {
        ClientList { accounts: HashMap::new() }
    }

    /// The account of client `id`, if there is one.
    pub fn get(&self, id: u16) -> (r: Option<&Client>)
        ensures
            match r {
                Some(client) => self@.contains_key(id) && *client == self@[id] && client.id == id,
                None => !self@.contains_key(id),
            },
    {
        proof {
            use_type_invariant(self);
        }
        self.accounts.get(&id)
    }

    /// Puts `client` under its identifier, in place of any account that
    /// stood there.
    pub fn insert(&mut self, client: Client)
        ensures
            final(self)@ == old(self)@.insert(client.id, client),
    {
        proof {
            use_type_invariant(&*self);
        }
        let mut accounts = HashMap::new();
        std::mem::swap(&mut accounts, &mut self.accounts);
        accounts.insert(client.id, client);
        self.accounts = accounts;
    }

    /// The account of client `id`, which is made fresh, and kept, where the
    /// store held none.
    pub fn get_or_create(&mut self, id: u16) -> (client: Client)
        ensures
            final(self)@ == with_account(old(self)@, id),
            client == final(self)@[id],
            client.id == id,
    {
        proof {
            use_type_invariant(&*self);
        }
        match self.accounts.get(&id) {
            Some(client) => *client,
            None => {
                let client = Client::new(id);
                self.insert(client);
                client
            },
        }
    }

    /// Every account of the store, once each, by ascending client
    /// identifier.
    pub fn snapshot(&self) -> (rows: Vec<Client>)
        ensures
            forall|i: int, j: int| 0 <= i < j < rows.len() ==> rows[i].id < rows[j].id,
            forall|i: int|
                0 <= i < rows.len() ==> self@.contains_key(#[trigger] rows[i].id) && self@[rows[i].id]
                    == rows[i],
            forall|id: u16| #[trigger]
                self@.contains_key(id) ==> exists|i: int| 0 <= i < rows.len() && rows[i] == self@[id],
    {
        proof {
            use_type_invariant(self);
        }
        let mut rows: Vec<Client> = Vec::new();
        let mut next: u32 = 0;
        while next <= 0xffff
            invariant
                next <= 0x1_0000,
                keyed_by_id(self@),
                forall|i: int, j: int| 0 <= i < j < rows.len() ==> rows[i].id < rows[j].id,
                forall|i: int| 0 <= i < rows.len() ==> (#[trigger] rows[i].id) < next,
                forall|i: int|
                    0 <= i < rows.len() ==> self@.contains_key(#[trigger] rows[i].id)
                        && self@[rows[i].id] == rows[i],
                forall|id: u16|
                    id < next && #[trigger] self@.contains_key(id) ==> exists|i: int|
                        0 <= i < rows.len() && rows[i] == self@[id],
            decreases 0x1_0000 - next,
        {
            let id: u16 = next as u16;
            match self.accounts.get(&id) {
                Some(client) => {
                    let ghost before = rows@;
                    rows.push(*client);
                    assert(rows[before.len() as int] == self@[id]);
                    assert forall|other: u16|
                        other < next + 1 && #[trigger] self@.contains_key(other) implies exists|
                        i: int,
                    | 0 <= i < rows.len() && rows[i] == self@[other] by {
                        if other < next {
                            let i = choose|i: int| 0 <= i < before.len() && before[i] == self@[other];
                            assert(rows[i] == self@[other]);
                        }
                    }
                },
                None => {},
            }
            next = next + 1;
        }
        rows
    }
}

} // verus!
