//! One client's account: its balances, its lock, and the five mutations
//! that transactions are made of.

use crate::amount::Amount;
use vstd::prelude::*;

verus! {

/// The state of one client's account.
#[derive(Clone, Copy, Debug, PartialEq)]
pub struct Client {
    pub id: u16,
    /// Funds that the client may withdraw or have held.
    pub available_amount: Amount,
    /// Funds frozen against open disputes.
    pub held_amount: Amount,
    /// Kept beside the other two, and updated on its own.
    pub total_amount: Amount,
    /// Set by a chargeback, and never cleared.
    pub locked: bool,
}

impl Client {
    /// The account of a client of whom nothing is known yet: no funds, not
    /// locked.
    pub open spec fn fresh(id: u16) -> Client {
        Client {
            id,
            available_amount: Amount::of(0, 0),
            held_amount: Amount::of(0, 0),
            total_amount: Amount::of(0, 0),
            locked: false,
        }
    }

    /// Whether the total is the sum of the available and the held funds.
    pub open spec fn balanced(self) -> bool {
        self.total_amount.units() == self.available_amount.units() + self.held_amount.units()
    }

    /// Whether a deposit of `amount` stays within the representable amounts.
    pub open spec fn can_deposit(self, amount: Amount) -> bool {
        &&& self.available_amount.sum(amount) is Some
        &&& self.total_amount.sum(amount) is Some
    }

    /// The account after a deposit of `amount`.
    pub open spec fn deposited(self, amount: Amount) -> Client {
        Client {
            available_amount: self.available_amount.sum(amount).unwrap(),
            total_amount: self.total_amount.sum(amount).unwrap(),
            ..self
        }
    }

    /// Whether a deposit of `amount` involves no rounding.
    pub open spec fn deposits_exactly(self, amount: Amount) -> bool {
        &&& self.available_amount.adds_exactly(amount)
        &&& self.total_amount.adds_exactly(amount)
    }

    /// Whether a withdrawal of `amount` stays within the representable
    /// amounts.
    pub open spec fn can_withdraw(self, amount: Amount) -> bool {
        &&& self.available_amount.difference(amount) is Some
        &&& self.total_amount.difference(amount) is Some
    }

    /// The account after a withdrawal of `amount`.
    pub open spec fn withdrawn(self, amount: Amount) -> Client {
        Client {
            available_amount: self.available_amount.difference(amount).unwrap(),
            total_amount: self.total_amount.difference(amount).unwrap(),
            ..self
        }
    }

    /// Whether a withdrawal of `amount` involves no rounding.
    pub open spec fn withdraws_exactly(self, amount: Amount) -> bool {
        &&& self.available_amount.subtracts_exactly(amount)
        &&& self.total_amount.subtracts_exactly(amount)
    }

    /// Whether holding `amount` stays within the representable amounts.
    pub open spec fn can_hold(self, amount: Amount) -> bool {
        &&& self.available_amount.difference(amount) is Some
        &&& self.held_amount.sum(amount) is Some
    }

    /// The account after `amount` has been moved from available to held.
    pub open spec fn holding(self, amount: Amount) -> Client {
        Client {
            available_amount: self.available_amount.difference(amount).unwrap(),
            held_amount: self.held_amount.sum(amount).unwrap(),
            ..self
        }
    }

    /// Whether holding `amount` involves no rounding.
    pub open spec fn holds_exactly(self, amount: Amount) -> bool {
        &&& self.available_amount.subtracts_exactly(amount)
        &&& self.held_amount.adds_exactly(amount)
    }

    /// Whether releasing `amount` stays within the representable amounts.
    pub open spec fn can_release(self, amount: Amount) -> bool {
        &&& self.held_amount.difference(amount) is Some
        &&& self.available_amount.sum(amount) is Some
    }

    /// The account after `amount` has been moved from held back to
    /// available.
    pub open spec fn released(self, amount: Amount) -> Client {
        Client {
            held_amount: self.held_amount.difference(amount).unwrap(),
            available_amount: self.available_amount.sum(amount).unwrap(),
            ..self
        }
    }

    /// Whether releasing `amount` involves no rounding.
    pub open spec fn releases_exactly(self, amount: Amount) -> bool {
        &&& self.held_amount.subtracts_exactly(amount)
        &&& self.available_amount.adds_exactly(amount)
    }

    /// The account with its lock set.
    pub open spec fn frozen(self) -> Client {
        Client { locked: true, ..self }
    }

    /// A new account for client `id`: no funds, not locked.
    pub fn new(id: u16) -> (client: Client)
        ensures
            client == Client::fresh(id),
            client.balanced(),
    {
        proof {
            Amount::lemma_of(0, 0);
        }
        Client {
            id,
            available_amount: Amount::zero(),
            held_amount: Amount::zero(),
            total_amount: Amount::zero(),
            locked: false,
        }
    }

    /// Raises the available and the total funds by `amount`.
    pub fn deposit(&mut self, amount: Amount)
        requires
            old(self).can_deposit(amount),
        ensures
            *final(self) == old(self).deposited(amount),
    {
        let available = self.available_amount.checked_add(amount);
        let total = self.total_amount.checked_add(amount);
        self.available_amount = available.unwrap();
        self.total_amount = total.unwrap();
    }

    /// Lowers the available and the total funds by `amount`. The available
    /// funds may go below zero.
    pub fn withdraw(&mut self, amount: Amount)
        requires
            old(self).can_withdraw(amount),
        ensures
            *final(self) == old(self).withdrawn(amount),
    {
        let available = self.available_amount.checked_sub(amount);
        let total = self.total_amount.checked_sub(amount);
        self.available_amount = available.unwrap();
        self.total_amount = total.unwrap();
    }

    /// Moves `amount` from the available to the held funds; the total
    /// stays.
    pub fn hold(&mut self, amount: Amount)
        requires
            old(self).can_hold(amount),
        ensures
            *final(self) == old(self).holding(amount),
    {
        let available = self.available_amount.checked_sub(amount);
        let held = self.held_amount.checked_add(amount);
        self.available_amount = available.unwrap();
        self.held_amount = held.unwrap();
    }

    /// Moves `amount` from the held back to the available funds; the total
    /// stays.
    pub fn release(&mut self, amount: Amount)
        requires
            old(self).can_release(amount),
        ensures
            *final(self) == old(self).released(amount),
    {
        let held = self.held_amount.checked_sub(amount);
        let available = self.available_amount.checked_add(amount);
        self.held_amount = held.unwrap();
        self.available_amount = available.unwrap();
    }

    /// Locks the account.
    pub fn freeze(&mut self)
        ensures
            *final(self) == old(self).frozen(),
    {
        self.locked = true;
    }

    /// A deposit without rounding keeps a balanced account balanced.
    pub proof fn lemma_deposit_keeps_balance(self, amount: Amount)
        requires
            self.balanced(),
            self.deposits_exactly(amount),
        ensures
            self.deposited(amount).balanced(),
    {
    }

    /// A withdrawal without rounding keeps a balanced account balanced.
    pub proof fn lemma_withdraw_keeps_balance(self, amount: Amount)
        requires
            self.balanced(),
            self.withdraws_exactly(amount),
        ensures
            self.withdrawn(amount).balanced(),
    {
    }

    /// Holding funds without rounding keeps a balanced account balanced, and
    /// leaves the total as it is.
    pub proof fn lemma_hold_keeps_balance(self, amount: Amount)
        requires
            self.balanced(),
            self.holds_exactly(amount),
        ensures
            self.holding(amount).balanced(),
            self.holding(amount).total_amount == self.total_amount,
    {
    }

    /// Releasing funds without rounding keeps a balanced account balanced,
    /// and leaves the total as it is.
    pub proof fn lemma_release_keeps_balance(self, amount: Amount)
        requires
            self.balanced(),
            self.releases_exactly(amount),
        ensures
            self.released(amount).balanced(),
            self.released(amount).total_amount == self.total_amount,
    {
    }

    /// A deposit followed by a withdrawal of the same amount, both without
    /// rounding, brings the available and the total funds back to the values
    /// they had, and touches neither the held funds nor the lock.
    pub proof fn lemma_deposit_then_withdraw(self, amount: Amount)
        requires
            self.deposits_exactly(amount),
            self.deposited(amount).withdraws_exactly(amount),
        ensures
            self.deposited(amount).withdrawn(amount).available_amount.units()
                == self.available_amount.units(),
            self.deposited(amount).withdrawn(amount).total_amount.units()
                == self.total_amount.units(),
            self.deposited(amount).withdrawn(amount).held_amount == self.held_amount,
            self.deposited(amount).withdrawn(amount).locked == self.locked,
            self.deposited(amount).withdrawn(amount).id == self.id,
    {
    }
}

} // verus!
