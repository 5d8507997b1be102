//! The balance ledger the host supplies to the marketplace: one balance per
//! account and a checked transfer that must keep the paying account alive,
//! that is, leave it no less than the existential deposit.

use vstd::prelude::*;
use std::collections::HashMap;
use crate::types::{AccountId, Balance, CurrencyError};

verus! {

broadcast use vstd::std_specs::hash::group_hash_axioms;

/// Account balances together with the existential deposit every account
/// must retain after paying, to avoid being removed by the host.
pub struct Ledger {
    balances: HashMap<AccountId, Balance>,
    existential_deposit: Balance,
}

impl Ledger {
    /// The balance of `who`; an account with no entry holds zero.
    pub closed spec fn spec_balance(self, who: AccountId) -> Balance {
        if self.balances@.contains_key(who) {
            self.balances@[who]
        } else {
            0
        }
    }

    /// The minimum a paying account must retain.
    pub closed spec fn spec_existential_deposit(self) -> Balance {
        self.existential_deposit
    }

    /// A transfer of `amount` from `from` to `to` succeeds exactly when the
    /// source holds the amount, retains the existential deposit afterwards,
    /// and the destination balance stays representable.
    pub open spec fn can_transfer(self, from: AccountId, to: AccountId, amount: Balance) -> bool {
        &&& self.spec_balance(from) >= amount
        &&& self.spec_balance(from) - amount >= self.spec_existential_deposit()
        &&& (from != to ==> self.spec_balance(to) + amount <= Balance::MAX)
    }

    /// The cause reported when [`Self::can_transfer`] fails, in the order
    /// the checks run.
    pub open spec fn transfer_fail_cause(self, from: AccountId, to: AccountId, amount: Balance) -> CurrencyError {
        if self.spec_balance(from) < amount {
            CurrencyError::InsufficientBalance
        } else if self.spec_balance(from) - amount < self.spec_existential_deposit() {
            CurrencyError::KeepAlive
        } else {
            CurrencyError::Overflow
        }
    }

    /// An empty ledger: every account holds zero.
    pub fn new(existential_deposit: Balance) -> (r: Ledger)
        ensures
            forall|a: AccountId| #[trigger] r.spec_balance(a) == 0,
            r.spec_existential_deposit() == existential_deposit,
    {
        Ledger { balances: HashMap::new(), existential_deposit }
    }

    /// The balance of `who`.
    pub fn free_balance(&self, who: AccountId) -> (r: Balance)
        ensures
            r == self.spec_balance(who),
    {
        match self.balances.get(&who) {
            Option::Some(b) => *b,
            Option::None => 0,
        }
    }

    /// Host-side genesis write: set the balance of `who` outright.
    pub fn set_balance(&mut self, who: AccountId, amount: Balance)
        ensures
            final(self).spec_balance(who) == amount,
            forall|a: AccountId| a != who ==> #[trigger] final(self).spec_balance(a) == old(self).spec_balance(a),
            final(self).spec_existential_deposit() == old(self).spec_existential_deposit(),
    {
        self.balances.insert(who, amount);
    }

    /// Move `amount` from `from` to `to`, refusing to drain `from` below
    /// the existential deposit. On failure nothing changes and the cause is
    /// the first failed check.
    pub fn transfer_keep_alive(&mut self, from: AccountId, to: AccountId, amount: Balance) -> (r: Result<(), CurrencyError>)
        ensures
            match r {
                Ok(()) => {
                    &&& old(self).can_transfer(from, to, amount)
                    &&& final(self).spec_existential_deposit() == old(self).spec_existential_deposit()
                    &&& if from == to {
                        forall|a: AccountId| #[trigger] final(self).spec_balance(a) == old(self).spec_balance(a)
                    } else {
                        &&& final(self).spec_balance(from) == old(self).spec_balance(from) - amount
                        &&& final(self).spec_balance(to) == old(self).spec_balance(to) + amount
                        &&& forall|a: AccountId| a != from && a != to
                            ==> #[trigger] final(self).spec_balance(a) == old(self).spec_balance(a)
                    }
                },
                Err(e) => {
                    &&& !old(self).can_transfer(from, to, amount)
                    &&& e == old(self).transfer_fail_cause(from, to, amount)
                    &&& *final(self) == *old(self)
                },
            },
    {
        let from_balance = self.free_balance(from);
        if from_balance < amount {
            return Err(CurrencyError::InsufficientBalance);
        }
        if from_balance - amount < self.existential_deposit {
            return Err(CurrencyError::KeepAlive);
        }
        if from == to {
            return Ok(());
        }
        let to_balance = self.free_balance(to);
        if Balance::MAX - to_balance < amount {
            return Err(CurrencyError::Overflow);
        }
        self.balances.insert(from, from_balance - amount);
        self.balances.insert(to, to_balance + amount);
        Ok(())
    }
}

} // verus!
