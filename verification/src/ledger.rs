use std::collections::HashMap;

use vstd::prelude::*;

use crate::error::PlatformError;
use crate::state::AccountId;

verus! {

broadcast use vstd::std_specs::hash::group_hash_axioms;

/// The funds ledger: a balance per account, in the smallest currency unit.
/// An account that was never credited holds 0. Transfers are atomic: either
/// the full amount moves or nothing does.
pub struct Ledger {
    accounts: HashMap<AccountId, u64>,
}

impl Ledger {
    /// The balance of `account`; 0 where no entry exists.
    pub closed spec fn balance(&self, account: AccountId) -> u64 {
        if self.accounts@.contains_key(account) {
            self.accounts@[account]
        } else {
            0
        }
    }

    /// A ledger on which every account holds 0.
    pub fn new() -> (ledger: Ledger)
        ensures
            forall|a: AccountId| #[trigger] ledger.balance(a) == 0,
    {
        Ledger { accounts: HashMap::new() }
    }

    pub fn balance_of(&self, account: AccountId) -> (balance: u64)
        ensures
            balance == self.balance(account),
    {
        match self.accounts.get(&account) {
            Some(b) => *b,
            None => 0,
        }
    }

    /// Credits `amount` to `account`.
    pub fn deposit(&mut self, account: AccountId, amount: u64)
        requires
            old(self).balance(account) + amount <= u64::MAX,
        ensures
            final(self).balance(account) == old(self).balance(account) + amount,
            forall|a: AccountId|
                a != account ==> #[trigger] final(self).balance(a) == old(self).balance(a),
    {
        let current = self.balance_of(account);
        self.accounts.insert(account, current + amount);
    }

    /// Moves exactly `amount` from `from` to `to`, or moves nothing and
    /// reports the shortfall. A transfer to the sending account itself
    /// settles trivially, leaving every balance as it was.
    pub fn transfer(&mut self, from: AccountId, to: AccountId, amount: u64) -> (r: Result<
        (),
        PlatformError,
    >)
        requires
            from != to ==> old(self).balance(to) + amount <= u64::MAX,
        ensures
            r is Ok <==> amount <= old(self).balance(from),
            r is Err ==> r == Err::<(), PlatformError>(PlatformError::InsufficientFunds),
            r is Err ==> forall|a: AccountId| #[trigger]
                final(self).balance(a) == old(self).balance(a),
            r is Ok && from == to ==> forall|a: AccountId| #[trigger]
                final(self).balance(a) == old(self).balance(a),
            r is Ok && from != to ==> {
                &&& final(self).balance(from) == old(self).balance(from) - amount
                &&& final(self).balance(to) == old(self).balance(to) + amount
                &&& forall|a: AccountId|
                    a != from && a != to ==> #[trigger] final(self).balance(a) == old(self).balance(
                        a,
                    )
            },
    {
        let from_balance = self.balance_of(from);
        if from_balance < amount {
            return Err(PlatformError::InsufficientFunds);
        }
        if from == to {
            return Ok(());
        }
        let to_balance = self.balance_of(to);
        self.accounts.insert(from, from_balance - amount);
        self.accounts.insert(to, to_balance + amount);
        Ok(())
    }
}

} // verus!
