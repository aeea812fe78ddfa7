//! The store of accounts: what any store offers, and the store that keeps them in memory.

use std::collections::HashMap;
use vstd::prelude::*;
use crate::domain::{Account, AccountId, DomainError, DomainErrorView};
use crate::ledger::solvent;

verus! {

broadcast use vstd::std_specs::hash::group_hash_axioms;

/// A store that keeps one account for each id it was given.
pub trait AccountRepository {
    /// The store is in order.
    spec fn wf(&self) -> bool;

    /// What the store holds: each id with the balance of its account.
    spec fn ledger(&self) -> Map<AccountId, int>;

    /// No account of a store in order holds less than nothing.
    proof fn ledger_solvent(&self)
        requires
            self.wf(),
        ensures
            solvent(self.ledger()),
    ;

    /// Adds `account` under its id, unless that id is taken; then nothing changes.
    fn create(&mut self, account: Account) -> (r: Result<(), DomainError>)
        requires
            old(self).wf(),
        ensures
            final(self).wf(),
            match r {
                Ok(_) => !old(self).ledger().contains_key(account.id()) && final(self).ledger()
                    == old(self).ledger().insert(account.id(), account.balance() as int),
                Err(e) => old(self).ledger().contains_key(account.id()) && e@
                    == DomainErrorView::DuplicateAccount && final(self).ledger() == old(
                    self,
                ).ledger(),
            },
    ;

    /// A copy of the account kept under `id`, if there is one.
    fn get(&self, id: AccountId) -> (r: Result<Option<Account>, DomainError>)
        requires
            self.wf(),
        ensures
            match r {
                Ok(Some(account)) => self.ledger().contains_key(id) && account.id() == id
                    && account.balance() == self.ledger()[id],
                Ok(None) => !self.ledger().contains_key(id),
                Err(_) => false,
            },
    ;

    /// Puts `account` under its id, in place of any account kept there before.
    fn upsert(&mut self, account: Account) -> (r: Result<(), DomainError>)
        requires
            old(self).wf(),
        ensures
            final(self).wf(),
            r is Ok,
            final(self).ledger() == old(self).ledger().insert(
                account.id(),
                account.balance() as int,
            ),
    ;
}

/// The store that keeps its accounts in memory, each under its own id.
pub struct InMemoryAccountRepository {
    accounts: HashMap<AccountId, Account>,
}

impl InMemoryAccountRepository {
    /// Each account is kept under its own id and holds no less than nothing.
    pub closed spec fn filed_in_order(&self) -> bool {
        forall|id: AccountId| #[trigger]
            self.accounts@.contains_key(id) ==> self.accounts@[id].id() == id
                && self.accounts@[id].balance() >= 0
    }

    /// Each id of the store with the balance kept under it.
    pub closed spec fn balances(&self) -> Map<AccountId, int> {
        Map::new(
            |id: AccountId| self.accounts@.contains_key(id),
            |id: AccountId| self.accounts@[id].balance() as int,
        )
    }
}

impl Default for InMemoryAccountRepository {
    /// A store with no account in it.
    fn default() -> (store: Self)
        ensures
            store.wf(),
            store.ledger() == Map::<AccountId, int>::empty(),
    {
        let store = InMemoryAccountRepository { accounts: HashMap::new() };
        assert(store.balances() =~= Map::<AccountId, int>::empty());
        store
    }
}

impl AccountRepository for InMemoryAccountRepository {
    open spec fn wf(&self) -> bool {
        self.filed_in_order()
    }

    open spec fn ledger(&self) -> Map<AccountId, int> {
        self.balances()
    }

    proof fn ledger_solvent(&self) {
    }

    fn create(&mut self, account: Account) -> (r: Result<(), DomainError>) {
        let id = account.id();
        let balance = account.balance();
        if self.accounts.contains_key(&id) {
            return Err(DomainError::DuplicateAccount);
        }
        self.accounts.insert(id, account);
        assert(self.balances() =~= old(self).balances().insert(id, balance as int));
        Ok(())
    }

    fn get(&self, id: AccountId) -> (r: Result<Option<Account>, DomainError>) {
        match self.accounts.get(&id) {
            Some(account) => Ok(Some(*account)),
            None => Ok(None),
        }
    }

    fn upsert(&mut self, account: Account) -> (r: Result<(), DomainError>) {
        let id = account.id();
        let balance = account.balance();
        self.accounts.insert(id, account);
        assert(self.balances() =~= old(self).balances().insert(id, balance as int));
        Ok(())
    }
}

} // verus!
