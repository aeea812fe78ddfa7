//! The service that opens accounts and moves money, on top of a store of accounts.
//!
//! Every operation that changes the ledger takes the service by exclusive reference, so
//! each one reads, decides and writes with no other operation in between.

use vstd::prelude::*;
use crate::data::account_repository::AccountRepository;
use crate::domain::{Account, AccountId, Amount, DomainError, DomainErrorView, Transfer};
use crate::ledger::{carried_out, created, deposited, solvent, transferred, withdrawn};

verus! {

/// The ledger's operations over a store `R`.
pub struct BankService<R: AccountRepository> {
    repo: R,
}

impl<R: AccountRepository> BankService<R> {
    /// The store underneath is in order.
    pub closed spec fn wf(&self) -> bool {
        self.repo.wf()
    }

    /// The ledger as it stands: each account's id with its balance.
    pub closed spec fn ledger(&self) -> Map<AccountId, int> {
        self.repo.ledger()
    }

    /// No account of the ledger holds less than nothing.
    pub proof fn ledger_solvent(&self)
        requires
            self.wf(),
        ensures
            solvent(self.ledger()),
    {
        self.repo.ledger_solvent();
    }

    /// A service over `repo`, with the ledger that `repo` holds.
    pub fn new(repo: R) -> (service: Self)
        requires
            repo.wf(),
        ensures
            service.wf(),
            service.ledger() == repo.ledger(),
    {
        BankService { repo }
    }

    /// Opens account `id` with `initial_balance`. Refused with `InvalidAmount` where the
    /// balance is negative, else with `DuplicateAccount` where the id is taken; a refusal
    /// changes nothing.
    pub fn create_account(&mut self, id: AccountId, initial_balance: i64) -> (r: Result<
        (),
        DomainError,
    >)
        requires
            old(self).wf(),
        ensures
            final(self).wf(),
            carried_out(
                created(old(self).ledger(), id, initial_balance as int),
                old(self).ledger(),
                final(self).ledger(),
                r,
            ),
    {
        match Account::new(id, initial_balance) {
            Ok(account) => self.repo.create(account),
            Err(e) => Err(e),
        }
    }

    /// A copy of account `id`, or `AccountNotFound`.
    pub fn get_account(&self, id: AccountId) -> (r: Result<Account, DomainError>)
        requires
            self.wf(),
        ensures
            match r {
                Ok(account) => self.ledger().contains_key(id) && account.id() == id
                    && account.balance() == self.ledger()[id] && account.balance() >= 0,
                Err(e) => !self.ledger().contains_key(id) && e@
                    == DomainErrorView::AccountNotFound,
            },
    {
        proof {
            self.repo.ledger_solvent();
        }
        match self.repo.get(id) {
            Ok(Some(account)) => Ok(account),
            Ok(None) => Err(DomainError::AccountNotFound),
            Err(e) => Err(e),
        }
    }

    /// Whether a deposit of `amount` into account `id` stays within what a balance can
    /// hold. A deposit that would be refused anyway fits.
    pub fn deposit_fits(&self, id: AccountId, amount: i64) -> (fits: bool)
        requires
            self.wf(),
        ensures
            fits == (deposited(self.ledger(), id, amount as int) matches Ok(after) ==> after[id]
                <= i64::MAX),
    {
        match self.repo.get(id) {
            Ok(Some(account)) => amount < 0 || account.balance() <= i64::MAX - amount,
            _ => true,
        }
    }

    /// Whether a transfer of `amount` from account `from` to account `to` leaves the
    /// balance of `to` within what a balance can hold. A transfer that would be refused
    /// anyway fits.
    pub fn transfer_fits(&self, from: AccountId, to: AccountId, amount: i64) -> (fits: bool)
        requires
            self.wf(),
        ensures
            fits == (transferred(self.ledger(), from, to, amount as int) matches Ok(after)
                ==> after[to] <= i64::MAX),
    {
        if from == to || amount < 0 {
            return true;
        }
        match (self.repo.get(from), self.repo.get(to)) {
            (Ok(Some(payer)), Ok(Some(payee))) => payer.balance() < amount || payee.balance()
                <= i64::MAX - amount,
            _ => true,
        }
    }

    /// Pays `amount` into account `id` and returns the account as it then stands. Refused
    /// with `AccountNotFound`, else with `InvalidAmount` where `amount` is negative; a
    /// refusal changes nothing.
    pub fn deposit(&mut self, id: AccountId, amount: i64) -> (r: Result<Account, DomainError>)
        requires
            old(self).wf(),
            deposited(old(self).ledger(), id, amount as int) matches Ok(after) ==> after[id]
                <= i64::MAX,
        ensures
            final(self).wf(),
            carried_out(
                deposited(old(self).ledger(), id, amount as int),
                old(self).ledger(),
                final(self).ledger(),
                r,
            ),
            match r {
                Ok(account) => account.id() == id && account.balance() == final(self).ledger()[id],
                Err(_) => true,
            },
    {
        let mut account = match self.get_account(id) {
            Ok(account) => account,
            Err(e) => { return Err(e); },
        };
        let amount = match Amount::new(amount) {
            Ok(amount) => amount,
            Err(e) => { return Err(e); },
        };
        account.deposit(amount);
        match self.repo.upsert(account) {
            Ok(_) => Ok(account),
            Err(e) => Err(e),
        }
    }

    /// Takes `amount` out of account `id` and returns the account as it then stands.
    /// Refused with `AccountNotFound`, else with `InvalidAmount` where `amount` is negative,
    /// else with `InsufficientFunds` where the account holds less; a refusal changes nothing.
    pub fn withdraw(&mut self, id: AccountId, amount: i64) -> (r: Result<Account, DomainError>)
        requires
            old(self).wf(),
        ensures
            final(self).wf(),
            carried_out(
                withdrawn(old(self).ledger(), id, amount as int),
                old(self).ledger(),
                final(self).ledger(),
                r,
            ),
            match r {
                Ok(account) => account.id() == id && account.balance() == final(self).ledger()[id],
                Err(_) => true,
            },
    {
        let mut account = match self.get_account(id) {
            Ok(account) => account,
            Err(e) => { return Err(e); },
        };
        let amount = match Amount::new(amount) {
            Ok(amount) => amount,
            Err(e) => { return Err(e); },
        };
        match account.withdraw(amount) {
            Ok(_) => {},
            Err(e) => { return Err(e); },
        }
        match self.repo.upsert(account) {
            Ok(_) => Ok(account),
            Err(e) => Err(e),
        }
    }

    /// Moves `amount` from account `from` to account `to`. Refused with `InvalidAmount`
    /// where the two are one account or `amount` is negative, else with `AccountNotFound`
    /// where either is missing, else with `InsufficientFunds` where `from` holds less; a
    /// refusal changes nothing.
    pub fn transfer(&mut self, from: AccountId, to: AccountId, amount: i64) -> (r: Result<
        (),
        DomainError,
    >)
        requires
            old(self).wf(),
            transferred(old(self).ledger(), from, to, amount as int) matches Ok(after) ==> after[to]
                <= i64::MAX,
        ensures
            final(self).wf(),
            carried_out(
                transferred(old(self).ledger(), from, to, amount as int),
                old(self).ledger(),
                final(self).ledger(),
                r,
            ),
    {
        let transfer = match Transfer::new(from, to, amount) {
            Ok(transfer) => transfer,
            Err(e) => { return Err(e); },
        };
        let mut from_account = match self.get_account(transfer.from()) {
            Ok(account) => account,
            Err(e) => { return Err(e); },
        };
        let mut to_account = match self.get_account(transfer.to()) {
            Ok(account) => account,
            Err(e) => { return Err(e); },
        };
        match from_account.withdraw(transfer.amount()) {
            Ok(_) => {},
            Err(e) => { return Err(e); },
        }
        to_account.deposit(transfer.amount());
        match self.repo.upsert(from_account) {
            Ok(_) => {},
            Err(e) => { return Err(e); },
        }
        match self.repo.upsert(to_account) {
            Ok(_) => Ok(()),
            Err(e) => Err(e),
        }
    }
}

} // verus!
