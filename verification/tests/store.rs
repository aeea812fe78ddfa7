use bank_ledger::data::account_repository::{AccountRepository, InMemoryAccountRepository};
use bank_ledger::domain::{Account, DomainError};

#[test]
fn empty_store_has_no_account() {
    let store = InMemoryAccountRepository::default();
    assert_eq!(store.get(1), Ok(None));
    assert_eq!(store.get(0), Ok(None));
}

#[test]
fn create_then_get_returns_the_account() {
    let mut store = InMemoryAccountRepository::default();
    assert_eq!(store.create(Account::new(1, 100).unwrap()), Ok(()));
    let found = store.get(1).unwrap().unwrap();
    assert_eq!(found.id(), 1);
    assert_eq!(found.balance(), 100);
    assert_eq!(store.get(2), Ok(None));
}

#[test]
fn create_refuses_a_taken_id_and_keeps_the_first() {
    let mut store = InMemoryAccountRepository::default();
    assert_eq!(store.create(Account::new(1, 100).unwrap()), Ok(()));
    assert_eq!(store.create(Account::new(1, 5).unwrap()), Err(DomainError::DuplicateAccount));
    assert_eq!(store.get(1).unwrap().unwrap().balance(), 100);
}

#[test]
fn upsert_inserts_and_replaces() {
    let mut store = InMemoryAccountRepository::default();
    assert_eq!(store.upsert(Account::new(3, 10).unwrap()), Ok(()));
    assert_eq!(store.get(3).unwrap().unwrap().balance(), 10);
    assert_eq!(store.upsert(Account::new(3, 25).unwrap()), Ok(()));
    assert_eq!(store.get(3).unwrap().unwrap().balance(), 25);
    assert_eq!(store.get(3).unwrap().unwrap().id(), 3);
}

#[test]
fn get_hands_out_a_copy() {
    let mut store = InMemoryAccountRepository::default();
    store.create(Account::new(1, 50).unwrap()).unwrap();
    let mut copy = store.get(1).unwrap().unwrap();
    copy.withdraw(bank_ledger::domain::Amount::new(50).unwrap()).unwrap();
    assert_eq!(copy.balance(), 0);
    assert_eq!(store.get(1).unwrap().unwrap().balance(), 50);
}
