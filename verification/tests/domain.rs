use bank_ledger::domain::{Account, Amount, DomainError, Transfer};

#[test]
fn amount_accepts_zero_and_positive() {
    assert_eq!(Amount::new(0).unwrap().value(), 0);
    assert_eq!(Amount::new(25).unwrap().value(), 25);
    assert_eq!(Amount::new(i64::MAX).unwrap().value(), i64::MAX);
}

#[test]
fn amount_rejects_negative() {
    assert_eq!(
        Amount::new(-1),
        Err(DomainError::InvalidAmount("Amount must be non-negative".to_string()))
    );
    assert!(matches!(Amount::new(i64::MIN), Err(DomainError::InvalidAmount(_))));
}

#[test]
fn account_new_keeps_id_and_balance() {
    let account = Account::new(7, 120).unwrap();
    assert_eq!(account.id(), 7);
    assert_eq!(account.balance(), 120);
    let empty = Account::new(8, 0).unwrap();
    assert_eq!(empty.balance(), 0);
}

#[test]
fn account_new_rejects_negative_balance() {
    assert_eq!(
        Account::new(5, -1),
        Err(DomainError::InvalidAmount("Initial balance must be non-negative".to_string()))
    );
}

#[test]
fn account_deposit_adds() {
    let mut account = Account::new(1, 10).unwrap();
    account.deposit(Amount::new(32).unwrap());
    assert_eq!(account.balance(), 42);
    assert_eq!(account.id(), 1);
    account.deposit(Amount::new(0).unwrap());
    assert_eq!(account.balance(), 42);
}

#[test]
fn account_deposit_reaches_the_largest_balance() {
    let mut account = Account::new(1, 1).unwrap();
    account.deposit(Amount::new(i64::MAX - 1).unwrap());
    assert_eq!(account.balance(), i64::MAX);
}

#[test]
fn account_withdraw_subtracts() {
    let mut account = Account::new(1, 10).unwrap();
    assert_eq!(account.withdraw(Amount::new(4).unwrap()), Ok(()));
    assert_eq!(account.balance(), 6);
    assert_eq!(account.withdraw(Amount::new(6).unwrap()), Ok(()));
    assert_eq!(account.balance(), 0);
    assert_eq!(account.id(), 1);
}

#[test]
fn account_withdraw_refuses_more_than_held() {
    let mut account = Account::new(1, 10).unwrap();
    assert_eq!(account.withdraw(Amount::new(11).unwrap()), Err(DomainError::InsufficientFunds));
    assert_eq!(account.balance(), 10);
}

#[test]
fn transfer_new_keeps_its_parts() {
    let transfer = Transfer::new(1, 2, 40).unwrap();
    assert_eq!(transfer.from(), 1);
    assert_eq!(transfer.to(), 2);
    assert_eq!(transfer.amount().value(), 40);
}

#[test]
fn transfer_new_rejects_same_account() {
    assert_eq!(
        Transfer::new(3, 3, 10),
        Err(DomainError::InvalidAmount("Transfer must be between different accounts".to_string()))
    );
}

#[test]
fn transfer_new_rejects_negative_amount() {
    assert_eq!(
        Transfer::new(1, 2, -5),
        Err(DomainError::InvalidAmount("Amount must be non-negative".to_string()))
    );
}

#[test]
fn transfer_new_reports_same_account_before_negative_amount() {
    assert_eq!(
        Transfer::new(4, 4, -5),
        Err(DomainError::InvalidAmount("Transfer must be between different accounts".to_string()))
    );
}
