use bank_ledger::application::bank_service::BankService;
use bank_ledger::data::account_repository::InMemoryAccountRepository;
use bank_ledger::domain::{Account, DomainError};
use bank_ledger::presentation::dto::{
    AccountResponse, AmountRequest, ApiError, CreateAccountRquest, TransferRequest,
};
use bank_ledger::presentation::handlers::{
    create_account, deposit, get_account, map_domain_error, transfer, withdraw, ErrorReply,
    STATUS_BAD_REQUEST, STATUS_CREATED, STATUS_NOT_FOUND, STATUS_OK,
};

fn bank() -> BankService<InMemoryAccountRepository> {
    BankService::new(InMemoryAccountRepository::default())
}

#[test]
fn statuses_have_their_numbers() {
    assert_eq!(STATUS_OK, 200);
    assert_eq!(STATUS_CREATED, 201);
    assert_eq!(STATUS_BAD_REQUEST, 400);
    assert_eq!(STATUS_NOT_FOUND, 404);
}

#[test]
fn account_response_shows_the_account() {
    let shown = AccountResponse::from(Account::new(4, 90).unwrap());
    assert_eq!(shown, AccountResponse { id: 4, balance: 90 });
}

#[test]
fn api_error_keeps_its_message() {
    assert_eq!(ApiError::new("no".to_string()).error, "no");
}

#[test]
fn invalid_amount_is_a_bad_request_with_its_reason() {
    let reply = map_domain_error(&DomainError::InvalidAmount("Amount must be non-negative".to_string()));
    assert_eq!(
        reply,
        ErrorReply { status: 400, body: ApiError { error: "Amount must be non-negative".to_string() } }
    );
}

#[test]
fn insufficient_funds_is_a_bad_request() {
    let reply = map_domain_error(&DomainError::InsufficientFunds);
    assert_eq!(reply.status, 400);
    assert_eq!(reply.body.error, "Insufficient funds");
}

#[test]
fn missing_account_is_not_found() {
    let reply = map_domain_error(&DomainError::AccountNotFound);
    assert_eq!(reply.status, 404);
    assert_eq!(reply.body.error, "account not found");
}

#[test]
fn duplicate_account_is_a_bad_request() {
    let reply = map_domain_error(&DomainError::DuplicateAccount);
    assert_eq!(reply.status, 400);
    assert_eq!(reply.body.error, "Account alredy exists");
}

#[test]
fn create_account_request_shows_the_new_account() {
    let mut service = bank();
    let shown = create_account(&mut service, &CreateAccountRquest { id: 1, initial: 100 });
    assert_eq!(shown, Ok(AccountResponse { id: 1, balance: 100 }));
    let again = create_account(&mut service, &CreateAccountRquest { id: 1, initial: 3 });
    assert_eq!(again, Err(DomainError::DuplicateAccount));
    let negative = create_account(&mut service, &CreateAccountRquest { id: 2, initial: -3 });
    assert!(matches!(negative, Err(DomainError::InvalidAmount(_))));
    assert_eq!(get_account(&service, 2), Err(DomainError::AccountNotFound));
}

#[test]
fn get_account_request_shows_the_account() {
    let mut service = bank();
    service.create_account(6, 12).unwrap();
    assert_eq!(get_account(&service, 6), Ok(AccountResponse { id: 6, balance: 12 }));
    assert_eq!(get_account(&service, 7), Err(DomainError::AccountNotFound));
}

#[test]
fn deposit_and_withdraw_requests_show_the_new_balance() {
    let mut service = bank();
    service.create_account(1, 10).unwrap();
    assert_eq!(
        deposit(&mut service, 1, &AmountRequest { amount: 5 }),
        Ok(AccountResponse { id: 1, balance: 15 })
    );
    assert_eq!(
        withdraw(&mut service, 1, &AmountRequest { amount: 15 }),
        Ok(AccountResponse { id: 1, balance: 0 })
    );
    assert_eq!(
        withdraw(&mut service, 1, &AmountRequest { amount: 1 }),
        Err(DomainError::InsufficientFunds)
    );
    assert_eq!(deposit(&mut service, 2, &AmountRequest { amount: 1 }), Err(DomainError::AccountNotFound));
}

#[test]
fn transfer_request_moves_the_money() {
    let mut service = bank();
    service.create_account(1, 100).unwrap();
    service.create_account(2, 0).unwrap();
    assert_eq!(transfer(&mut service, &TransferRequest { from: 1, to: 2, amount: 40 }), Ok(()));
    assert_eq!(get_account(&service, 1), Ok(AccountResponse { id: 1, balance: 60 }));
    assert_eq!(get_account(&service, 2), Ok(AccountResponse { id: 2, balance: 40 }));
    assert_eq!(
        transfer(&mut service, &TransferRequest { from: 2, to: 1, amount: 41 }),
        Err(DomainError::InsufficientFunds)
    );
}
