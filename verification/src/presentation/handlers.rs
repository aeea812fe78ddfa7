//! What each request does to the service and what is answered, short of the transport.

use vstd::prelude::*;
use crate::application::bank_service::BankService;
use crate::data::account_repository::AccountRepository;
use crate::domain::{AccountId, DomainError, DomainErrorView};
use crate::ledger::{carried_out, created, deposited, transferred, withdrawn};
use crate::presentation::dto::{
    AccountResponse, AmountRequest, ApiError, CreateAccountRquest, TransferRequest,
};

verus! {

/// The status of an answer to a request that was carried out.
pub const STATUS_OK: u16 = 200;

/// The status of the answer to a request that opened an account.
pub const STATUS_CREATED: u16 = 201;

/// The status of an answer to a request that the ledger's rules refuse.
pub const STATUS_BAD_REQUEST: u16 = 400;

/// The status of an answer to a request for an account that does not exist.
pub const STATUS_NOT_FOUND: u16 = 404;

/// A failure as it is answered: the status and the body.
#[derive(Debug, PartialEq, Eq)]
pub struct ErrorReply {
    pub status: u16,
    pub body: ApiError,
}

/// The status with which `error` is answered: not found for a missing account, bad
/// request for everything else.
pub open spec fn refusal_status(error: DomainErrorView) -> u16 {
    match error {
        DomainErrorView::AccountNotFound => STATUS_NOT_FOUND,
        _ => STATUS_BAD_REQUEST,
    }
}

/// The text with which `error` is answered: the reason it carries, or a fixed sentence.
pub open spec fn refusal_text(error: DomainErrorView) -> Seq<char> {
    match error {
        DomainErrorView::InvalidAmount(reason) => reason,
        DomainErrorView::InsufficientFunds => "Insufficient funds"@,
        DomainErrorView::AccountNotFound => "account not found"@,
        DomainErrorView::DuplicateAccount => "Account alredy exists"@,
    }
}

/// The answer to a request that failed with `error`.
pub fn map_domain_error(error: &DomainError) -> (reply: ErrorReply)
    ensures
        reply.status == refusal_status(error@),
        reply.body.error@ == refusal_text(error@),
{
    match error {
        DomainError::InvalidAmount(msg) => ErrorReply {
            status: STATUS_BAD_REQUEST,
            body: ApiError::new(msg.clone()),
        },
        DomainError::InsufficientFunds => ErrorReply {
            status: STATUS_BAD_REQUEST,
            body: ApiError::new("Insufficient funds".to_owned()),
        },
        DomainError::AccountNotFound => ErrorReply {
            status: STATUS_NOT_FOUND,
            body: ApiError::new("account not found".to_owned()),
        },
        DomainError::DuplicateAccount => ErrorReply {
            status: STATUS_BAD_REQUEST,
            body: ApiError::new("Account alredy exists".to_owned()),
        },
    }
}

/// Opens the account that `payload` describes and shows it as it was opened.
pub fn create_account<R: AccountRepository>(
    service: &mut BankService<R>,
    payload: &CreateAccountRquest,
) -> (r: Result<AccountResponse, DomainError>)
    requires
        old(service).wf(),
    ensures
        final(service).wf(),
        carried_out(
            created(old(service).ledger(), payload.id, payload.initial as int),
            old(service).ledger(),
            final(service).ledger(),
            r,
        ),
        match r {
            Ok(shown) => shown.id == payload.id && shown.balance == payload.initial,
            Err(_) => true,
        },
{
    match service.create_account(payload.id, payload.initial) {
        Ok(_) => {},
        Err(e) => { return Err(e); },
    }
    match service.get_account(payload.id) {
        Ok(account) => Ok(AccountResponse::from(account)),
        Err(e) => Err(e),
    }
}

/// Shows account `id`, or reports that it does not exist.
pub fn get_account<R: AccountRepository>(service: &BankService<R>, id: AccountId) -> (r: Result<
    AccountResponse,
    DomainError,
>)
    requires
        service.wf(),
    ensures
        match r {
            Ok(shown) => service.ledger().contains_key(id) && shown.id == id && shown.balance
                == service.ledger()[id] && shown.balance >= 0,
            Err(e) => !service.ledger().contains_key(id) && e@ == DomainErrorView::AccountNotFound,
        },
{
    match service.get_account(id) {
        Ok(account) => Ok(AccountResponse::from(account)),
        Err(e) => Err(e),
    }
}

/// Pays the amount of `payload` into account `id` and shows the account as it then stands.
pub fn deposit<R: AccountRepository>(
    service: &mut BankService<R>,
    id: AccountId,
    payload: &AmountRequest,
) -> (r: Result<AccountResponse, DomainError>)
    requires
        old(service).wf(),
        deposited(old(service).ledger(), id, payload.amount as int) matches Ok(after) ==> after[id]
            <= i64::MAX,
    ensures
        final(service).wf(),
        carried_out(
            deposited(old(service).ledger(), id, payload.amount as int),
            old(service).ledger(),
            final(service).ledger(),
            r,
        ),
        match r {
            Ok(shown) => shown.id == id && shown.balance == final(service).ledger()[id],
            Err(_) => true,
        },
{
    match service.deposit(id, payload.amount) {
        Ok(account) => Ok(AccountResponse::from(account)),
        Err(e) => Err(e),
    }
}

/// Takes the amount of `payload` out of account `id` and shows the account as it then
/// stands.
pub fn withdraw<R: AccountRepository>(
    service: &mut BankService<R>,
    id: AccountId,
    payload: &AmountRequest,
) -> (r: Result<AccountResponse, DomainError>)
    requires
        old(service).wf(),
    ensures
        final(service).wf(),
        carried_out(
            withdrawn(old(service).ledger(), id, payload.amount as int),
            old(service).ledger(),
            final(service).ledger(),
            r,
        ),
        match r {
            Ok(shown) => shown.id == id && shown.balance == final(service).ledger()[id],
            Err(_) => true,
        },
{
    match service.withdraw(id, payload.amount) {
        Ok(account) => Ok(AccountResponse::from(account)),
        Err(e) => Err(e),
    }
}

/// Moves money as `payload` describes.
pub fn transfer<R: AccountRepository>(service: &mut BankService<R>, payload: &TransferRequest) -> (r:
    Result<(), DomainError>)
    requires
        old(service).wf(),
        transferred(
            old(service).ledger(),
            payload.from,
            payload.to,
            payload.amount as int,
        ) matches Ok(after) ==> after[payload.to] <= i64::MAX,
    ensures
        final(service).wf(),
        carried_out(
            transferred(old(service).ledger(), payload.from, payload.to, payload.amount as int),
            old(service).ledger(),
            final(service).ledger(),
            r,
        ),
{
    service.transfer(payload.from, payload.to, payload.amount)
}

} // verus!
