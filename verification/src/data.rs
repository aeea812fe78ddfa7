//! Where the accounts are kept.

pub mod account_repository;
