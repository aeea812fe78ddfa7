//! The operations offered on the ledger.

pub mod bank_service;
