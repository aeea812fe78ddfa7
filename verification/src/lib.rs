//! A ledger of monetary accounts whose balances never go below zero.

pub mod application;
pub mod data;
pub mod domain;
pub mod ledger;
pub mod presentation;
