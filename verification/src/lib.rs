//! An event-sourced ledger for monetary accounts.
//!
//! Accounts and balances are never stored: both are derived by replaying an
//! append-only sequence of events. Every function of the crate carries a
//! contract over the mathematical model of its data, and the bodies are proved
//! against those contracts.

pub mod config;
pub mod domain;
pub mod http;
