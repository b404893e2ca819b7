//! Verified core of the wallet's account bookkeeping: account identifiers,
//! the rows written for a new account, and the decisions taken on the answers
//! of the wallet database.
//!
//! The operations that touch the database (`create`, `update`, `spend`) are
//! resumable: each hands out one `Statement` at a time and is resumed with its
//! outcome, so the connection stays with the caller. `tables` states what the
//! statements do to the `accounts`, `txos` and `account_txo_statuses` tables,
//! and what reads back after each operation.

pub mod account;
pub mod account_id;
pub mod create;
pub mod encoding;
pub mod error;
pub mod models;
pub mod spend;
pub mod statement;
pub mod tables;
pub mod update;
pub mod uri;
