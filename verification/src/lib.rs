//! A ledger engine for customer accounts.
//!
//! A feed of deposits, withdrawals, disputes, resolutions and chargebacks is
//! applied account by account. Each account has one worker, which owns the
//! account's wallet and its history and takes one command at a time; a
//! router sends each command to the worker of its account.
//!
//! - [`amount`]: decimal amounts of currency, and what is relied on of the
//!   decimal arithmetic.
//! - [`account`]: the wallet and the account, with their rules.
//! - [`transaction`]: transactions and disputes, and their states.
//! - [`tasks`]: the commands, the worker of one account, and what holds of
//!   it over several commands: its ledgers stay consistent, and what is
//!   held is owed to the open disputes.
//! - [`engine`]: the router.
//! - [`csv`]: the records of the input and the lines of the output.
//! - [`errors`]: what can go wrong.
//! - [`text`]: numbers and flags as text.
//!
//! The library decides and computes. Tasks, channels and files are the
//! caller's.

pub mod account;
pub mod amount;
pub mod csv;
pub mod engine;
pub mod errors;
pub mod tasks;
pub mod text;
pub mod transaction;
