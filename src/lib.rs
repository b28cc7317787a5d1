//! Accounts and wallets with deposit, withdrawal and transfer operations.
//!
//! Money is held as signed integer amounts of minor currency units
//! (hundredths: `10_050` stands for `100.50`). Every mutating operation
//! returns a response record whose `is_successful` flag and
//! `error_message` report the outcome; nothing panics.
pub mod accounts;
mod text;
pub mod ids;
mod ledger;
pub mod basic_account;
pub mod premium_account;
pub mod any_account;
pub mod wallets;
pub mod basic_wallet;
pub mod multi_currency_wallet;
pub mod laws;
