//! A bank account with checked deposits, withdrawals and transfers.
//!
//! Every operation validates its input before it touches a balance, so a call
//! that fails leaves each account it was given exactly as it was.
mod account;

pub use account::{AccountError, AccountView, BankAccount, Operation};
