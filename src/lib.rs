//! A personal password-memorization helper: a store of one salted argon2 hash
//! per named account, and the operations that add, check, edit and remove
//! accounts against it.

pub mod add;
pub mod check;
pub mod database;
pub mod edit;
pub mod error;
pub mod list;
pub mod password;
pub mod remove;
