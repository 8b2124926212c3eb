//! A small personal expense ledger: a fixed set of expense categories, each
//! mapped to a pair of accounting accounts, and a formatter that turns a
//! category, an amount and a calendar date into the exact text block that is
//! appended to a plain-text ledger file.
//!
//! The library holds the domain logic only: category and amount parsing,
//! entry formatting, argument handling, and the exclusive-access guard that
//! protects the ledger file handle. Opening the file, reading the
//! environment and writing bytes are left to the caller.

pub mod args;
pub mod date;
pub mod digits;
pub mod errors;
pub mod expense;
pub mod guard;
