use vstd::prelude::*;

verus! {

/// Everything that can go wrong while recording a purchase.
///
/// Each variant carries the value that made the operation fail: the name of
/// the missing environment variable, the number of arguments received, or the
/// offending token. `IO` carries a rendered description of the underlying
/// write failure; `GuardBusy` reports that another append already holds the
/// ledger guard.
#[derive(Debug)]
pub enum BuyError {
    MissingEnvVar(String),
    InsufficientArgs(usize),
    TooManyArgs(usize),
    InvalidExpense(String),
    InvalidAmount(String),
    IO(String),
    GuardBusy,
}

} // verus!
