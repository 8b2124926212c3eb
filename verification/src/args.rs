use vstd::prelude::*;
use vstd::string::StringExecFns;

use crate::errors::BuyError;

verus! {

/// The environment variable that names the ledger file's path.
pub const LEDGER_VAR: &'static str = "LEDGER_FILE";

/// Resolves the ledger file's path from the value of the `LEDGER_FILE`
/// environment variable, handed in by the caller as it found it. A missing
/// variable is the startup-fatal error `MissingEnvVar` naming the variable.
pub fn get_ledger_file(value: Option<String>) -> (r: Result<String, BuyError>)
    ensures
        match value {
            Some(path) => r == Ok::<String, BuyError>(path),
            None => (r matches Err(BuyError::MissingEnvVar(v)) && v@ == LEDGER_VAR@),
        },
{
    match value {
        Some(path) => Ok(path),
        None => Err(BuyError::MissingEnvVar(String::from_str(LEDGER_VAR))),
    }
}

/// Splits the raw argument vector — program name first — into exactly three
/// values. Fewer than three fails with `InsufficientArgs` carrying how many
/// were received; more than three fails with `TooManyArgs` carrying the
/// total count.
pub fn require_three(args: Vec<String>) -> (r: Result<(String, String, String), BuyError>)
    ensures
        args@.len() == 3 ==> (r matches Ok(t) && t.0 == args@[0] && t.1 == args@[1] && t.2
            == args@[2]),
        args@.len() < 3 ==> (r matches Err(BuyError::InsufficientArgs(n)) && n == args@.len()),
        args@.len() > 3 ==> (r matches Err(BuyError::TooManyArgs(n)) && n == args@.len()),
{
    let n = args.len();
    if n < 3 {
        return Err(BuyError::InsufficientArgs(n));
    }
    if n > 3 {
        return Err(BuyError::TooManyArgs(n));
    }
    let mut args = args;
    let z = args.pop().unwrap();
    let y = args.pop().unwrap();
    let x = args.pop().unwrap();
    Ok((x, y, z))
}

} // verus!
