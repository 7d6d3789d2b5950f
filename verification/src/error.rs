//! The errors that the service answers with.

use vstd::prelude::*;

verus! {

/// An error of the service. The first two carry the description of a failed
/// outside request (HTTP or database); the others carry the message sent back.
#[derive(Debug, PartialEq, Eq)]
pub enum DeductError {
    ReqwestError(String),
    DieselError(String),
    UnauthorizedUser(String),
    BadRequest(String),
}

/// The result of an operation of the service.
pub type DeductResult<T> = Result<T, DeductError>;

/// The copy of an optional text.
pub fn copy_opt_text(o: &Option<String>) -> (r: Option<String>)
    ensures
        r == *o,
{
    match o {
        Some(s) => Some(s.clone()),
        None => None,
    }
}

} // verus!
