//! The error type of the models.
use argon2::password_hash::Error as PasswordHashError;
use vstd::prelude::*;

verus! {

/// What can go wrong while building or checking a model value.
#[derive(Debug)]
pub enum Error {
    /// Hashing or verifying a password failed.
    Argon2(PasswordHashError),
    /// A value was rejected; the message says why.
    Parse(String),
}

pub type Result<T> = core::result::Result<T, Error>;

/// Whether `r` is the rejection with message `msg`.
pub open spec fn is_parse_error<T>(r: Result<T>, msg: Seq<char>) -> bool {
    match r {
        Err(Error::Parse(m)) => m@ == msg,
        _ => false,
    }
}

} // verus!
