//! A field rule in the shape that the `validator` crate expects.
use crate::text::{trim, trimmed};
use validator::ValidationError;
use vstd::prelude::*;

verus! {

/// The error that a field rule of the `validator` crate reports.
#[verifier::external_type_specification]
#[verifier::external_body]
pub struct ExValidationError(ValidationError);

/// The code of the error for a text that is empty once trimmed.
pub const EMPTY_WHEN_TRIMMED_CODE: &'static str = "cannot be empty";

/// Calls `validator::ValidationError::new(code)`: an error with that code, no message and no
/// parameters. The error is opaque here, so nothing is claimed of it.
#[verifier::external_body]
fn validation_error(code: &'static str) -> ValidationError {
    ValidationError::new(code)
}

/// `Ok` when `s` holds something besides whitespace; otherwise the error with code
/// "cannot be empty".
pub fn not_empty_when_trimmed(s: &str) -> (r: Result<(), ValidationError>)
    ensures
        r is Ok <==> trimmed(s@).len() > 0,
{
    if trim(s).as_str().is_empty() {
        return Err(validation_error(EMPTY_WHEN_TRIMMED_CODE));
    }
    Ok(())
}

} // verus!
