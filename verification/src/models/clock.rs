//! The current time and fresh identifiers.
use vstd::prelude::*;

verus! {

/// Calls `jiff::Timestamp::now` and gives its milliseconds since the Unix epoch. It reads the
/// clock, so nothing is claimed of the value.
#[verifier::external_body]
pub(crate) fn now_millis() -> i64 {
    jiff::Timestamp::now().as_millisecond()
}

/// Calls `uuid::Uuid::now_v7` and gives the identifier as a `u128`. It reads the clock and
/// draws random bits, so nothing is claimed of the value.
#[verifier::external_body]
pub(crate) fn new_id() -> u128 {
    uuid::Uuid::now_v7().as_u128()
}

} // verus!
