//! Invite codes, which sign-up consumes.
use vstd::prelude::*;

verus! {

/// A code that lets one person sign up.
#[derive(Debug, Default)]
pub struct InviteCode(pub String);

} // verus!
