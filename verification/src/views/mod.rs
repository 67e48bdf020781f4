//! What the pages show, as plain values.
use vstd::prelude::*;

pub mod pastes;
pub mod sessions;
pub mod users;


verus! {

/// The page for a path that leads nowhere.
#[derive(Clone, Copy, Debug, Default)]
pub struct NotFoundTemplate {
    pub current_user: Option<()>,
}

/// The page for an unexpected failure.
#[derive(Clone, Copy, Debug, Default)]
pub struct InternalServerErrorTemplate {
    pub current_user: Option<()>,
}

} // verus!
