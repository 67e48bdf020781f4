pub mod api;
pub mod pastes;
pub mod prelude;
pub mod sessions;
pub mod users;
