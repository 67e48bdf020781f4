pub mod prelude;
pub mod pastes;
pub mod api;
pub mod users;
pub mod sessions;
