pub mod clock;
pub mod crypto;
pub mod prelude;
pub mod paste;
pub mod user;
pub mod hex;
pub mod ids;
pub mod session;
pub mod api_session;
pub mod invite_code;
