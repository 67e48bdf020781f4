pub mod pastes;
