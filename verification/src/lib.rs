pub mod auth;
pub mod config;
pub mod controllers;
pub mod helpers;
pub mod models;
pub mod params;
pub mod text;
pub mod validators;
pub mod views;
