//! An in-memory account and post service: credential handling, signed
//! session tokens, an entity store with a unique email index, and the
//! ownership rule that guards deletion.

pub mod auth;
pub mod clock;
pub mod dto;
pub mod errors;
pub mod ids;
pub mod laws;
pub mod listing;
pub mod models;
pub mod password;
pub mod routes;
pub mod states;

pub use errors::ApiError;
pub use models::{Post, User};
pub use states::AppState;
