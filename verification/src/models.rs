//! The stored records.

pub mod post;
pub mod user;

pub use post::{Post, PostView};
pub use user::{User, UserView};
