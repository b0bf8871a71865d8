//! What each request does, on plain values.

pub mod health;
pub mod post;
pub mod user;

pub use health::{health_at, health_check, HealthStatus};
pub use post::{create_post, delete_post, get_post, get_posts};
pub use user::{
    check_signup, complete_signup, find_login, finish_login, get_current_user, login,
    prepare_signup, signup,
};
