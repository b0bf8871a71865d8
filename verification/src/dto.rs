//! The shapes of requests and responses.

pub mod requests;
pub mod responses;

pub use requests::{CreatePostRequest, LoginRequest, SignupRequest};
pub use responses::{
    default_limit, default_page, AuthResponse, PaginatedResponse, PaginationParams, UserResponse,
};
