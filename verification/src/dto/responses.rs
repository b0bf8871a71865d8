//! Response bodies, and the parameters of a paginated listing.

use crate::models::User;
use vstd::prelude::*;
use vstd::std_specs::convert::FromSpecImpl;

verus! {

/// A user as shown to clients: everything but the password hash.
#[derive(Debug)]
pub struct UserResponse {
    pub id: u128,
    pub email: String,
    pub username: String,
    pub created_at: i64,
}

/// What a [`UserResponse`] holds, as mathematical values.
pub struct UserResponseView {
    pub id: u128,
    pub email: Seq<char>,
    pub username: Seq<char>,
    pub created_at: i64,
}

impl View for UserResponse {
    type V = UserResponseView;

    open spec fn view(&self) -> UserResponseView {
        UserResponseView {
            id: self.id,
            email: self.email@,
            username: self.username@,
            created_at: self.created_at,
        }
    }
}

impl From<User> for UserResponse {
    fn from(user: User) -> (r: Self) {
        UserResponse {
            id: user.id,
            email: user.email,
            username: user.username,
            created_at: user.created_at,
        }
    }
}

impl FromSpecImpl<User> for UserResponse {
    open spec fn obeys_from_spec() -> bool {
        true
    }

    open spec fn from_spec(user: User) -> Self {
        UserResponse {
            id: user.id,
            email: user.email,
            username: user.username,
            created_at: user.created_at,
        }
    }
}

/// The answer to a signup or a login: a token, and the user it stands for.
#[derive(Debug)]
pub struct AuthResponse {
    pub token: String,
    pub user: UserResponse,
}

/// The page asked of a listing. Pages count from 1.
#[derive(Debug)]
pub struct PaginationParams {
    pub page: usize,
    pub limit: usize,
}

/// The page shown where none is asked for.
pub fn default_page() -> (page: usize)
    ensures
        page == 1,
{
    1
}

/// The page size used where none is asked for.
pub fn default_limit() -> (limit: usize)
    ensures
        limit == 10,
{
    10
}

impl Default for PaginationParams {
    fn default() -> (params: Self)
        ensures
            params.page == 1,
            params.limit == 10,
    {
        PaginationParams { page: default_page(), limit: default_limit() }
    }
}

/// One page of a listing, with the number of items in the whole listing.
#[derive(Debug)]
pub struct PaginatedResponse<T> {
    pub data: Vec<T>,
    pub page: usize,
    pub limit: usize,
    pub total: usize,
}

} // verus!
