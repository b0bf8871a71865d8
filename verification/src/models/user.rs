use vstd::prelude::*;

verus! {

/// An account. The id and the email never change once the account exists.
#[derive(Debug, Clone)]
pub struct User {
    pub id: u128,
    pub email: String,
    pub username: String,
    pub hashed_password: String,
    pub created_at: i64,
}

/// What a [`User`] holds, as mathematical values.
pub struct UserView {
    pub id: u128,
    pub email: Seq<char>,
    pub username: Seq<char>,
    pub hashed_password: Seq<char>,
    pub created_at: i64,
}

impl View for User {
    type V = UserView;

    open spec fn view(&self) -> UserView {
        UserView {
            id: self.id,
            email: self.email@,
            username: self.username@,
            hashed_password: self.hashed_password@,
            created_at: self.created_at,
        }
    }
}

} // verus!
