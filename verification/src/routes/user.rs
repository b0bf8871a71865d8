//! Accounts: signup, login, and the caller's own profile.

use crate::auth::{
    authenticate_at, authenticated_user, create_token_at, created_token, header_view,
};
use crate::clock::unix_now;
use crate::dto::requests::{
    email_format_ok, signup_report, signup_valid, LoginRequest, SignupRequest,
};
use crate::dto::responses::{AuthResponse, UserResponse, UserResponseView};
use crate::errors::ApiError;
use crate::ids::fresh_id;
use crate::models::{User, UserView};
use crate::password::{hash, labelled, password_matches, verify};
use crate::states::{AppState, StateView};
use vstd::prelude::*;
use vstd::string::*;

verus! {

/// A user as shown to clients: everything but the password hash.
pub open spec fn shown(user: UserView) -> UserResponseView {
    UserResponseView {
        id: user.id,
        email: user.email,
        username: user.username,
        created_at: user.created_at,
    }
}

/// The store after a user has been added: the user under its id, and its
/// email in the index.
pub open spec fn with_user(s: StateView, user: UserView) -> StateView {
    StateView {
        users: s.users.insert(user.id, user),
        email_index: s.email_index.insert(user.email, user.id),
        ..s
    }
}

/// What [`register`] returns and leaves in the store. A taken email is
/// refused first, then an id already in use; then the token decides.
pub open spec fn registered(
    old: StateView,
    email: Seq<char>,
    username: Seq<char>,
    hashed_password: Seq<char>,
    id: u128,
    now: i64,
    r: Result<AuthResponse, ApiError>,
    new: StateView,
) -> bool {
    let user = UserView { id, email, username, hashed_password, created_at: now };
    if old.email_index.contains_key(email) {
        r matches Err(ApiError::UserAlreadyExists) && new == old
    } else if old.users.contains_key(id) {
        r matches Err(ApiError::InternalError(msg)) && msg@ == "User id already in use"@ && new
            == old
    } else {
        match r {
            Ok(resp) => {
                &&& created_token(id, email, old.jwt_secret, now, Ok(resp.token))
                &&& resp.user@ == shown(user)
                &&& new == with_user(old, user)
            },
            Err(e) => created_token(id, email, old.jwt_secret, now, Err(e)) && new == old,
        }
    }
}

/// Creates the account for a checked request: issues its token, stores
/// the user under the given id and reserves the email, all or nothing.
pub fn register(
    state: &mut AppState,
    email: String,
    username: String,
    hashed_password: String,
    id: u128,
    now: i64,
) -> (r: Result<AuthResponse, ApiError>)
    requires
        old(state)@.wf(),
    ensures
        final(state)@.wf(),
        registered(
            old(state)@,
            email@,
            username@,
            hashed_password@,
            id,
            now,
            r,
            final(state)@,
        ),
{
    if state.email_taken(email.as_str()) {
        return Err(ApiError::UserAlreadyExists);
    }
    if state.get_user(id).is_some() {
        return Err(ApiError::InternalError(String::from_str("User id already in use")));
    }
    let token = match create_token_at(&id, email.as_str(), state.jwt_secret(), now) {
        Ok(token) => token,
        Err(e) => {
            return Err(e);
        },
    };
    let shown_user = UserResponse {
        id,
        email: email.clone(),
        username: username.clone(),
        created_at: now,
    };
    let user = User { id, email, username, hashed_password, created_at: now };
    let stored = state.reserve(user);
    assert(stored);
    Ok(AuthResponse { token, user: shown_user })
}

/// What [`signup`] returns and leaves in the store.
pub open spec fn signed_up(
    old: StateView,
    email: Seq<char>,
    username: Seq<char>,
    password: Seq<char>,
    r: Result<AuthResponse, ApiError>,
    new: StateView,
) -> bool {
    if !signup_valid(email, username, password) {
        r matches Err(ApiError::ValidationError(msg)) && msg@ == signup_report(
            email,
            username,
            password,
        ) && new == old
    } else if old.email_index.contains_key(email) {
        r matches Err(ApiError::UserAlreadyExists) && new == old
    } else {
        match r {
            Ok(resp) => {
                let id = resp.user.id;
                &&& new.users.contains_key(id)
                &&& password_matches(password, new.users[id].hashed_password) == Some(true)
                &&& registered(
                    old,
                    email,
                    username,
                    new.users[id].hashed_password,
                    id,
                    resp.user.created_at,
                    r,
                    new,
                )
            },
            Err(e) => e is InternalError && new == old,
        }
    }
}

/// What [`check_signup`] answers.
pub open spec fn signup_checked(
    s: StateView,
    email: Seq<char>,
    username: Seq<char>,
    password: Seq<char>,
    r: Result<(), ApiError>,
) -> bool {
    if !signup_valid(email, username, password) {
        r matches Err(ApiError::ValidationError(msg)) && msg@ == signup_report(
            email,
            username,
            password,
        )
    } else if s.email_index.contains_key(email) {
        r matches Err(ApiError::UserAlreadyExists)
    } else {
        r is Ok
    }
}

/// The first step of a signup, which only reads the store: the fields
/// must meet their constraints and the email must be free.
pub fn check_signup(state: &AppState, payload: &SignupRequest) -> (r: Result<(), ApiError>)
    ensures
        signup_checked(state@, payload.email@, payload.username@, payload.password@, r),
{
    match payload.validate() {
        Ok(_) => {},
        Err(e) => {
            return Err(e);
        },
    }
    if state.email_taken(payload.email.as_str()) {
        return Err(ApiError::UserAlreadyExists);
    }
    Ok(())
}

/// An account that is ready to be stored: the password is hashed, the id
/// and the time of creation are drawn.
pub struct PendingSignup {
    pub email: String,
    pub username: String,
    pub hashed_password: String,
    pub id: u128,
    pub created_at: i64,
}

/// The second step of a signup, which needs no store: hashes the
/// password, draws a fresh id and reads the clock. The digest that comes
/// back verifies against the password; the email and the username are
/// those of the request.
pub fn prepare_signup(payload: SignupRequest) -> (r: Result<PendingSignup, ApiError>)
    ensures
        match r {
            Ok(pending) => {
                &&& pending.email@ == payload.email@
                &&& pending.username@ == payload.username@
                &&& password_matches(payload.password@, pending.hashed_password@) == Some(true)
            },
            Err(e) => e is InternalError,
        },
{
    let hashed_password = match hash(payload.password.as_str()) {
        Ok(digest) => digest,
        Err(e) => {
            return Err(e);
        },
    };
    let id = fresh_id();
    let created_at = unix_now();
    Ok(
        PendingSignup {
            email: payload.email,
            username: payload.username,
            hashed_password,
            id,
            created_at,
        },
    )
}

/// The last step of a signup, the only one that changes the store:
/// [`register`] on a prepared account.
pub fn complete_signup(state: &mut AppState, pending: PendingSignup) -> (r: Result<
    AuthResponse,
    ApiError,
>)
    requires
        old(state)@.wf(),
    ensures
        final(state)@.wf(),
        registered(
            old(state)@,
            pending.email@,
            pending.username@,
            pending.hashed_password@,
            pending.id,
            pending.created_at,
            r,
            final(state)@,
        ),
{
    register(
        state,
        pending.email,
        pending.username,
        pending.hashed_password,
        pending.id,
        pending.created_at,
    )
}

/// Registers an account, in the three steps [`check_signup`],
/// [`prepare_signup`] and [`complete_signup`]. A request that breaks a
/// constraint is refused with a validation error, a taken email with
/// `UserAlreadyExists`; else the password is hashed and the account
/// created under a fresh id, and the answer carries a token for it. A
/// failure leaves the store as it was.
pub fn signup(state: &mut AppState, payload: SignupRequest) -> (r: Result<AuthResponse, ApiError>)
    requires
        old(state)@.wf(),
    ensures
        final(state)@.wf(),
        signed_up(
            old(state)@,
            payload.email@,
            payload.username@,
            payload.password@,
            r,
            final(state)@,
        ),
{
    match check_signup(state, &payload) {
        Ok(_) => {},
        Err(e) => {
            return Err(e);
        },
    }
    let pending = match prepare_signup(payload) {
        Ok(pending) => pending,
        Err(e) => {
            return Err(e);
        },
    };
    complete_signup(state, pending)
}

/// What [`finish_login_at`] returns for a user, the password that was
/// presented, the signing secret and a time.
pub open spec fn login_finished(
    user: UserView,
    password: Seq<char>,
    secret: Seq<char>,
    now: i64,
    r: Result<AuthResponse, ApiError>,
) -> bool {
    match password_matches(password, user.hashed_password) {
        None => r matches Err(ApiError::InternalError(msg)) && labelled(
            msg@,
            "Password verification failed: "@,
        ),
        Some(false) => r matches Err(ApiError::InvalidCredentials),
        Some(true) => match r {
            Ok(resp) => created_token(user.id, user.email, secret, now, Ok(resp.token))
                && resp.user@ == shown(user),
            Err(e) => created_token(user.id, user.email, secret, now, Err(e)),
        },
    }
}

/// What [`login_at`] returns.
pub open spec fn logged_in(
    s: StateView,
    email: Seq<char>,
    password: Seq<char>,
    now: i64,
    r: Result<AuthResponse, ApiError>,
) -> bool {
    if !email_format_ok(email) {
        r matches Err(ApiError::ValidationError(msg)) && msg@ == "email: Validation error: email"@
    } else {
        match s.user_by_email(email) {
            None => r matches Err(ApiError::InvalidCredentials),
            Some(user) => login_finished(user, password, s.jwt_secret, now, r),
        }
    }
}

/// A login whose user has been found: the user as stored, the password
/// that was presented, and the secret that signs the token.
pub struct LoginAttempt {
    pub user: User,
    pub password: String,
    pub jwt_secret: String,
}

/// What [`find_login`] answers.
pub open spec fn login_found(
    s: StateView,
    email: Seq<char>,
    password: Seq<char>,
    r: Result<LoginAttempt, ApiError>,
) -> bool {
    if !email_format_ok(email) {
        r matches Err(ApiError::ValidationError(msg)) && msg@ == "email: Validation error: email"@
    } else {
        match s.user_by_email(email) {
            None => r matches Err(ApiError::InvalidCredentials),
            Some(user) => r matches Ok(attempt) && attempt.user@ == user && attempt.password@
                == password && attempt.jwt_secret@ == s.jwt_secret,
        }
    }
}

/// The first step of a login, which only reads the store: checks the
/// email's form and finds the user that holds it. An unknown email is
/// refused with `InvalidCredentials`.
pub fn find_login(state: &AppState, payload: LoginRequest) -> (r: Result<LoginAttempt, ApiError>)
    ensures
        login_found(state@, payload.email@, payload.password@, r),
{
    match payload.validate() {
        Ok(_) => {},
        Err(e) => {
            return Err(e);
        },
    }
    let user_id = match state.lookup(payload.email.as_str()) {
        Some(id) => id,
        None => {
            return Err(ApiError::InvalidCredentials);
        },
    };
    let user = match state.get_user(user_id) {
        Some(user) => user,
        None => {
            return Err(ApiError::InvalidCredentials);
        },
    };
    Ok(
        LoginAttempt {
            user,
            password: payload.password,
            jwt_secret: String::from_str(state.jwt_secret()),
        },
    )
}

/// The second step of a login, which needs no store, at a given time:
/// checks the password against the stored digest and issues a token. A
/// password that does not verify is refused with `InvalidCredentials`.
pub fn finish_login_at(attempt: LoginAttempt, now: i64) -> (r: Result<AuthResponse, ApiError>)
    ensures
        login_finished(attempt.user@, attempt.password@, attempt.jwt_secret@, now, r),
{
    let user = attempt.user;
    let valid = match verify(attempt.password.as_str(), user.hashed_password.as_str()) {
        Ok(valid) => valid,
        Err(e) => {
            return Err(e);
        },
    };
    if !valid {
        return Err(ApiError::InvalidCredentials);
    }
    let token = match create_token_at(
        &user.id,
        user.email.as_str(),
        attempt.jwt_secret.as_str(),
        now,
    ) {
        Ok(token) => token,
        Err(e) => {
            return Err(e);
        },
    };
    Ok(AuthResponse { token, user: UserResponse::from(user) })
}

/// The second step of a login, now.
pub fn finish_login(attempt: LoginAttempt) -> (r: Result<AuthResponse, ApiError>)
    ensures
        exists|now: i64|
            login_finished(attempt.user@, attempt.password@, attempt.jwt_secret@, now, r),
{
    let now = unix_now();
    finish_login_at(attempt, now)
}

/// Logs a user in at a given time, in the two steps [`find_login`] and
/// [`finish_login_at`]: finds the user by email, checks the password
/// against the stored digest, and issues a token. An unknown email and a
/// wrong password give the same `InvalidCredentials`.
pub fn login_at(state: &AppState, payload: LoginRequest, now: i64) -> (r: Result<
    AuthResponse,
    ApiError,
>)
    ensures
        logged_in(state@, payload.email@, payload.password@, now, r),
{
    match find_login(state, payload) {
        Ok(attempt) => finish_login_at(attempt, now),
        Err(e) => Err(e),
    }
}

/// Logs a user in now.
pub fn login(state: &AppState, payload: LoginRequest) -> (r: Result<AuthResponse, ApiError>)
    ensures
        exists|now: i64| logged_in(state@, payload.email@, payload.password@, now, r),
{
    let now = unix_now();
    login_at(state, payload, now)
}

/// What [`get_current_user_at`] returns.
pub open spec fn current_user(
    s: StateView,
    header: Option<Seq<char>>,
    now: i64,
    r: Result<UserResponse, ApiError>,
) -> bool {
    match authenticated_user(header, s.jwt_secret, now) {
        None => r matches Err(ApiError::Unauthorized),
        Some(id) => if s.users.contains_key(id) {
            r matches Ok(resp) && resp@ == shown(s.users[id])
        } else {
            r matches Err(ApiError::NotFound)
        },
    }
}

/// The profile of the caller at a given time: the user that the token in
/// the header value stands for.
pub fn get_current_user_at(state: &AppState, header: Option<&str>, now: i64) -> (r: Result<
    UserResponse,
    ApiError,
>)
    ensures
        current_user(state@, header_view(header), now, r),
{
    let user_id = match authenticate_at(header, state.jwt_secret(), now) {
        Ok(id) => id,
        Err(e) => {
            return Err(e);
        },
    };
    match state.get_user(user_id) {
        Some(user) => Ok(UserResponse::from(user)),
        None => Err(ApiError::NotFound),
    }
}

/// The profile of the caller now.
pub fn get_current_user(state: &AppState, header: Option<&str>) -> (r: Result<
    UserResponse,
    ApiError,
>)
    ensures
        exists|now: i64| current_user(state@, header_view(header), now, r),
{
    let now = unix_now();
    get_current_user_at(state, header, now)
}

} // verus!
