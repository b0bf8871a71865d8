//! Laws that relate the operations of the service to one another.

use crate::auth::{
    authenticated, authenticated_user, bearer_prefix, bearer_token_of, created_token,
    expiration_of, is_compact, issued_for, signed_token, token_char,
};
use crate::dto::requests::{email_format_ok, signup_valid};
use crate::dto::responses::AuthResponse;
use crate::errors::ApiError;
use crate::listing::{page_of, page_start};
use crate::models::Post;
use crate::password::password_matches;
use crate::routes::post::{deleted, fetched, NO_CONTENT};
use crate::ids::uuid_text;
use crate::routes::user::{logged_in, registered, signed_up};
use crate::states::StateView;
use vstd::prelude::*;

verus! {

/// The `Authorization` header value that presents a token.
pub open spec fn bearer(token: Seq<char>) -> Seq<char> {
    bearer_prefix() + token
}

/// A compact token, presented as a bearer credential, is taken out of the
/// header value unchanged.
pub proof fn law_bearer_round_trip(token: Seq<char>)
    requires
        is_compact(token),
    ensures
        bearer_token_of(bearer(token)) == Some(token),
{
    let header = bearer(token);
    assert(header.subrange(0, 7) =~= bearer_prefix());
    assert(header.subrange(7, header.len() as int) =~= token);
    assert(header[7] == token[0]);
    assert(header.last() == token[token.len() - 1]);
    assert(token_char(token[0]) && token_char(token[token.len() - 1]));
}

/// A token issued for a user authenticates as that user for as long as it
/// has not expired.
pub proof fn law_issued_token_authenticates(
    token: Seq<char>,
    secret: Seq<char>,
    user_id: u128,
    email: Seq<char>,
    exp: usize,
    now: i64,
)
    requires
        issued_for(token, secret, user_id, email, exp),
        now <= exp,
    ensures
        authenticated_user(Some(bearer(token)), secret, now) == Some(user_id),
        authenticated(Some(bearer(token)), secret, now) matches Some(claims) && claims.email
            == email,
{
    law_bearer_round_trip(token);
}

/// A token issued for one user never authenticates as another, at any
/// time.
pub proof fn law_token_names_one_user(
    token: Seq<char>,
    secret: Seq<char>,
    user_id: u128,
    email: Seq<char>,
    exp: usize,
    now: i64,
    other: u128,
)
    requires
        issued_for(token, secret, user_id, email, exp),
        authenticated_user(Some(bearer(token)), secret, now) == Some(other),
    ensures
        other == user_id,
{
    law_bearer_round_trip(token);
}

/// A token presented after its expiry is refused.
pub proof fn law_expired_token_refused(
    token: Seq<char>,
    secret: Seq<char>,
    user_id: u128,
    email: Seq<char>,
    exp: usize,
    now: i64,
)
    requires
        issued_for(token, secret, user_id, email, exp),
        now > exp,
    ensures
        authenticated(Some(bearer(token)), secret, now) is None,
        authenticated_user(Some(bearer(token)), secret, now) is None,
{
    law_bearer_round_trip(token);
}

/// A token is issued with a lifetime of 24 hours: it authenticates from
/// the second it is issued to the last second of the day after, and no
/// longer.
pub proof fn law_token_lives_a_day(
    user_id: u128,
    email: Seq<char>,
    secret: Seq<char>,
    issued_at: i64,
    token: String,
    now: i64,
)
    requires
        created_token(user_id, email, secret, issued_at, Ok(token)),
        issued_at <= now,
    ensures
        now <= issued_at + 86_400 ==> authenticated_user(Some(bearer(token@)), secret, now)
            == Some(user_id),
        now > issued_at + 86_400 ==> authenticated_user(Some(bearer(token@)), secret, now) is None,
{
    law_bearer_round_trip(token@);
}

/// The token that a signup returns authenticates, right away, as the user
/// that the signup created.
pub proof fn law_signup_round_trip(
    old: StateView,
    email: Seq<char>,
    username: Seq<char>,
    password: Seq<char>,
    resp: AuthResponse,
    new: StateView,
)
    requires
        signed_up(old, email, username, password, Ok(resp), new),
    ensures
        new.users.contains_key(resp.user.id),
        new.users[resp.user.id].email == email,
        authenticated_user(Some(bearer(resp.token@)), new.jwt_secret, resp.user.created_at)
            == Some(resp.user.id),
{
    law_bearer_round_trip(resp.token@);
}

/// Of two signups with one email, one after the other, the second does
/// not succeed: it leaves the store as it was, and where its fields are
/// valid it is refused with `UserAlreadyExists`.
pub proof fn law_second_signup_refused(
    s0: StateView,
    email: Seq<char>,
    username1: Seq<char>,
    password1: Seq<char>,
    resp1: AuthResponse,
    s1: StateView,
    username2: Seq<char>,
    password2: Seq<char>,
    r2: Result<AuthResponse, ApiError>,
    s2: StateView,
)
    requires
        signed_up(s0, email, username1, password1, Ok(resp1), s1),
        signed_up(s1, email, username2, password2, r2, s2),
    ensures
        r2 is Err,
        s2 == s1,
        signup_valid(email, username2, password2) ==> r2 matches Err(ApiError::UserAlreadyExists),
{
    assert(s1.email_index.contains_key(email));
}

/// A signup keeps every account that was there: no user and no email
/// entry is changed or removed.
pub proof fn law_signup_keeps_accounts(
    old: StateView,
    email: Seq<char>,
    username: Seq<char>,
    password: Seq<char>,
    r: Result<AuthResponse, ApiError>,
    new: StateView,
)
    requires
        signed_up(old, email, username, password, r, new),
    ensures
        forall|id: u128| #[trigger]
            old.users.contains_key(id) ==> new.users.contains_key(id) && new.users[id]
                == old.users[id],
        forall|e: Seq<char>| #[trigger]
            old.email_index.contains_key(e) ==> new.email_index.contains_key(e)
                && new.email_index[e] == old.email_index[e],
        new.posts == old.posts,
        new.jwt_secret == old.jwt_secret,
{
}

/// A login with a well-formed email succeeds only where a user holds the
/// email and the password verifies against the stored digest; it then
/// succeeds unless the token cannot be issued. With a password that does
/// not verify it fails with `InvalidCredentials` and nothing else.
pub proof fn law_login(
    s: StateView,
    email: Seq<char>,
    password: Seq<char>,
    now: i64,
    r: Result<AuthResponse, ApiError>,
)
    requires
        email_format_ok(email),
        logged_in(s, email, password, now, r),
    ensures
        r is Ok ==> (s.user_by_email(email) matches Some(user) && password_matches(
            password,
            user.hashed_password,
        ) == Some(true)),
        r matches Ok(resp) ==> (s.user_by_email(email) matches Some(user) && resp.user.id
            == user.id && created_token(user.id, user.email, s.jwt_secret, now, Ok(resp.token))),
        (s.user_by_email(email) matches Some(user) && password_matches(
            password,
            user.hashed_password,
        ) == Some(true)) ==> (r is Ok || r matches Err(ApiError::InternalError(_))),
        (s.user_by_email(email) matches Some(user) && password_matches(
            password,
            user.hashed_password,
        ) == Some(false)) ==> r matches Err(ApiError::InvalidCredentials),
        s.user_by_email(email) is None ==> r matches Err(ApiError::InvalidCredentials),
{
}

/// A login right after a signup, with the same email and password, finds
/// the user that the signup created.
pub proof fn law_login_after_signup(
    old: StateView,
    email: Seq<char>,
    username: Seq<char>,
    password: Seq<char>,
    resp: AuthResponse,
    new: StateView,
    now: i64,
    r: Result<AuthResponse, ApiError>,
)
    requires
        old.wf(),
        signed_up(old, email, username, password, Ok(resp), new),
        logged_in(new, email, password, now, r),
    ensures
        r matches Ok(again) ==> again.user.id == resp.user.id,
        r is Ok || r matches Err(ApiError::InternalError(_)),
{
    assert(new.email_index.contains_key(email));
    assert(new.email_index[email] == resp.user.id);
}

/// Page `page` of a listing of `all.len()` posts with `limit` on a page is
/// the slice from `(page - 1) * limit` to `page * limit`, cut at the end
/// of the listing.
pub proof fn law_page_is_slice(all: Seq<Post>, page: usize, limit: usize)
    requires
        page >= 1,
    ensures
        ({
            let n = all.len() as int;
            let from = if (page - 1) * limit < n {
                (page - 1) * limit
            } else {
                n
            };
            let to = if page * limit < n {
                page * limit
            } else {
                n
            };
            from <= to && page_of(all, page, limit) == all.subrange(from, to)
        }),
{
    let n = all.len() as int;
    let start = (page - 1) * limit;
    assert(page * limit == start + limit) by (nonlinear_arith)
        requires
            start == (page - 1) * limit,
    ;
    assert(start >= 0) by (nonlinear_arith)
        requires
            start == (page - 1) * limit,
            page >= 1,
            limit >= 0,
    ;
    if start >= n {
        assert(all.subrange(n, n) =~= Seq::<Post>::empty());
    }
}

/// A page that starts beyond the end of the listing is empty.
pub proof fn law_page_beyond_end_is_empty(all: Seq<Post>, page: usize, limit: usize)
    requires
        page_start(page, limit) >= all.len(),
    ensures
        page_of(all, page, limit) == Seq::<Post>::empty(),
{
}

/// A page never holds more than `limit` posts, and each of them is a post
/// of the listing, in the listing's order.
pub proof fn law_page_within_listing(all: Seq<Post>, page: usize, limit: usize)
    ensures
        page_of(all, page, limit).len() <= limit,
        page_of(all, page, limit).len() <= all.len(),
        forall|i: int|
            0 <= i < page_of(all, page, limit).len() ==> #[trigger] page_of(all, page, limit)[i]
                == all[page_start(page, limit) + i],
{
    let start = page_start(page, limit);
    assert(start >= 0) by (nonlinear_arith)
        requires
            start == page_start(page, limit),
    {
        if page >= 1 {
            assert((page - 1) * limit >= 0) by (nonlinear_arith)
                requires
                    page >= 1,
                    limit >= 0,
            ;
        }
    }
}

/// After its owner has deleted a post, fetching it gives `NotFound`, and
/// every other post is still there.
pub proof fn law_deleted_post_is_gone(
    old: StateView,
    header: Option<Seq<char>>,
    id: u128,
    now: i64,
    new: StateView,
    r2: Result<Post, ApiError>,
)
    requires
        deleted(old, header, id, now, Ok(NO_CONTENT), new),
        fetched(new, id, r2),
    ensures
        r2 matches Err(ApiError::NotFound),
        old.posts.contains_key(id),
        authenticated_user(header, old.jwt_secret, now) == Some(old.posts[id].user_id),
        forall|other: u128|
            other != id && #[trigger] old.posts.contains_key(other) ==> new.posts.contains_key(
                other,
            ) && new.posts[other] == old.posts[other],
{
}

/// Deleting a post as anyone but its owner fails and leaves the store as
/// it was; deleting under an id that holds no post gives `NotFound` to an
/// authenticated caller.
pub proof fn law_delete_refusals(
    old: StateView,
    header: Option<Seq<char>>,
    id: u128,
    now: i64,
    r: Result<u16, ApiError>,
    new: StateView,
)
    requires
        deleted(old, header, id, now, r, new),
    ensures
        (old.posts.contains_key(id) && authenticated_user(header, old.jwt_secret, now) != Some(
            old.posts[id].user_id,
        )) ==> (r matches Err(ApiError::Unauthorized) && new == old),
        (!old.posts.contains_key(id) && authenticated_user(header, old.jwt_secret, now) is Some)
            ==> (r matches Err(ApiError::NotFound) && new == old),
        r is Err ==> new == old,
{
}

/// Whether a token can be issued for a user at a time: the expiry can be
/// computed and the signing gives a token.
pub open spec fn token_can_be_issued(user_id: u128, email: Seq<char>, secret: Seq<char>, now: i64)
    -> bool {
    expiration_of(now) matches Some(exp) && signed_token(uuid_text(user_id), email, exp, secret)
        is Some
}

/// Storing a prepared account succeeds exactly where the email is free,
/// the id is not in use and a token can be issued for the account.
pub proof fn law_register_succeeds(
    old: StateView,
    email: Seq<char>,
    username: Seq<char>,
    hashed_password: Seq<char>,
    id: u128,
    now: i64,
    r: Result<AuthResponse, ApiError>,
    new: StateView,
)
    requires
        registered(old, email, username, hashed_password, id, now, r, new),
    ensures
        r is Ok <==> (!old.email_index.contains_key(email) && !old.users.contains_key(id)
            && token_can_be_issued(id, email, old.jwt_secret, now)),
{
}

/// A signup with valid fields and a free email either succeeds or fails
/// with an internal error, and a failure leaves the store as it was.
pub proof fn law_valid_signup_fails_only_internally(
    old: StateView,
    email: Seq<char>,
    username: Seq<char>,
    password: Seq<char>,
    r: Result<AuthResponse, ApiError>,
    new: StateView,
)
    requires
        signup_valid(email, username, password),
        !old.email_index.contains_key(email),
        signed_up(old, email, username, password, r, new),
    ensures
        r is Ok || (r matches Err(ApiError::InternalError(_)) && new == old),
{
}

/// A login with a well-formed email succeeds exactly where a user holds
/// the email, the password verifies against the stored digest and a token
/// can be issued.
pub proof fn law_login_succeeds(
    s: StateView,
    email: Seq<char>,
    password: Seq<char>,
    now: i64,
    r: Result<AuthResponse, ApiError>,
)
    requires
        email_format_ok(email),
        logged_in(s, email, password, now, r),
    ensures
        r is Ok <==> (s.user_by_email(email) matches Some(user) && password_matches(
            password,
            user.hashed_password,
        ) == Some(true) && token_can_be_issued(user.id, user.email, s.jwt_secret, now)),
{
}

/// The first pages of a listing, laid end to end.
pub open spec fn pages_up_to<T>(all: Seq<T>, pages: nat, limit: usize) -> Seq<T>
    decreases pages,
{
    if pages == 0 {
        Seq::empty()
    } else {
        pages_up_to(all, (pages - 1) as nat, limit) + page_of(all, pages as usize, limit)
    }
}

/// The first pages of a listing, laid end to end, are the listing's first
/// `pages * limit` items: no item is repeated and none is left out. Once
/// the pages reach the end of the listing, they are the whole listing.
pub proof fn law_pages_make_the_listing<T>(all: Seq<T>, pages: nat, limit: usize)
    requires
        limit >= 1,
        pages <= usize::MAX,
    ensures
        pages * limit <= all.len() ==> pages_up_to(all, pages, limit) == all.subrange(
            0,
            pages * limit,
        ),
        pages * limit >= all.len() ==> pages_up_to(all, pages, limit) == all,
    decreases pages,
{
    let n = all.len() as int;
    if pages == 0 {
        assert(pages * limit == 0) by (nonlinear_arith)
            requires
                pages == 0,
        ;
        assert(all.subrange(0, 0) =~= Seq::<T>::empty());
        if n == 0 {
            assert(all =~= Seq::<T>::empty());
        }
    } else {
        let before = (pages - 1) as nat;
        law_pages_make_the_listing(all, before, limit);
        let start = before * limit;
        assert(pages * limit == start + limit) by (nonlinear_arith)
            requires
                start == before * limit,
                before == pages - 1,
        ;
        assert(start >= 0) by (nonlinear_arith)
            requires
                start == before * limit,
                before >= 0,
                limit >= 0,
        ;
        let page = pages as usize;
        assert(page_start(page, limit) == start);
        let shown = pages_up_to(all, before, limit);
        let this = page_of(all, page, limit);
        if start >= n {
            assert(shown == all);
            assert(this =~= Seq::<T>::empty());
            assert(shown + this =~= all);
        } else {
            assert(shown == all.subrange(0, start));
            if start + limit <= n {
                assert(shown + this =~= all.subrange(0, start + limit));
                if start + limit == n {
                    assert(all.subrange(0, n) =~= all);
                }
            } else {
                assert(shown + this =~= all);
            }
        }
    }
}

/// Every page that lies wholly within the listing holds exactly `limit`
/// items.
pub proof fn law_inner_pages_are_full<T>(all: Seq<T>, page: usize, limit: usize)
    requires
        page >= 1,
        page * limit <= all.len(),
    ensures
        page_of(all, page, limit).len() == limit,
{
    let start = (page - 1) * limit;
    assert(page * limit == start + limit) by (nonlinear_arith)
        requires
            start == (page - 1) * limit,
    ;
    assert(start >= 0) by (nonlinear_arith)
        requires
            start == (page - 1) * limit,
            page >= 1,
            limit >= 0,
    ;
    if limit == 0 {
        if start < all.len() {
            assert(all.subrange(start, start).len() == 0);
        }
    }
}

} // verus!
