//! The session token service: issues a signed token that names a user and
//! expires a day later, and reads the identity back from an `Authorization`
//! header value.

use crate::clock::unix_now;
use crate::errors::ApiError;
use crate::ids::{id_text, parse_id, uuid_parsed, uuid_text};
use crate::password::labelled;
use jsonwebtoken::errors::Error;
use vstd::prelude::*;
use vstd::string::*;

verus! {

/// What a token carries: the user's id as text, the email, and the second
/// (since the Unix epoch) at which the token expires.
#[derive(Debug)]
pub struct Claims {
    pub sub: String,
    pub email: String,
    pub exp: usize,
}

/// What a [`Claims`] holds, as mathematical values.
pub struct ClaimsView {
    pub sub: Seq<char>,
    pub email: Seq<char>,
    pub exp: usize,
}

impl View for Claims {
    type V = ClaimsView;

    open spec fn view(&self) -> ClaimsView {
        ClaimsView { sub: self.sub@, email: self.email@, exp: self.exp }
    }
}

/// How long a token stays valid, in seconds.
pub const TOKEN_LIFETIME_SECS: i64 = 86_400;

/// `jsonwebtoken::errors::Error`, taken as an opaque type.
#[verifier::external_type_specification]
#[verifier::external_body]
pub struct ExTokenError(Error);

/// The token that `jsonwebtoken::encode` makes of these claims with the
/// default header (HS256) and this secret, `None` where it fails.
pub uninterp spec fn signed_token(
    sub: Seq<char>,
    email: Seq<char>,
    exp: usize,
    secret: Seq<char>,
) -> Option<Seq<char>>;

/// The claims that `jsonwebtoken::decode` reads from a token whose
/// signature it has checked against this secret, expiry left aside; `None`
/// where it rejects the token or the claims lack a field.
pub uninterp spec fn token_claims(token: Seq<char>, secret: Seq<char>) -> Option<ClaimsView>;

/// A character of the compact token form: base64url, or the dot between
/// the parts.
pub open spec fn token_char(c: char) -> bool {
    ('a' <= c && c <= 'z') || ('A' <= c && c <= 'Z') || ('0' <= c && c <= '9') || c == '-' || c
        == '_' || c == '.'
}

/// Whether a text has the shape of a compact token: not empty, and made of
/// token characters only.
pub open spec fn is_compact(token: Seq<char>) -> bool {
    token.len() > 0 && forall|i: int| 0 <= i < token.len() ==> token_char(#[trigger] token[i])
}

/// `jsonwebtoken::encode` with the default header and an HMAC key made of the
/// secret. The claims go in as a JSON object with the members `sub`, `email`
/// and `exp`. The contract names the token, and claims of it what the crate
/// shows: it is three base64url parts joined by dots, and decoding it with
/// the same secret gives the claims back.
#[verifier::external_body]
fn sign_claims(claims: &Claims, secret: &str) -> (r: Result<String, Error>)
    ensures
        r is Ok <==> signed_token(claims@.sub, claims@.email, claims@.exp, secret@) is Some,
        r matches Ok(token) ==> signed_token(claims@.sub, claims@.email, claims@.exp, secret@)
            == Some(token@),
        r matches Ok(token) ==> token_claims(token@, secret@) == Some(claims@),
        r matches Ok(token) ==> is_compact(token@),
{
    let mut body = serde_json::Map::new();
    body.insert("sub".to_string(), serde_json::Value::from(claims.sub.as_str()));
    body.insert("email".to_string(), serde_json::Value::from(claims.email.as_str()));
    body.insert("exp".to_string(), serde_json::Value::from(claims.exp));
    let key = jsonwebtoken::EncodingKey::from_secret(secret.as_bytes());
    jsonwebtoken::encode(&jsonwebtoken::Header::default(), &body, &key)
}

/// `jsonwebtoken::decode` with the default validation (HS256, signature
/// checked) but for the expiry check, which is switched off: the result
/// then depends on the token and the secret alone. The claims come back as
/// a JSON object, of which `sub` and `email` must be strings and `exp` an
/// unsigned integer.
#[verifier::external_body]
fn read_claims(token: &str, secret: &str) -> (r: Option<Claims>)
    ensures
        r matches Some(claims) ==> token_claims(token@, secret@) == Some(claims@),
        r is None ==> token_claims(token@, secret@) is None,
{
    let mut rules = jsonwebtoken::Validation::default();
    rules.validate_exp = false;
    let key = jsonwebtoken::DecodingKey::from_secret(secret.as_bytes());
    let data = jsonwebtoken::decode::<serde_json::Value>(token, &key, &rules).ok()?;
    let sub = data.claims.get("sub")?.as_str()?.to_string();
    let email = data.claims.get("email")?.as_str()?.to_string();
    let exp = usize::try_from(data.claims.get("exp")?.as_u64()?).ok()?;
    Some(Claims { sub, email, exp })
}

/// The text of a token error, by its `Display`.
#[verifier::external_body]
fn token_error_text(e: &Error) -> String {
    e.to_string()
}

/// When a token issued at `now` expires: a day later, where that second
/// is not negative and fits the claim.
pub open spec fn expiration_of(now: i64) -> Option<usize> {
    let at = now + TOKEN_LIFETIME_SECS;
    if 0 <= at && at <= i64::MAX && at <= usize::MAX {
        Some(at as usize)
    } else {
        None
    }
}

/// Computes the expiry of a token issued at `now`.
pub fn expiration_after(now: i64) -> (r: Option<usize>)
    ensures
        r == expiration_of(now),
{
    match now.checked_add(TOKEN_LIFETIME_SECS) {
        Some(at) => {
            if at >= 0 && at as u64 <= usize::MAX as u64 {
                Some(at as usize)
            } else {
                None
            }
        },
        None => None,
    }
}

/// Whether a token stands for a user: it is a compact token whose claims,
/// under this secret, are the user's id as text, the email and the expiry,
/// and the id is read back from that text.
pub open spec fn issued_for(
    token: Seq<char>,
    secret: Seq<char>,
    user_id: u128,
    email: Seq<char>,
    exp: usize,
) -> bool {
    &&& is_compact(token)
    &&& token_claims(token, secret) == Some(ClaimsView { sub: uuid_text(user_id), email, exp })
    &&& uuid_parsed(uuid_text(user_id)) == Some(user_id)
}

/// What [`create_token_at`] returns for a user, a secret and an issue time.
pub open spec fn created_token(
    user_id: u128,
    email: Seq<char>,
    secret: Seq<char>,
    now: i64,
    r: Result<String, ApiError>,
) -> bool {
    match expiration_of(now) {
        None => r matches Err(ApiError::InternalError(msg)) && msg@
            == "Failed to calculate expiration"@,
        Some(exp) => match signed_token(uuid_text(user_id), email, exp, secret) {
            Some(token) => r matches Ok(t) && t@ == token && issued_for(
                token,
                secret,
                user_id,
                email,
                exp,
            ),
            None => r matches Err(ApiError::InternalError(msg)) && labelled(
                msg@,
                "Token Creation failed: "@,
            ),
        },
    }
}

/// Issues a token at a given time: signed with the secret, naming the user
/// and the email, expiring a day after `now`. Fails with an internal error
/// where the expiry cannot be computed or the signing fails.
pub fn create_token_at(user_id: &u128, email: &str, secret: &str, now: i64) -> (r: Result<
    String,
    ApiError,
>)
    ensures
        created_token(*user_id, email@, secret@, now, r),
{
    let exp = match expiration_after(now) {
        Some(exp) => exp,
        None => {
            return Err(
                ApiError::InternalError(String::from_str("Failed to calculate expiration")),
            );
        },
    };
    let claims = Claims { sub: id_text(*user_id), email: String::from_str(email), exp };
    match sign_claims(&claims, secret) {
        Ok(token) => Ok(token),
        Err(e) => {
            let label = String::from_str("Token Creation failed: ");
            let detail = token_error_text(&e);
            let msg = label.concat(detail.as_str());
            assert(msg@.subrange(0, label@.len() as int) =~= label@);
            Err(ApiError::InternalError(msg))
        },
    }
}

/// Issues a token now. Whatever the time is, a token that comes back
/// stands for the user with an expiry a day after some issue time.
pub fn create_token(user_id: &u128, email: &str, secret: &str) -> (r: Result<String, ApiError>)
    ensures
        exists|now: i64| created_token(*user_id, email@, secret@, now, r),
{
    let now = unix_now();
    create_token_at(user_id, email, secret, now)
}

/// The prefix of a bearer credential: the word `Bearer` and one space.
pub open spec fn bearer_prefix() -> Seq<char> {
    seq!['B', 'e', 'a', 'r', 'e', 'r', ' ']
}

/// Whether a character is white space.
pub open spec fn is_space(c: char) -> bool {
    c == ' ' || c == '\t' || c == '\n' || c == '\r' || c == '\x0b' || c == '\x0c'
}

/// The token in an `Authorization` header value: what follows the prefix,
/// where the value starts with the prefix and the rest is not empty and
/// neither starts nor ends with white space.
pub open spec fn bearer_token_of(header: Seq<char>) -> Option<Seq<char>> {
    if header.len() > 7 && header.subrange(0, 7) == bearer_prefix() && !is_space(header[7])
        && !is_space(header.last()) {
        Some(header.subrange(7, header.len() as int))
    } else {
        None
    }
}

/// The claims of the token in a header value, expiry left aside.
pub open spec fn token_identity(header: Option<Seq<char>>, secret: Seq<char>) -> Option<
    ClaimsView,
> {
    match header {
        None => None,
        Some(value) => match bearer_token_of(value) {
            None => None,
            Some(token) => token_claims(token, secret),
        },
    }
}

/// Whether a token with this expiry is still valid at `now`.
pub open spec fn unexpired(exp: usize, now: i64) -> bool {
    now <= exp
}

/// The claims a header value authenticates as at `now`: those of its
/// token, where the token has not expired.
pub open spec fn authenticated(header: Option<Seq<char>>, secret: Seq<char>, now: i64) -> Option<
    ClaimsView,
> {
    match token_identity(header, secret) {
        Some(claims) if unexpired(claims.exp, now) => Some(claims),
        _ => None,
    }
}

/// The user a header value authenticates as at `now`: the id that the
/// subject of its claims denotes.
pub open spec fn authenticated_user(header: Option<Seq<char>>, secret: Seq<char>, now: i64)
    -> Option<u128> {
    match authenticated(header, secret, now) {
        Some(claims) => uuid_parsed(claims.sub),
        None => None,
    }
}

fn space(c: char) -> (r: bool)
    ensures
        r == is_space(c),
{
    c == ' ' || c == '\t' || c == '\n' || c == '\r' || c == '\x0b' || c == '\x0c'
}

/// Takes the token out of an `Authorization` header value. The value is
/// not trimmed: anything but the exact prefix followed by a token without
/// surrounding white space is refused.
pub fn bearer_token(header: &str) -> (r: Option<&str>)
    ensures
        match r {
            Some(token) => bearer_token_of(header@) == Some(token@),
            None => bearer_token_of(header@) is None,
        },
{
    let n = header.unicode_len();
    if n <= 7 {
        return None;
    }
    if header.get_char(0) != 'B' || header.get_char(1) != 'e' || header.get_char(2) != 'a'
        || header.get_char(3) != 'r' || header.get_char(4) != 'e' || header.get_char(5) != 'r'
        || header.get_char(6) != ' ' {
        assert(header@.subrange(0, 7) != bearer_prefix()) by {
            let head = header@.subrange(0, 7);
            assert(forall|i: int| 0 <= i < 7 ==> head[i] == header@[i]);
            assert(bearer_prefix()[0] == 'B' && bearer_prefix()[1] == 'e' && bearer_prefix()[2]
                == 'a' && bearer_prefix()[3] == 'r' && bearer_prefix()[4] == 'e'
                && bearer_prefix()[5] == 'r' && bearer_prefix()[6] == ' ');
        }
        return None;
    }
    assert(header@.subrange(0, 7) =~= bearer_prefix());
    if space(header.get_char(7)) || space(header.get_char(n - 1)) {
        return None;
    }
    Some(header.substring_char(7, n))
}

/// Decides on decoded claims: they stand where the token has not expired
/// at `now`; a token that could not be decoded, or has expired, is
/// refused, without saying which.
pub fn accept_claims(decoded: Option<Claims>, now: i64) -> (r: Result<Claims, ApiError>)
    ensures
        match decoded {
            Some(claims) if unexpired(claims.exp, now) => r == Ok::<Claims, ApiError>(claims),
            _ => r == Err::<Claims, ApiError>(ApiError::Unauthorized),
        },
{
    match decoded {
        Some(claims) => {
            if now < 0 || now as u64 <= claims.exp as u64 {
                Ok(claims)
            } else {
                Err(ApiError::Unauthorized)
            }
        },
        None => Err(ApiError::Unauthorized),
    }
}

/// What [`validate_token_at`] returns.
pub open spec fn validated(
    header: Option<Seq<char>>,
    secret: Seq<char>,
    now: i64,
    r: Result<Claims, ApiError>,
) -> bool {
    match authenticated(header, secret, now) {
        Some(claims) => r matches Ok(c) && c@ == claims,
        None => r == Err::<Claims, ApiError>(ApiError::Unauthorized),
    }
}

/// Authenticates an `Authorization` header value at a given time. A
/// missing or malformed value, a token that the secret does not verify and
/// an expired token all give the same `Unauthorized`.
pub fn validate_token_at(header: Option<&str>, secret: &str, now: i64) -> (r: Result<
    Claims,
    ApiError,
>)
    ensures
        validated(header_view(header), secret@, now, r),
{
    let value = match header {
        Some(value) => value,
        None => {
            return Err(ApiError::Unauthorized);
        },
    };
    let token = match bearer_token(value) {
        Some(token) => token,
        None => {
            return Err(ApiError::Unauthorized);
        },
    };
    accept_claims(read_claims(token, secret), now)
}

/// The view of an optional header value.
pub open spec fn header_view(header: Option<&str>) -> Option<Seq<char>> {
    match header {
        Some(value) => Some(value@),
        None => None,
    }
}

/// Authenticates an `Authorization` header value now. Whatever the time
/// is, the outcome is that of [`validate_token_at`] at some time.
pub fn validate_token(header: Option<&str>, secret: &str) -> (r: Result<Claims, ApiError>)
    ensures
        exists|now: i64| validated(header_view(header), secret@, now, r),
{
    let now = unix_now();
    validate_token_at(header, secret, now)
}

/// Reads the user id from the subject of validated claims; a subject that
/// is no id is refused.
pub fn subject_id(claims: &Claims) -> (r: Result<u128, ApiError>)
    ensures
        match uuid_parsed(claims.sub@) {
            Some(id) => r == Ok::<u128, ApiError>(id),
            None => r == Err::<u128, ApiError>(ApiError::Unauthorized),
        },
{
    match parse_id(claims.sub.as_str()) {
        Some(id) => Ok(id),
        None => Err(ApiError::Unauthorized),
    }
}

/// What [`authenticate_at`] returns.
pub open spec fn identified(
    header: Option<Seq<char>>,
    secret: Seq<char>,
    now: i64,
    r: Result<u128, ApiError>,
) -> bool {
    match authenticated_user(header, secret, now) {
        Some(id) => r == Ok::<u128, ApiError>(id),
        None => r == Err::<u128, ApiError>(ApiError::Unauthorized),
    }
}

/// Derives the caller's user id from an `Authorization` header value at a
/// given time: the id in the subject of a token that validates.
pub fn authenticate_at(header: Option<&str>, secret: &str, now: i64) -> (r: Result<u128, ApiError>)
    ensures
        identified(header_view(header), secret@, now, r),
{
    match validate_token_at(header, secret, now) {
        Ok(claims) => subject_id(&claims),
        Err(e) => Err(e),
    }
}

/// Derives the caller's user id from an `Authorization` header value now.
pub fn authenticate(header: Option<&str>, secret: &str) -> (r: Result<u128, ApiError>)
    ensures
        exists|now: i64| identified(header_view(header), secret@, now, r),
{
    let now = unix_now();
    authenticate_at(header, secret, now)
}

/// The ownership rule: only the user that a post belongs to may change it.
/// Anyone else is refused as unauthorized.
pub fn require_owner(owner_id: u128, user_id: u128) -> (r: Result<(), ApiError>)
    ensures
        owner_id == user_id ==> r == Ok::<(), ApiError>(()),
        owner_id != user_id ==> r == Err::<(), ApiError>(ApiError::Unauthorized),
{
    if owner_id == user_id {
        Ok(())
    } else {
        Err(ApiError::Unauthorized)
    }
}

} // verus!
