use api::auth::{
    accept_claims, authenticate, authenticate_at, bearer_token, create_token, create_token_at,
    expiration_after, require_owner, subject_id, validate_token, validate_token_at, Claims,
    TOKEN_LIFETIME_SECS,
};
use api::errors::ApiError;

const SECRET: &str = "a-test-secret";
const ALICE: u128 = 0x0123_4567_89ab_cdef_0123_4567_89ab_cdef;
const BOB: u128 = 0xfedc_ba98_7654_3210_fedc_ba98_7654_3210;

fn bearer(token: &str) -> String {
    format!("Bearer {}", token)
}

#[test]
fn token_lifetime_is_a_day() {
    assert_eq!(TOKEN_LIFETIME_SECS, 24 * 60 * 60);
}

#[test]
fn expiration_is_a_day_after_issue() {
    assert_eq!(expiration_after(0), Some(86_400));
    assert_eq!(expiration_after(1_700_000_000), Some(1_700_086_400));
    assert_eq!(expiration_after(-86_400), Some(0));
}

#[test]
fn expiration_fails_out_of_range() {
    assert_eq!(expiration_after(i64::MAX), None);
    assert_eq!(expiration_after(i64::MAX - 86_399), None);
    assert_eq!(expiration_after(-86_401), None);
    assert_eq!(expiration_after(i64::MIN), None);
    assert_eq!(expiration_after(i64::MAX - 86_400), Some(i64::MAX as usize));
}

#[test]
fn issued_token_carries_the_claims() {
    let token = create_token_at(&ALICE, "a@x.com", SECRET, 1_000).unwrap();
    let claims = validate_token_at(Some(&bearer(&token)), SECRET, 1_000).unwrap();
    assert_eq!(claims.sub, "01234567-89ab-cdef-0123-456789abcdef");
    assert_eq!(claims.email, "a@x.com");
    assert_eq!(claims.exp, 87_400);
}

#[test]
fn subject_is_the_hyphenated_id() {
    let token = create_token_at(&1u128, "one@x.com", SECRET, 0).unwrap();
    let claims = validate_token_at(Some(&bearer(&token)), SECRET, 0).unwrap();
    assert_eq!(claims.sub, "00000000-0000-0000-0000-000000000001");
    assert_eq!(subject_id(&claims).unwrap(), 1u128);
}

#[test]
fn token_has_three_base64url_parts() {
    let token = create_token_at(&ALICE, "a@x.com", SECRET, 5).unwrap();
    assert_eq!(token.split('.').count(), 3);
    assert!(!token.is_empty());
    assert!(token
        .chars()
        .all(|c| c.is_ascii_alphanumeric() || c == '-' || c == '_' || c == '.'));
}

#[test]
fn signing_is_a_function_of_its_inputs() {
    let a = create_token_at(&ALICE, "a@x.com", SECRET, 77).unwrap();
    let b = create_token_at(&ALICE, "a@x.com", SECRET, 77).unwrap();
    let c = create_token_at(&ALICE, "a@x.com", SECRET, 78).unwrap();
    let d = create_token_at(&BOB, "a@x.com", SECRET, 77).unwrap();
    assert_eq!(a, b);
    assert_ne!(a, c);
    assert_ne!(a, d);
}

#[test]
fn token_round_trip_gives_the_same_user() {
    let token = create_token(&ALICE, "a@x.com", SECRET).unwrap();
    assert_eq!(authenticate(Some(&bearer(&token)), SECRET).unwrap(), ALICE);
    let claims = validate_token(Some(&bearer(&token)), SECRET).unwrap();
    assert_eq!(claims.email, "a@x.com");
}

#[test]
fn token_for_one_user_is_not_another() {
    let for_alice = create_token_at(&ALICE, "a@x.com", SECRET, 10).unwrap();
    let for_bob = create_token_at(&BOB, "b@x.com", SECRET, 10).unwrap();
    assert_eq!(authenticate_at(Some(&bearer(&for_alice)), SECRET, 10).unwrap(), ALICE);
    assert_eq!(authenticate_at(Some(&bearer(&for_bob)), SECRET, 10).unwrap(), BOB);
    assert_ne!(for_alice, for_bob);
}

#[test]
fn tampered_token_is_refused() {
    let token = create_token_at(&ALICE, "a@x.com", SECRET, 10).unwrap();
    let first_dot = token.find('.').unwrap();
    let mut chars: Vec<char> = token.chars().collect();
    for at in [0, first_dot + 3, chars.len() - 10] {
        let saved = chars[at];
        chars[at] = if saved == 'A' { 'B' } else { 'A' };
        let forged: String = chars.iter().collect();
        assert!(matches!(
            validate_token_at(Some(&bearer(&forged)), SECRET, 10),
            Err(ApiError::Unauthorized)
        ));
        chars[at] = saved;
    }
}

#[test]
fn token_under_another_secret_is_refused() {
    let token = create_token_at(&ALICE, "a@x.com", SECRET, 10).unwrap();
    assert!(matches!(
        validate_token_at(Some(&bearer(&token)), "another-secret", 10),
        Err(ApiError::Unauthorized)
    ));
}

#[test]
fn token_is_valid_up_to_its_expiry() {
    let issued = 1_000_000;
    let token = create_token_at(&ALICE, "a@x.com", SECRET, issued).unwrap();
    let header = bearer(&token);
    assert!(validate_token_at(Some(&header), SECRET, issued).is_ok());
    assert!(validate_token_at(Some(&header), SECRET, issued + 86_399).is_ok());
    assert!(validate_token_at(Some(&header), SECRET, issued + 86_400).is_ok());
    assert!(validate_token_at(Some(&header), SECRET, -5).is_ok());
}

#[test]
fn expired_token_is_refused() {
    let issued = 1_000_000;
    let token = create_token_at(&ALICE, "a@x.com", SECRET, issued).unwrap();
    let header = bearer(&token);
    assert!(matches!(
        validate_token_at(Some(&header), SECRET, issued + 86_401),
        Err(ApiError::Unauthorized)
    ));
    assert!(matches!(
        authenticate_at(Some(&header), SECRET, issued + 200_000),
        Err(ApiError::Unauthorized)
    ));
}

#[test]
fn token_issued_long_ago_is_refused_now() {
    let token = create_token_at(&ALICE, "a@x.com", SECRET, 1_000).unwrap();
    assert!(matches!(
        validate_token(Some(&bearer(&token)), SECRET),
        Err(ApiError::Unauthorized)
    ));
}

#[test]
fn token_creation_fails_without_an_expiry() {
    match create_token_at(&ALICE, "a@x.com", SECRET, i64::MAX) {
        Err(ApiError::InternalError(msg)) => assert_eq!(msg, "Failed to calculate expiration"),
        other => panic!("unexpected: {:?}", other),
    }
}

#[test]
fn missing_header_is_unauthorized() {
    assert!(matches!(validate_token(None, SECRET), Err(ApiError::Unauthorized)));
    assert!(matches!(authenticate(None, SECRET), Err(ApiError::Unauthorized)));
}

#[test]
fn bearer_token_takes_what_follows_the_prefix() {
    assert_eq!(bearer_token("Bearer abc.def.ghi"), Some("abc.def.ghi"));
    assert_eq!(bearer_token("Bearer x"), Some("x"));
    assert_eq!(bearer_token("Bearer a b"), Some("a b"));
    assert_eq!(bearer_token("Bearer \u{e9}t\u{e9}"), Some("\u{e9}t\u{e9}"));
}

#[test]
fn bearer_token_refuses_other_shapes() {
    assert_eq!(bearer_token(""), None);
    assert_eq!(bearer_token("Bearer"), None);
    assert_eq!(bearer_token("Bearer "), None);
    assert_eq!(bearer_token("bearer abc"), None);
    assert_eq!(bearer_token("BEARER abc"), None);
    assert_eq!(bearer_token("Basic abc"), None);
    assert_eq!(bearer_token(" Bearer abc"), None);
    assert_eq!(bearer_token("Bearerabc"), None);
    assert_eq!(bearer_token("abc"), None);
}

#[test]
fn bearer_token_refuses_surrounding_whitespace() {
    assert_eq!(bearer_token("Bearer  abc"), None);
    assert_eq!(bearer_token("Bearer abc "), None);
    assert_eq!(bearer_token("Bearer \tabc"), None);
    assert_eq!(bearer_token("Bearer abc\n"), None);
    assert_eq!(bearer_token("Bearer abc\r"), None);
    assert_eq!(bearer_token("Bearer  "), None);
}

#[test]
fn malformed_header_is_unauthorized() {
    let token = create_token_at(&ALICE, "a@x.com", SECRET, 10).unwrap();
    for header in [
        token.clone(),
        format!("bearer {}", token),
        format!("Bearer  {}", token),
        format!("Bearer {} ", token),
        format!("Token {}", token),
        "Bearer not-a-token".to_string(),
        "Bearer a.b.c".to_string(),
    ] {
        assert!(matches!(
            validate_token_at(Some(&header), SECRET, 10),
            Err(ApiError::Unauthorized)
        ));
    }
}

#[test]
fn accept_claims_checks_the_expiry() {
    let claims = |exp: usize| Claims { sub: "s".to_string(), email: "e".to_string(), exp };
    let kept = accept_claims(Some(claims(100)), 100).unwrap();
    assert_eq!((kept.sub.as_str(), kept.email.as_str(), kept.exp), ("s", "e", 100));
    assert!(accept_claims(Some(claims(100)), 99).is_ok());
    assert!(accept_claims(Some(claims(0)), -1).is_ok());
    assert!(matches!(accept_claims(Some(claims(100)), 101), Err(ApiError::Unauthorized)));
    assert!(matches!(accept_claims(Some(claims(0)), 1), Err(ApiError::Unauthorized)));
    assert!(matches!(accept_claims(None, 0), Err(ApiError::Unauthorized)));
}

#[test]
fn subject_must_be_an_id() {
    let claims = |sub: &str| Claims { sub: sub.to_string(), email: String::new(), exp: 0 };
    assert_eq!(
        subject_id(&claims("01234567-89ab-cdef-0123-456789abcdef")).unwrap(),
        ALICE
    );
    assert_eq!(subject_id(&claims("0123456789abcdef0123456789abcdef")).unwrap(), ALICE);
    assert!(matches!(subject_id(&claims("alice")), Err(ApiError::Unauthorized)));
    assert!(matches!(subject_id(&claims("")), Err(ApiError::Unauthorized)));
}

#[test]
fn only_the_owner_is_let_through() {
    assert!(require_owner(ALICE, ALICE).is_ok());
    assert!(matches!(require_owner(ALICE, BOB), Err(ApiError::Unauthorized)));
    assert!(matches!(require_owner(BOB, ALICE), Err(ApiError::Unauthorized)));
}
