use api::errors::ApiError;
use api::password::{hash, verify};

const DIGEST_OF_PASSWORD: &str = "$2a$04$UuTkLRZZ6QofpDOlMz32MuuxEHA43WOemOYHPz6.SjsVsyO1tDU96";

#[test]
fn digest_verifies_against_its_password() {
    let digest = hash("password123").unwrap();
    assert_ne!(digest, "password123");
    assert_eq!(digest.len(), 60);
    assert!(verify("password123", &digest).unwrap());
}

#[test]
fn two_digests_of_one_password_differ() {
    let a = hash("password123").unwrap();
    let b = hash("password123").unwrap();
    assert_ne!(a, b);
}

#[test]
fn known_digest_verifies() {
    assert!(verify("password", DIGEST_OF_PASSWORD).unwrap());
}

#[test]
fn wrong_password_does_not_verify() {
    assert!(!verify("Password", DIGEST_OF_PASSWORD).unwrap());
    assert!(!verify("", DIGEST_OF_PASSWORD).unwrap());
    assert!(!verify("password ", DIGEST_OF_PASSWORD).unwrap());
}

#[test]
fn malformed_digest_is_an_internal_error() {
    for digest in ["", "not a digest", "$2a$04$short", "password"] {
        match verify("password", digest) {
            Err(ApiError::InternalError(msg)) => {
                assert!(msg.starts_with("Password verification failed: "));
                assert!(msg.len() > "Password verification failed: ".len());
            }
            other => panic!("unexpected: {:?}", other),
        }
    }
}
