use rust_webserver::auth::{
    bearer_token, has_bearer, public_key_url, token_key_id, AuthError, AuthStep, AuthorizationService,
};

const TOKEN_WITH_KID: &str = "eyJhbGciOiJSUzI1NiIsInR5cCI6IkpXVCIsImtpZCI6ImtleS03In0.e30.c2ln";
const TOKEN_WITHOUT_KID: &str = "eyJhbGciOiJSUzI1NiIsInR5cCI6IkpXVCJ9.e30.c2ln";

#[test]
fn bearer_token_from_header() {
    assert!(has_bearer("Bearer abc.def"));
    assert!(!has_bearer("Basic abc"));
    assert_eq!(bearer_token("Bearer  abc.def "), "abc.def");
    assert_eq!(bearer_token("Bearer a Bearer b"), "a");
}

#[test]
fn key_id_of_token() {
    assert_eq!(token_key_id(TOKEN_WITH_KID), Ok(Some("key-7".to_string())));
    assert_eq!(token_key_id(TOKEN_WITHOUT_KID), Ok(None));
    assert_eq!(token_key_id("a.jwt.token"), Err(AuthError::MalformedToken));
    assert_eq!(token_key_id("no-dots"), Err(AuthError::MalformedToken));
}

#[test]
fn public_key_url_with_and_without_kid() {
    assert_eq!(public_key_url("https://keys", &Some("k1".to_string())), "https://keys/k1");
    assert_eq!(public_key_url("none", &None), "none/default string");
}

#[test]
fn middleware_blocks_requests_without_header() {
    match AuthorizationService::begin(None, "https://keys") {
        AuthStep::Deny(e) => {
            assert_eq!(e, AuthError::Blocked);
            assert_eq!(e.message(), "blocked!");
        }
        _ => panic!("expected a refusal"),
    }
}

#[test]
fn middleware_checks_the_fixed_token() {
    match AuthorizationService::begin(Some("Bearer real.token.here"), "https://keys") {
        AuthStep::Deny(e) => assert_eq!(e, AuthError::MalformedToken),
        _ => panic!("the fixed token has no readable header"),
    }
}

#[test]
fn middleware_final_decision() {
    assert!(AuthorizationService::finish(true).is_ok());
    match AuthorizationService::finish(false) {
        Err(e) => {
            assert_eq!(e, AuthError::InvalidToken);
            assert_eq!(e.message(), "invalid token!");
        }
        Ok(_) => panic!("expected a refusal"),
    }
}
