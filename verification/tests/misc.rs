use zero2prod::admin_password::validate_password_change;
use zero2prod::authentication::Credentials;
use zero2prod::authentication::AuthError;
use zero2prod::configuration::Env;
use zero2prod::idempotency_key::IdempotencyKey;
use zero2prod::login::login_error_from_auth;
use zero2prod::login::LoginError;
use zero2prod::newsletters::basic_auth;
use zero2prod::newsletters::PublishError;
use zero2prod::response::e303_see_other;
use zero2prod::response::health_check;
use zero2prod::response::healthcheck;
use zero2prod::utils::error_chain_fmt;
use zero2prod::utils::e400_bad_request;
use zero2prod::utils::e500_internal_server_error;

#[test]
fn env_round_trips_through_its_name() {
    assert_eq!(Env::Development.as_str(), "dev");
    assert_eq!(Env::Production.as_str(), "prd");
    assert_eq!(Env::try_from("dev").unwrap(), Env::Development);
    assert_eq!(Env::try_from("PRD").unwrap(), Env::Production);
    assert!(Env::try_from("staging").is_err());
}

#[test]
fn idempotency_key_shape_is_enforced() {
    assert_eq!(
        IdempotencyKey::try_from(String::new()).unwrap_err(),
        "The idempotency key cannot be empty"
    );
    assert_eq!(
        IdempotencyKey::try_from("k".repeat(51)).unwrap_err(),
        "The idempotency key must be shorter than 50 characters"
    );
    let key = IdempotencyKey::try_from("k".repeat(50)).unwrap();
    assert_eq!(key.as_str().len(), 50);
}

#[test]
fn generated_idempotency_keys_are_valid_uuids_in_length() {
    let key = IdempotencyKey::generate();
    assert_eq!(key.as_str().chars().count(), 36);
    assert!(IdempotencyKey::try_from(key.as_str().to_string()).is_ok());
}

#[test]
fn error_chain_fmt_renders_the_cause_chain() {
    let messages = vec![
        "boom".to_string(),
        "first cause".to_string(),
        "root cause".to_string(),
    ];
    assert_eq!(
        error_chain_fmt(&messages),
        "boom\n\nCaused by:\n\tfirst cause\nCaused by:\n\troot cause\n"
    );
    assert_eq!(error_chain_fmt(&vec!["alone".to_string()]), "alone\n\n");
}

#[test]
fn handler_errors_carry_status_and_message() {
    let e = e400_bad_request("bad key".to_string());
    assert_eq!(e.status_code(), 400);
    assert_eq!(e.message(), "bad key");
    let e = e500_internal_server_error("oops".to_string());
    assert_eq!(e.status_code(), 500);
    assert_eq!(e.message(), "oops");
}

#[test]
fn redirects_and_health_checks_have_the_expected_shape() {
    let r = e303_see_other("/login");
    assert_eq!(r.status, 303);
    assert_eq!(r.headers.len(), 1);
    assert_eq!(r.headers[0].name, "Location");
    assert_eq!(r.headers[0].value, b"/login".to_vec());
    assert!(r.body.is_empty());

    assert_eq!(health_check().status, 200);
    assert_eq!(healthcheck().status, 200);
}

#[test]
fn responses_match_only_when_byte_identical() {
    let a = e303_see_other("/admin/newsletters");
    let b = a.duplicate();
    assert!(a.matches(&b));
    let c = e303_see_other("/login");
    assert!(!a.matches(&c));
    let d = a.duplicate().set_body(b"x".to_vec());
    assert!(!a.matches(&d));
}

#[test]
fn password_change_rules_are_checked_in_order() {
    let ok = "a-long-enough-password".to_string();
    assert_eq!(validate_password_change(&ok, &ok), None);
    assert_eq!(
        validate_password_change(&ok, &"different-password-2".to_string()),
        Some("New passwords fields must match")
    );
    let short = "short".to_string();
    assert_eq!(
        validate_password_change(&short, &short),
        Some("The password must be at least 12 characters long")
    );
    let long = "x".repeat(135);
    assert_eq!(
        validate_password_change(&long, &long),
        Some("The password must contain a maximum of 128 characters")
    );
}

#[test]
fn basic_auth_extracts_credentials() {
    // "dXNlcjpwYXNz" is the standard encoding of "user:pass".
    let header = b"Basic dXNlcjpwYXNz".to_vec();
    let Credentials { username, password } = basic_auth(&header).unwrap();
    assert_eq!(username, "user");
    assert_eq!(password, "pass");
}

#[test]
fn basic_auth_splits_at_the_first_colon_only() {
    // "dTpwOnE=" encodes "u:p:q": the password keeps its colon.
    let header = b"Basic dTpwOnE=".to_vec();
    let c = basic_auth(&header).unwrap();
    assert_eq!(c.username, "u");
    assert_eq!(c.password, "p:q");
}

#[test]
fn basic_auth_rejects_malformed_headers() {
    assert_eq!(
        basic_auth(&b"Bearer xyz".to_vec()).unwrap_err(),
        "The authorization scheme was not 'Basic'"
    );
    assert_eq!(
        basic_auth(&b"Basic !!!".to_vec()).unwrap_err(),
        "Failed to decode the credential string"
    );
    // "//4=" decodes to bytes that are not valid UTF-8.
    assert_eq!(
        basic_auth(&b"Basic //4=".to_vec()).unwrap_err(),
        "The decoded credential string was not valid UTF-8"
    );
    // "bm9wYXNzd29yZA==" encodes "nopassword": no colon, no password.
    assert_eq!(
        basic_auth(&b"Basic bm9wYXNzd29yZA==".to_vec()).unwrap_err(),
        "A password must be provided in 'Basic' auth"
    );
}

#[test]
fn publish_error_responses_challenge_or_fail_opaquely() {
    let r = PublishError::AuthError("bad".to_string()).error_response();
    assert_eq!(r.status, 401);
    assert_eq!(r.headers.len(), 1);
    assert_eq!(r.headers[0].name, "WWW-Authenticate");
    assert_eq!(r.headers[0].value, b"Basic realm=\"newsletters\"".to_vec());

    let r = PublishError::UnexpectedError("boom".to_string()).error_response();
    assert_eq!(r.status, 500);
    assert!(r.headers.is_empty());
}

#[test]
fn login_errors_classify_authentication_failures() {
    let e = login_error_from_auth(AuthError::InvalidCredentials("nope".to_string()));
    assert_eq!(e.message(), "Authentication failed");
    assert!(matches!(e, LoginError::AuthError(_)));
    let e = login_error_from_auth(AuthError::UnexpectedError("db down".to_string()));
    assert_eq!(e.message(), "Something went wrong");
    assert!(matches!(e, LoginError::UnexpectedError(_)));
    assert_eq!(
        AuthError::InvalidCredentials("x".to_string()).message(),
        "Invalid credentials"
    );
}
