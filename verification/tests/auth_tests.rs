use admin_panel::auth::{check_credentials, Claims, LoginData, TOKEN_TTL_SECONDS};
use admin_panel::error::LoginError;

fn login(u: &str, p: &str) -> LoginData {
    LoginData { username: String::from(u), password: String::from(p) }
}

#[test]
fn username_comparison_ignores_case() {
    let expected_u = String::from("admin");
    let expected_p = String::from("s3cret");
    assert!(check_credentials(&login("ADMIN", "s3cret"), &expected_u, &expected_p).is_ok());
    assert!(check_credentials(&login("Admin", "s3cret"), &expected_u, &expected_p).is_ok());
    assert!(check_credentials(&login("admin", "s3cret"), &expected_u, &expected_p).is_ok());
}

#[test]
fn username_folding_goes_beyond_ascii() {
    let expected_u = String::from("ädmin");
    let expected_p = String::from("pw");
    assert!(check_credentials(&login("ÄDMIN", "pw"), &expected_u, &expected_p).is_ok());
}

#[test]
fn password_comparison_is_case_sensitive() {
    let expected_u = String::from("admin");
    let expected_p = String::from("s3cret");
    assert_eq!(
        check_credentials(&login("admin", "S3CRET"), &expected_u, &expected_p),
        Err(LoginError::WrongCredentials)
    );
}

#[test]
fn wrong_username_is_rejected() {
    let expected_u = String::from("admin");
    let expected_p = String::from("s3cret");
    assert_eq!(
        check_credentials(&login("root", "s3cret"), &expected_u, &expected_p),
        Err(LoginError::WrongCredentials)
    );
}

#[test]
fn empty_credentials_are_rejected() {
    let expected_u = String::from("admin");
    let expected_p = String::from("s3cret");
    assert_eq!(
        check_credentials(&login("", ""), &expected_u, &expected_p),
        Err(LoginError::WrongCredentials)
    );
    assert_eq!(
        check_credentials(&login("admin", ""), &expected_u, &expected_p),
        Err(LoginError::WrongCredentials)
    );
    assert_eq!(
        check_credentials(&login("", "s3cret"), &expected_u, &expected_p),
        Err(LoginError::WrongCredentials)
    );
}

#[test]
fn expired_token_is_invalid() {
    let now = 1_700_000_000i64;
    let expired = Claims { loged_in: true, exp: now - 1 };
    assert_eq!(expired.validate(now), Err(LoginError::InvalidToken));
    // An expiry exactly at the current second is no longer in the future.
    let boundary = Claims { loged_in: true, exp: now };
    assert_eq!(boundary.validate(now), Err(LoginError::InvalidToken));
    let live = Claims { loged_in: true, exp: now + 1 };
    assert!(live.validate(now).is_ok());
}

#[test]
fn fresh_claims_live_one_ttl() {
    let now = 1_700_000_000i64;
    let c = Claims::new(now);
    assert!(c.loged_in);
    assert_eq!(c.exp, now + TOKEN_TTL_SECONDS);
    assert_eq!(TOKEN_TTL_SECONDS, 600);
}

#[test]
fn login_error_messages_and_statuses() {
    assert_eq!(
        LoginError::WrongCredentials.message(),
        "Incorrect username and/or password"
    );
    assert_eq!(LoginError::WrongCredentials.status_code(), 401);
    assert_eq!(LoginError::InvalidToken.message(), "Invalid token");
    assert_eq!(LoginError::InvalidToken.status_code(), 401);
    assert_eq!(LoginError::TokenCreation.message(), "Couldn't create token");
    assert_eq!(LoginError::TokenCreation.status_code(), 500);
    assert_eq!(
        LoginError::ContextNotLoaded.message(),
        "Context wasn't loaded for some reason"
    );
    assert_eq!(LoginError::ContextNotLoaded.status_code(), 500);
}
