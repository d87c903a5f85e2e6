use argon2::password_hash::SaltString;
use argon2::{Argon2, PasswordHasher};
use zero2prod::authentication::{
    basic_authentication, validate_credentials, verify_password_hash, AuthError,
    AuthorizationHeader, Credentials, CredentialsError,
};
use zero2prod::routes::login::{login, reject_anonymous_users, LoginError, LoginOutcome};

fn text(value: &str) -> AuthorizationHeader {
    AuthorizationHeader::Text(value.to_string())
}

fn hash_of(password: &str) -> String {
    let salt = SaltString::from_b64("gZiV/M1gPc22ElAH/Jh1Hw").unwrap();
    Argon2::default().hash_password(password.as_bytes(), &salt).unwrap().to_string()
}

#[test]
fn basic_credentials_are_read() {
    // base64 of "user:pass"
    let credentials = basic_authentication(text("Basic dXNlcjpwYXNz")).unwrap();
    assert_eq!(credentials.username, "user");
    assert_eq!(credentials.password, "pass");
}

#[test]
fn the_password_is_all_that_follows_the_first_colon() {
    // base64 of "user:pa:ss"
    let credentials = basic_authentication(text("Basic dXNlcjpwYTpzcw==")).unwrap();
    assert_eq!(credentials.username, "user");
    assert_eq!(credentials.password, "pa:ss");
}

#[test]
fn user_name_and_password_may_be_empty() {
    // base64 of ":"
    let credentials = basic_authentication(text("Basic Og==")).unwrap();
    assert_eq!(credentials.username, "");
    assert_eq!(credentials.password, "");
}

#[test]
fn credentials_may_hold_any_characters() {
    // base64 of "ürsula:pässword"
    let credentials = basic_authentication(text("Basic w7xyc3VsYTpww6Rzc3dvcmQ=")).unwrap();
    assert_eq!(credentials.username, "ürsula");
    assert_eq!(credentials.password, "pässword");
}

#[test]
fn requests_missing_authorization_header_are_rejected() {
    assert_eq!(
        basic_authentication(AuthorizationHeader::Missing).unwrap_err(),
        CredentialsError::MissingHeader
    );
}

#[test]
fn a_header_that_is_no_text_is_rejected() {
    assert_eq!(
        basic_authentication(AuthorizationHeader::NotText).unwrap_err(),
        CredentialsError::HeaderNotText
    );
}

#[test]
fn another_scheme_is_rejected() {
    assert_eq!(basic_authentication(text("Bearer abc")).unwrap_err(), CredentialsError::NotBasic);
    assert_eq!(basic_authentication(text("Basic")).unwrap_err(), CredentialsError::NotBasic);
    assert_eq!(basic_authentication(text("basic dXNlcjpwYXNz")).unwrap_err(), CredentialsError::NotBasic);
    assert_eq!(basic_authentication(text("")).unwrap_err(), CredentialsError::NotBasic);
}

#[test]
fn credentials_that_are_not_base64_are_rejected() {
    assert_eq!(basic_authentication(text("Basic !!!")).unwrap_err(), CredentialsError::NotBase64);
}

#[test]
fn credentials_that_are_not_utf8_are_rejected() {
    // base64 of the bytes ff fe
    assert_eq!(
        basic_authentication(text("Basic //4=")).unwrap_err(),
        CredentialsError::CredentialsNotUtf8
    );
}

#[test]
fn credentials_without_a_colon_are_rejected() {
    // base64 of "user"
    assert_eq!(
        basic_authentication(text("Basic dXNlcg==")).unwrap_err(),
        CredentialsError::MissingPassword
    );
    // base64 of nothing
    assert_eq!(basic_authentication(text("Basic ")).unwrap_err(), CredentialsError::MissingPassword);
}

#[test]
fn each_credentials_error_has_its_message() {
    assert_eq!(CredentialsError::MissingHeader.message(), "The 'Authorization' headers was missing.");
    assert_eq!(
        CredentialsError::HeaderNotText.message(),
        "The 'Authorization' header was not a valid UTF-8 string."
    );
    assert_eq!(CredentialsError::NotBasic.message(), "The authorization scheme was not 'Basic'.");
    assert_eq!(CredentialsError::NotBase64.message(), "Failed to base64-decode 'Basic' credentials.");
    assert_eq!(
        CredentialsError::CredentialsNotUtf8.message(),
        "The decoded credential string is not valid UTF-8."
    );
    assert_eq!(
        CredentialsError::MissingPassword.message(),
        "A password must be provided in 'Basic' auth."
    );
}

#[test]
fn the_right_password_is_accepted() {
    let hash = hash_of("everythinghastostartsomewhere");
    assert!(verify_password_hash(&hash, "everythinghastostartsomewhere").is_ok());
}

#[test]
fn invalid_password_is_rejected() {
    let hash = hash_of("everythinghastostartsomewhere");
    match verify_password_hash(&hash, "something else") {
        Err(AuthError::InvalidCredentials(message)) => assert_eq!(message, "Invalid password."),
        other => panic!("unexpected result {:?}", other),
    }
}

#[test]
fn a_stored_hash_that_is_no_phc_string_is_an_unexpected_error() {
    match verify_password_hash("not a hash", "password") {
        Err(AuthError::UnexpectedError(message)) => {
            assert_eq!(message, "Failed to parse hash in PHC string format.")
        }
        other => panic!("unexpected result {:?}", other),
    }
}

#[test]
fn non_existing_user_is_rejected() {
    let credentials = Credentials { username: "nobody".to_string(), password: "secret".to_string() };
    match validate_credentials(None, &credentials) {
        Err(AuthError::InvalidCredentials(message)) => assert_eq!(message, "Unknown username."),
        other => panic!("unexpected result {:?}", other),
    }
}

#[test]
fn a_known_user_with_the_right_password_is_identified() {
    let credentials = Credentials { username: "admin".to_string(), password: "secret".to_string() };
    let stored = Some((42u128, hash_of("secret")));
    assert_eq!(validate_credentials(stored, &credentials).unwrap(), 42);
}

#[test]
fn a_known_user_with_a_wrong_password_is_rejected() {
    let credentials = Credentials { username: "admin".to_string(), password: "wrong".to_string() };
    let stored = Some((42u128, hash_of("secret")));
    assert!(matches!(
        validate_credentials(stored, &credentials),
        Err(AuthError::InvalidCredentials(_))
    ));
}

#[test]
fn redirect_to_admin_dashboard_after_login_success() {
    let outcome = login(Ok(7));
    assert!(matches!(outcome, LoginOutcome::LoggedIn { user_id: 7 }));
    assert_eq!(outcome.redirect_to(), "/admin/dashboard");
}

#[test]
fn an_error_flash_message_is_set_on_failure() {
    let outcome = login(Err(AuthError::InvalidCredentials("Invalid password.".to_string())));
    assert_eq!(outcome.redirect_to(), "/login");
    match outcome {
        LoginOutcome::Refused { error } => {
            assert_eq!(error.to_string(), "Authentication failed");
            assert_eq!(error.status_code(), 401);
        }
        other => panic!("unexpected outcome {:?}", other),
    }
}

#[test]
fn an_unexpected_login_failure_shows_its_cause() {
    match login(Err(AuthError::UnexpectedError("the database is away".to_string()))) {
        LoginOutcome::Refused { error } => {
            assert!(matches!(error, LoginError::UnexpectedError(_)));
            assert_eq!(error.to_string(), "the database is away");
            assert_eq!(error.status_code(), 500);
        }
        other => panic!("unexpected outcome {:?}", other),
    }
}

#[test]
fn anonymous_users_are_sent_to_the_login_page() {
    assert_eq!(reject_anonymous_users(None), Err("/login"));
    assert_eq!(reject_anonymous_users(Some(5)), Ok(5));
}
