use zero2prod::domain::SubscriberEmail;
use zero2prod::email_client::EmailClient;
use zero2prod::error::ResponseError;
use zero2prod::idempotency::{CachedResponse, KeyError};
use zero2prod::issue_delivery_worker::Email;
use zero2prod::routes::admin::password::{check_new_password, PasswordChangeError};
use zero2prod::routes::newsletters::{
    PublishError, INCOMPLETE_FORM_MESSAGE, PUBLISH_SUCCESS_INFO_MESSAGE,
};
use zero2prod::routes::subscriptions::{
    confirmation_email, confirmation_link, generate_subscription_token, StoreTokenError,
    SubscribeError,
};
use zero2prod::routes::subscriptions_confirm::{confirm, Confirmation};
use zero2prod::routes::{ConfirmError, ConfirmParameters, PublishOutcome};
use zero2prod::startup::{listen_address, ApplicationBaseUrl};
use zero2prod::{e400, e500, error_chain_fmt};

#[test]
fn an_error_is_written_with_the_chain_of_its_causes() {
    let causes = vec!["the pool timed out".to_string(), "connection refused".to_string()];
    assert_eq!(
        error_chain_fmt("Failed to store the token", &causes),
        "Failed to store the token\n\nCaused by:\n\tthe pool timed out\nCaused by:\n\tconnection refused\n"
    );
}

#[test]
fn an_error_without_causes_is_written_alone() {
    assert_eq!(error_chain_fmt("Something failed", &Vec::new()), "Something failed\n\n");
}

#[test]
fn response_errors_carry_status_and_message() {
    let error = ResponseError::new(404, "no such page".to_string());
    assert_eq!(error.status_code(), 404);
    assert_eq!(error.to_string(), "no such page");
    let error = error.set_status(410);
    assert_eq!(error.into_response(), (410, "no such page".to_string()));
    assert_eq!(ResponseError::from("oops".to_string()).status_code(), 500);
}

#[test]
fn e400_is_a_bad_request_and_e500_an_internal_error() {
    assert_eq!(e400("bad key".to_string()).into_response(), (400, "bad key".to_string()));
    assert_eq!(e500("down".to_string()).into_response(), (500, "down".to_string()));
}

#[test]
fn publish_outcomes_have_status_codes() {
    let stored = CachedResponse::new(303, vec![], vec![]).unwrap();
    assert_eq!(PublishOutcome::Accepted(stored.clone()).status_code(), 303);
    assert_eq!(PublishOutcome::Replayed(stored).status_code(), 303);
    assert_eq!(PublishOutcome::Unauthenticated.status_code(), 303);
    assert_eq!(PublishOutcome::IncompleteForm.status_code(), 400);
    assert_eq!(PublishOutcome::InvalidKey(KeyError::Empty).status_code(), 400);
    assert_eq!(PublishOutcome::InvalidKey(KeyError::TooLong).status_code(), 400);
    assert_eq!(PublishOutcome::ConflictInProgress.status_code(), 409);
    assert_eq!(PublishOutcome::Failed.status_code(), 500);
}

#[test]
fn publish_errors_have_status_codes_and_a_challenge() {
    let refused = PublishError::AuthError("Invalid password.".to_string());
    assert_eq!(refused.status_code(), 401);
    assert_eq!(refused.challenge(), Some("Basic realm=\"publish\""));
    assert_eq!(refused.to_string(), "Authentication failed");
    let failed = PublishError::UnexpectedError("down".to_string());
    assert_eq!(failed.status_code(), 500);
    assert_eq!(failed.challenge(), None);
    assert_eq!(failed.to_string(), "down");
    let unreadable = PublishError::JsonExtractionError("missing field".to_string());
    assert_eq!(unreadable.status_code(), 422);
    assert_eq!(unreadable.challenge(), None);
}

#[test]
fn the_success_message_names_the_issue() {
    assert_eq!(PUBLISH_SUCCESS_INFO_MESSAGE, "The newsletter issue has been published");
}

#[test]
fn the_message_for_an_incomplete_form_says_so() {
    assert_eq!(INCOMPLETE_FORM_MESSAGE, "Part of the form is not filled out");
}

#[test]
fn subscribe_returns_422_when_fields_are_present_but_invalid() {
    let error = SubscribeError::ValidationError(" is not a valid subscriber name".to_string());
    assert_eq!(error.status_code(), 422);
    assert_eq!(error.to_string(), " is not a valid subscriber name");
}

#[test]
fn subscriptions_subscribe_returns_422_when_data_is_missing() {
    let error = SubscribeError::FormExtractionError("missing field `email`".to_string());
    assert_eq!(error.status_code(), 422);
}

#[test]
fn a_failed_subscription_is_an_internal_error() {
    let error = SubscribeError::UnexpectedError("the database is away".to_string());
    assert_eq!(error.status_code(), 500);
    assert_eq!(error.to_string(), "the database is away");
}

#[test]
fn a_token_that_could_not_be_stored_is_reported_with_its_cause() {
    let error = StoreTokenError("duplicate key".to_string());
    assert_eq!(
        error.to_string(),
        "A database error was encountered while trying to store a subscription token."
    );
    assert_eq!(error.source(), "duplicate key");
}

#[test]
fn a_subscription_token_has_25_letters_and_digits() {
    for _ in 0..20 {
        let token = generate_subscription_token();
        assert_eq!(token.chars().count(), 25);
        assert!(token.chars().all(|c| c.is_ascii_alphanumeric()));
    }
}

#[test]
fn subscription_tokens_differ() {
    assert_ne!(generate_subscription_token(), generate_subscription_token());
}

#[test]
fn the_confirmation_link_carries_the_token() {
    let base_url = ApplicationBaseUrl("http://127.0.0.1".to_string());
    assert_eq!(
        confirmation_link(&base_url, "abc"),
        "http://127.0.0.1/subscriptions/confirm?subscription_token=abc"
    );
}

#[test]
fn the_confirmation_email_holds_the_link_in_both_bodies() {
    let base_url = ApplicationBaseUrl("http://127.0.0.1".to_string());
    let recipient = SubscriberEmail::parse("reader@example.com".to_string()).unwrap();
    let email = confirmation_email(recipient, &base_url, "abc");
    assert_eq!(email.recipient.as_ref(), "reader@example.com");
    assert_eq!(email.subject, "Welcome!");
    assert_eq!(
        email.html_content,
        "Welcome to our newsletter!<br />Click <a href=\"http://127.0.0.1/subscriptions/confirm?subscription_token=abc\">here</a> to confirm your subscription."
    );
    assert_eq!(
        email.text_content,
        "Welcome to our newsletter!<br />Visit http://127.0.0.1/subscriptions/confirm?subscription_token=abc to confirm your subscription."
    );
}

#[test]
fn an_unknown_token_is_unauthorized() {
    assert_eq!(confirm(None), Confirmation::Reject);
    assert_eq!(confirm(None).status_code(), 401);
}

#[test]
fn a_known_token_confirms_its_subscriber() {
    assert_eq!(confirm(Some(9)), Confirmation::Confirm(9));
    assert_eq!(confirm(Some(9)).status_code(), 200);
}

#[test]
fn confirmation_parameters_hold_the_token() {
    assert_eq!(ConfirmParameters::new("abc".to_string()).subscription_token(), "abc");
}

#[test]
fn a_failed_confirmation_is_an_internal_error() {
    let error = ConfirmError::UnexpectedError("the database is away".to_string());
    assert_eq!(error.status_code(), 500);
    assert_eq!(error.to_string(), "the database is away");
}

#[test]
fn a_new_password_needs_12_to_128_bytes() {
    let short = "a".repeat(11);
    let long = "a".repeat(129);
    assert_eq!(check_new_password(&short, &short), Err(PasswordChangeError::BadLength));
    assert_eq!(check_new_password(&long, &long), Err(PasswordChangeError::BadLength));
    assert_eq!(check_new_password(&"a".repeat(12), &"a".repeat(12)), Ok(()));
    assert_eq!(check_new_password(&"a".repeat(128), &"a".repeat(128)), Ok(()));
}

#[test]
fn the_length_of_a_password_is_counted_in_bytes() {
    // Six characters of two bytes each.
    let password = "ёёёёёё".to_string();
    assert_eq!(check_new_password(&password, &password), Ok(()));
}

#[test]
fn a_new_password_must_be_repeated_exactly() {
    assert_eq!(
        check_new_password(&"a".repeat(12), &"b".repeat(12)),
        Err(PasswordChangeError::Mismatch)
    );
}

#[test]
fn the_length_is_checked_before_the_repetition() {
    assert_eq!(
        check_new_password(&"short".to_string(), &"other".to_string()),
        Err(PasswordChangeError::BadLength)
    );
}

#[test]
fn password_errors_tell_the_operator_what_is_wrong() {
    assert_eq!(
        PasswordChangeError::BadLength.message(),
        "The new password should be between 12 and 128 characters long."
    );
    assert_eq!(
        PasswordChangeError::Mismatch.message(),
        "You entered two different new passwords - the field values must match."
    );
}

#[test]
fn the_listen_address_is_host_and_port() {
    assert_eq!(listen_address("127.0.0.1", "8000"), "127.0.0.1:8000");
}

#[test]
fn send_email_fires_a_request_to_base_url() {
    let sender = SubscriberEmail::parse("news@example.com".to_string()).unwrap();
    let client = EmailClient::new("http://mail.test".to_string(), sender, "token".to_string(), 10_000);
    assert_eq!(client.url(), "http://mail.test/email");
    assert_eq!(client.token_header(), "X-Postmark-Server-Token");
    assert_eq!(client.authorization_token(), "token");
    assert_eq!(client.timeout_milliseconds(), 10_000);
    let email = Email {
        recipient: SubscriberEmail::parse("reader@example.com".to_string()).unwrap(),
        subject: "Subject".to_string(),
        html_content: "<p>html</p>".to_string(),
        text_content: "text".to_string(),
    };
    let request = client.send_email(&email);
    assert_eq!(request.from, "news@example.com");
    assert_eq!(request.to, "reader@example.com");
    assert_eq!(request.subject, "Subject");
    assert_eq!(request.html_body, "<p>html</p>");
    assert_eq!(request.text_body, "text");
}
