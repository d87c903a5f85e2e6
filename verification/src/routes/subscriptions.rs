//! Subscribing: the token and the email that ask a new subscriber to
//! confirm, and how a failure is reported.

use crate::domain::subscriber_email::SubscriberEmail;
use crate::issue_delivery_worker::{Email, EmailView};
use crate::startup::ApplicationBaseUrl;
use rand::Rng;
use vstd::prelude::*;
use vstd::string::*;

verus! {

/// The number of characters of a subscription token.
pub const TOKEN_LENGTH: usize = 25;

/// Status code for a form that cannot be accepted.
pub const UNPROCESSABLE_ENTITY: u16 = 422;

/// Status code for a failure of the service.
pub const INTERNAL_SERVER_ERROR: u16 = 500;

/// Why a subscription failed.
#[derive(Debug)]
pub enum SubscribeError {
    /// The name or the address is invalid; the message names it.
    ValidationError(String),
    /// The service failed; the message says how.
    UnexpectedError(String),
    /// The form could not be read; the message says why.
    FormExtractionError(String),
}

impl SubscribeError {
    /// The status code under which the error is reported: 500 for a failure
    /// of the service, 422 for a form that is invalid or unreadable.
    pub fn status_code(&self) -> (status_code: u16)
        ensures
            status_code == (match self {
                SubscribeError::ValidationError(_) => UNPROCESSABLE_ENTITY,
                SubscribeError::UnexpectedError(_) => INTERNAL_SERVER_ERROR,
                SubscribeError::FormExtractionError(_) => UNPROCESSABLE_ENTITY,
            }),
    {
        match self {
            SubscribeError::ValidationError(_) => UNPROCESSABLE_ENTITY,
            SubscribeError::UnexpectedError(_) => INTERNAL_SERVER_ERROR,
            SubscribeError::FormExtractionError(_) => UNPROCESSABLE_ENTITY,
        }
    }

    /// The message of the error.
    pub fn to_string(&self) -> (message: String)
        ensures
            match self {
                SubscribeError::ValidationError(inner) => message@ == inner@,
                SubscribeError::UnexpectedError(inner) => message@ == inner@,
                SubscribeError::FormExtractionError(inner) => message@ == inner@,
            },
    {
        match self {
            SubscribeError::ValidationError(inner) => inner.clone(),
            SubscribeError::UnexpectedError(inner) => inner.clone(),
            SubscribeError::FormExtractionError(inner) => inner.clone(),
        }
    }
}

/// The store failed to keep a subscription token. Holds what the store said.
#[derive(Debug)]
pub struct StoreTokenError(pub String);

impl StoreTokenError {
    /// What the log is told, whatever the store said.
    pub fn to_string(&self) -> (message: String)
        ensures
            message@
                == "A database error was encountered while trying to store a subscription token."@,
    {
        String::from_str(
            "A database error was encountered while trying to store a subscription token.",
        )
    }

    /// What the store said: the cause of the error.
    pub fn source(&self) -> (cause: &str)
        ensures
            cause@ == self.0@,
    {
        self.0.as_str()
    }
}

/// Whether `c` is a letter of the English alphabet or a digit.
pub open spec fn is_alphanumeric(c: char) -> bool {
    ('A' <= c && c <= 'Z') || ('a' <= c && c <= 'z') || ('0' <= c && c <= '9')
}

/// Draws one character with `rand::distributions::Alphanumeric` from the
/// generator of the current thread. Every outcome is a letter of the English
/// alphabet or a digit; which one, no call can tell.
#[verifier::external_body]
fn sample_alphanumeric() -> (c: char)
    ensures
        is_alphanumeric(c),
{
    char::from(rand::thread_rng().sample(rand::distributions::Alphanumeric))
}

/// Calls `String::push`: appends one character.
#[verifier::external_body]
fn push_char(text: &mut String, c: char)
    ensures
        final(text)@ == old(text)@.push(c),
{
    text.push(c)
}

/// A fresh subscription token: 25 characters, each a letter or a digit,
/// drawn at random.
pub fn generate_subscription_token() -> (token: String)
    ensures
        token@.len() == TOKEN_LENGTH,
        forall|i: int| 0 <= i < token@.len() ==> is_alphanumeric(#[trigger] token@[i]),
{
    let mut token = String::new();
    let mut drawn: usize = 0;
    while drawn < TOKEN_LENGTH
        invariant
            0 <= drawn <= TOKEN_LENGTH,
            token@.len() == drawn,
            forall|i: int| 0 <= i < token@.len() ==> is_alphanumeric(#[trigger] token@[i]),
        decreases TOKEN_LENGTH - drawn,
    {
        let c = sample_alphanumeric();
        push_char(&mut token, c);
        drawn += 1;
    }
    token
}

/// The link that confirms the subscription with the token `token` on the
/// service at `base_url`.
pub open spec fn confirmation_link_text(base_url: Seq<char>, token: Seq<char>) -> Seq<char> {
    base_url + "/subscriptions/confirm?subscription_token="@ + token
}

/// The link that a new subscriber follows to confirm.
pub fn confirmation_link(base_url: &ApplicationBaseUrl, subscription_token: &str) -> (link: String)
    ensures
        link@ == confirmation_link_text(base_url.0@, subscription_token@),
{
    let mut link = base_url.0.clone();
    link.append("/subscriptions/confirm?subscription_token=");
    link.append(subscription_token);
    link
}

/// The email that asks the subscriber at `recipient` to confirm by following
/// `link`.
pub open spec fn confirmation_email_text(recipient: Seq<char>, link: Seq<char>) -> EmailView {
    EmailView {
        recipient,
        subject: "Welcome!"@,
        html_content: "Welcome to our newsletter!<br />Click <a href=\""@ + link
            + "\">here</a> to confirm your subscription."@,
        text_content: "Welcome to our newsletter!<br />Visit "@ + link
            + " to confirm your subscription."@,
    }
}

/// The email that asks a new subscriber to confirm the subscription.
pub fn confirmation_email(
    recipient: SubscriberEmail,
    base_url: &ApplicationBaseUrl,
    subscription_token: &str,
) -> (email: Email)
    ensures
        email@ == confirmation_email_text(
            recipient@,
            confirmation_link_text(base_url.0@, subscription_token@),
        ),
{
    let link = confirmation_link(base_url, subscription_token);
    let mut html_content = String::from_str("Welcome to our newsletter!<br />Click <a href=\"");
    html_content.append(link.as_str());
    html_content.append("\">here</a> to confirm your subscription.");
    let mut text_content = String::from_str("Welcome to our newsletter!<br />Visit ");
    text_content.append(link.as_str());
    text_content.append(" to confirm your subscription.");
    Email { recipient, subject: String::from_str("Welcome!"), html_content, text_content }
}

} // verus!
