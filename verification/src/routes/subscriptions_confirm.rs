//! Confirming a subscription by its token.

use vstd::prelude::*;
use vstd::string::*;

verus! {

/// Status code for a token that belongs to a subscriber.
pub const OK: u16 = 200;

/// Status code for a token that belongs to nobody.
pub const UNAUTHORIZED: u16 = 401;

/// Status code for a failure of the service.
pub const INTERNAL_SERVER_ERROR: u16 = 500;

/// The parameters of a confirmation link.
#[derive(Debug)]
pub struct ConfirmParameters {
    subscription_token: String,
}

impl ConfirmParameters {
    /// The parameters that carry `subscription_token`.
    pub fn new(subscription_token: String) -> (parameters: Self)
        ensures
            parameters.token_view() == subscription_token@,
    {
        ConfirmParameters { subscription_token }
    }

    /// The token as plain value.
    pub closed spec fn token_view(&self) -> Seq<char> {
        self.subscription_token@
    }

    /// The token.
    pub fn subscription_token(&self) -> (token: &str)
        ensures
            token@ == self.token_view(),
    {
        self.subscription_token.as_str()
    }
}

/// Why a confirmation failed.
#[derive(Debug)]
pub enum ConfirmError {
    /// The service failed; the message says how.
    UnexpectedError(String),
}

impl ConfirmError {
    /// The status code under which the error is reported: always 500.
    pub fn status_code(&self) -> (status_code: u16)
        ensures
            status_code == INTERNAL_SERVER_ERROR,
    {
        INTERNAL_SERVER_ERROR
    }

    /// The message of the error.
    pub fn to_string(&self) -> (message: String)
        ensures
            self matches ConfirmError::UnexpectedError(inner) && message@ == inner@,
    {
        match self {
            ConfirmError::UnexpectedError(inner) => inner.clone(),
        }
    }
}

/// What is to be done about a confirmation once its token has been looked up.
#[derive(Debug, Clone, Copy, PartialEq, Eq, Structural)]
pub enum Confirmation {
    /// The token belongs to nobody: answer 401.
    Reject,
    /// The token belongs to this subscriber: mark it confirmed, answer 200.
    Confirm(u128),
}

/// Decides about a confirmation from the subscriber that the token belongs
/// to, if any.
pub fn confirm(subscriber_id: Option<u128>) -> (decision: Confirmation)
    ensures
        decision == match subscriber_id {
            None => Confirmation::Reject,
            Some(id) => Confirmation::Confirm(id),
        },
{
    match subscriber_id {
        None => Confirmation::Reject,
        Some(id) => Confirmation::Confirm(id),
    }
}

impl Confirmation {
    /// The status code of the answer: 401 for a rejection, 200 otherwise.
    pub fn status_code(&self) -> (status_code: u16)
        ensures
            status_code == match *self {
                Confirmation::Reject => UNAUTHORIZED,
                Confirmation::Confirm(_) => OK,
            },
    {
        match self {
            Confirmation::Reject => UNAUTHORIZED,
            Confirmation::Confirm(_) => OK,
        }
    }
}

} // verus!
