//! Logging in.

use crate::authentication::AuthError;
use vstd::prelude::*;
use vstd::string::*;

verus! {

/// Status code for credentials that are refused.
pub const UNAUTHORIZED: u16 = 401;

/// Status code for a failure of the service.
pub const INTERNAL_SERVER_ERROR: u16 = 500;

/// Why a login did not succeed.
#[derive(Debug)]
pub enum LoginError {
    /// The credentials were refused; the message says why.
    AuthError(String),
    /// The check failed; the message says how.
    UnexpectedError(String),
}

impl LoginError {
    /// The login error that an authentication error leads to: refused
    /// credentials stay refused credentials, anything else is unexpected. The
    /// message is kept.
    pub fn from_auth_error(error: AuthError) -> (login_error: LoginError)
        ensures
            match error {
                AuthError::InvalidCredentials(message) => login_error matches LoginError::AuthError(
                    kept,
                ) && kept@ == message@,
                AuthError::UnexpectedError(message) => login_error matches LoginError::UnexpectedError(
                    kept,
                ) && kept@ == message@,
            },
    {
        match error {
            AuthError::InvalidCredentials(message) => LoginError::AuthError(message),
            AuthError::UnexpectedError(message) => LoginError::UnexpectedError(message),
        }
    }

    /// The status code under which the error is reported: 401 for refused
    /// credentials, 500 otherwise.
    pub fn status_code(&self) -> (status_code: u16)
        ensures
            status_code == (match self {
                LoginError::AuthError(_) => UNAUTHORIZED,
                LoginError::UnexpectedError(_) => INTERNAL_SERVER_ERROR,
            }),
    {
        match self {
            LoginError::AuthError(_) => UNAUTHORIZED,
            LoginError::UnexpectedError(_) => INTERNAL_SERVER_ERROR,
        }
    }

    /// What the user is shown: `Authentication failed` for refused
    /// credentials, the message of the failure otherwise.
    pub fn to_string(&self) -> (message: String)
        ensures
            match self {
                LoginError::AuthError(_) => message@ == "Authentication failed"@,
                LoginError::UnexpectedError(inner) => message@ == inner@,
            },
    {
        match self {
            LoginError::AuthError(_) => String::from_str("Authentication failed"),
            LoginError::UnexpectedError(inner) => inner.clone(),
        }
    }
}

/// Where a login leads.
#[derive(Debug)]
pub enum LoginOutcome {
    /// The user is logged in: renew the session, keep the user's id in it,
    /// and go to the dashboard.
    LoggedIn { user_id: u128 },
    /// The login failed: show the message on the login page.
    Refused { error: LoginError },
}

impl LoginOutcome {
    /// The page to which the browser is sent: `/admin/dashboard` after a
    /// login, `/login` after a failure.
    pub fn redirect_to(&self) -> (path: &'static str)
        ensures
            path@ == (match self {
                LoginOutcome::LoggedIn { .. } => "/admin/dashboard"@,
                LoginOutcome::Refused { .. } => "/login"@,
            }),
    {
        match self {
            LoginOutcome::LoggedIn { .. } => "/admin/dashboard",
            LoginOutcome::Refused { .. } => "/login",
        }
    }
}

/// Decides where a login leads from the result of checking the credentials.
pub fn login(validated: Result<u128, AuthError>) -> (outcome: LoginOutcome)
    ensures
        match validated {
            Ok(id) => outcome matches LoginOutcome::LoggedIn { user_id } && user_id == id,
            Err(AuthError::InvalidCredentials(message)) => outcome matches LoginOutcome::Refused {
                error: LoginError::AuthError(kept),
            } && kept@ == message@,
            Err(AuthError::UnexpectedError(message)) => outcome matches LoginOutcome::Refused {
                error: LoginError::UnexpectedError(kept),
            } && kept@ == message@,
        },
{
    match validated {
        Ok(user_id) => LoginOutcome::LoggedIn { user_id },
        Err(error) => LoginOutcome::Refused { error: LoginError::from_auth_error(error) },
    }
}

/// Where a request to the operator's pages goes: on to the page where a user
/// is logged in, to `/login` where nobody is.
pub fn reject_anonymous_users(session_user_id: Option<u128>) -> (passed: Result<u128, &'static str>)
    ensures
        match session_user_id {
            Some(id) => passed == Ok::<u128, &'static str>(id),
            None => passed matches Err(path) && path@ == "/login"@,
        },
{
    match session_user_id {
        Some(user_id) => Ok(user_id),
        None => Err("/login"),
    }
}

} // verus!
