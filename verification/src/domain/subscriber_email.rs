//! The address under which somebody subscribes.

use vstd::prelude::*;
use vstd::string::*;

verus! {

/// Whether `validator` accepts a string as an email address, by the rules
/// of the HTML5 specification.
pub uninterp spec fn is_email_address(s: Seq<char>) -> bool;

/// Whether a string is not empty and holds an `@`.
pub open spec fn has_at_sign(s: Seq<char>) -> bool {
    s.len() > 0 && s.contains('@')
}

/// The text of the error for an address that is refused.
pub open spec fn invalid_email_message(s: Seq<char>) -> Seq<char> {
    s + " is not a valid subscriber email"@
}

/// Calls `validator::validate_email`. A string that is empty or holds no
/// `@` is never accepted.
#[verifier::external_body]
fn validate_email(s: &str) -> (valid: bool)
    ensures
        valid == is_email_address(s@),
        valid ==> s@.len() > 0 && s@.contains('@'),
{
    validator::validate_email(s)
}

/// An email address that has passed validation.
#[derive(Debug)]
pub struct SubscriberEmail(String);

impl View for SubscriberEmail {
    type V = Seq<char>;

    closed spec fn view(&self) -> Seq<char> {
        self.0@
    }
}

impl Clone for SubscriberEmail {
    fn clone(&self) -> (copy: Self)
        ensures
            copy@ == self@,
    {
        proof {
            use_type_invariant(self);
        }
        SubscriberEmail(self.0.clone())
    }
}

impl SubscriberEmail {
    #[verifier::type_invariant]
    spec fn well_formed(self) -> bool {
        is_email_address(self.0@)
    }

    /// Validates `value` as an email address. The error is the string
    /// followed by `" is not a valid subscriber email"`. A string that is
    /// empty or holds no `@` is never accepted.
    pub fn parse(value: String) -> (parsed: Result<SubscriberEmail, String>)
        ensures
            is_email_address(value@) ==> has_at_sign(value@),
            match parsed {
                Ok(email) => is_email_address(value@) && email@ == value@,
                Err(message) => !is_email_address(value@) && message@ == invalid_email_message(
                    value@,
                ),
            },
    {
        if validate_email(value.as_str()) {
            Ok(SubscriberEmail(value))
        } else {
            Err(value.concat(" is not a valid subscriber email"))
        }
    }

    /// The address.
    pub fn as_ref(&self) -> (s: &str)
        ensures
            s@ == self@,
            is_email_address(s@),
    {
        proof {
            use_type_invariant(self);
        }
        self.0.as_str()
    }

    /// The address as text of its own.
    pub fn to_string(&self) -> (s: String)
        ensures
            s@ == self@,
    {
        self.0.clone()
    }
}

} // verus!
