//! A subscriber whose name and address have both passed validation.

use crate::domain::subscriber_email::{invalid_email_message, is_email_address, SubscriberEmail};
use crate::domain::subscriber_name::{invalid_name_message, is_valid_name, SubscriberName};
use vstd::prelude::*;

verus! {

/// The fields of the subscription form.
#[derive(Debug)]
pub struct FormData {
    pub email: String,
    pub name: String,
}

/// Somebody who asks to subscribe.
#[derive(Debug)]
pub struct NewSubscriber {
    pub email: SubscriberEmail,
    pub name: SubscriberName,
}

impl Clone for NewSubscriber {
    fn clone(&self) -> (copy: Self)
        ensures
            copy.email@ == self.email@,
            copy.name@ == self.name@,
    {
        NewSubscriber { email: self.email.clone(), name: self.name.clone() }
    }
}

impl NewSubscriber {
    /// Validates the name, then the address, of a subscription form. The
    /// error is that of the first of the two that is refused.
    pub fn try_from(value: FormData) -> (parsed: Result<NewSubscriber, String>)
        ensures
            match parsed {
                Ok(subscriber) => {
                    &&& is_valid_name(value.name@)
                    &&& is_email_address(value.email@)
                    &&& subscriber.name@ == value.name@
                    &&& subscriber.email@ == value.email@
                },
                Err(message) => if !is_valid_name(value.name@) {
                    message@ == invalid_name_message(value.name@)
                } else {
                    !is_email_address(value.email@) && message@ == invalid_email_message(
                        value.email@,
                    )
                },
            },
    {
        let name = match SubscriberName::parse(value.name) {
            Ok(name) => name,
            Err(message) => {
                return Err(message);
            },
        };
        let email = match SubscriberEmail::parse(value.email) {
            Ok(email) => email,
            Err(message) => {
                return Err(message);
            },
        };
        Ok(NewSubscriber { email, name })
    }
}

} // verus!
