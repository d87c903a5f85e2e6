//! What is sent to the email service for one email.

use crate::domain::subscriber_email::SubscriberEmail;
use crate::issue_delivery_worker::{Email, EmailView};
use vstd::prelude::*;
use vstd::string::*;

verus! {

/// The body of a request to the email service.
#[derive(Debug)]
pub struct SendEmailRequest {
    pub from: String,
    pub to: String,
    pub subject: String,
    pub html_body: String,
    pub text_body: String,
}

/// How the email service is reached, and in whose name emails are sent.
#[derive(Debug)]
pub struct EmailClient {
    authorization_token: String,
    base_url: String,
    sender: SubscriberEmail,
    timeout_milliseconds: u64,
}

/// The client's settings as plain values.
pub struct EmailClientView {
    pub authorization_token: Seq<char>,
    pub base_url: Seq<char>,
    pub sender: Seq<char>,
    pub timeout_milliseconds: u64,
}

impl View for EmailClient {
    type V = EmailClientView;

    closed spec fn view(&self) -> EmailClientView {
        EmailClientView {
            authorization_token: self.authorization_token@,
            base_url: self.base_url@,
            sender: self.sender@,
            timeout_milliseconds: self.timeout_milliseconds,
        }
    }
}

impl EmailClient {
    /// A client for the service at `base_url` that sends in the name of
    /// `sender`.
    pub fn new(
        base_url: String,
        sender: SubscriberEmail,
        authorization_token: String,
        timeout_milliseconds: u64,
    ) -> (client: Self)
        ensures
            client@ == (EmailClientView {
                authorization_token: authorization_token@,
                base_url: base_url@,
                sender: sender@,
                timeout_milliseconds,
            }),
    {
        EmailClient { authorization_token, base_url, sender, timeout_milliseconds }
    }

    /// The address to which emails are posted: the base address followed by
    /// `/email`.
    pub fn url(&self) -> (url: String)
        ensures
            url@ == self@.base_url + "/email"@,
    {
        let mut url = self.base_url.clone();
        url.append("/email");
        url
    }

    /// The name of the header that carries the authorization token.
    pub fn token_header(&self) -> (name: &'static str)
        ensures
            name@ == "X-Postmark-Server-Token"@,
    {
        "X-Postmark-Server-Token"
    }

    /// The authorization token.
    pub fn authorization_token(&self) -> (token: &str)
        ensures
            token@ == self@.authorization_token,
    {
        self.authorization_token.as_str()
    }

    /// The time after which a request is given up, in milliseconds.
    pub fn timeout_milliseconds(&self) -> (timeout: u64)
        ensures
            timeout == self@.timeout_milliseconds,
    {
        self.timeout_milliseconds
    }

    /// The body of the request that sends `email`: from the client's sender
    /// to the email's recipient, with subject and both bodies as they are.
    pub fn send_email(&self, email: &Email) -> (request: SendEmailRequest)
        ensures
            request.from@ == self@.sender,
            request.to@ == email@.recipient,
            request.subject@ == email@.subject,
            request.html_body@ == email@.html_content,
            request.text_body@ == email@.text_content,
    {
        SendEmailRequest {
            from: self.sender.to_string(),
            to: email.recipient.to_string(),
            subject: email.subject.clone(),
            html_body: email.html_content.clone(),
            text_body: email.text_content.clone(),
        }
    }
}

} // verus!
