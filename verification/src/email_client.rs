//! What is handed to the transactional email sender.

use crate::domain::subscriber_email::SubscriberEmail;
use vstd::prelude::*;
use vstd::string::StringExecFns;

verus! {

/// An email that is due to a subscriber.
pub struct Email {
    pub recipient: SubscriberEmail,
    pub subject: String,
    pub html_content: String,
    pub text_content: String,
}

/// The body of the request that asks the sender to deliver one email.
pub struct SendEmailRequestBody {
    pub from: String,
    pub to: String,
    pub subject: String,
    pub html_body: String,
    pub text_body: String,
}

/// The request that asks the sender to deliver one email: a `POST` of `body`
/// to `url`, which carries `authorization_token` in the header
/// [`TOKEN_HEADER`].
pub struct SendEmailRequest {
    pub url: String,
    pub authorization_token: String,
    pub body: SendEmailRequestBody,
}

/// The header in which the sender expects the account's token.
pub const TOKEN_HEADER: &'static str = "X-Postmark-Server-Token";

/// The account at the email sender through which the service sends.
pub struct EmailClient {
    pub base_url: String,
    pub sender: SubscriberEmail,
    pub authorization_token: String,
    pub timeout_milliseconds: u64,
}

impl EmailClient {
    /// The address that emails are posted to.
    pub open spec fn endpoint(self) -> Seq<char> {
        self.base_url@ + "/email"@
    }

    /// `request` asks this account to deliver the given email.
    pub open spec fn is_request_for(
        self,
        request: SendEmailRequest,
        recipient: Seq<char>,
        subject: Seq<char>,
        html_content: Seq<char>,
        text_content: Seq<char>,
    ) -> bool {
        &&& request.url@ == self.endpoint()
        &&& request.authorization_token@ == self.authorization_token@
        &&& request.body.from@ == self.sender@
        &&& request.body.to@ == recipient
        &&& request.body.subject@ == subject
        &&& request.body.html_body@ == html_content
        &&& request.body.text_body@ == text_content
    }

    /// An account at the sender reachable under `base_url`, which sends in
    /// the name of `sender`, proves itself by `authorization_token` and
    /// gives up on a request after `timeout_milliseconds`.
    pub fn new(
        base_url: String,
        sender: SubscriberEmail,
        authorization_token: String,
        timeout_milliseconds: u64,
    ) -> (client: EmailClient)
        ensures
            client.base_url == base_url,
            client.sender == sender,
            client.authorization_token == authorization_token,
            client.timeout_milliseconds == timeout_milliseconds,
    {
        EmailClient { base_url, sender, authorization_token, timeout_milliseconds }
    }

    /// The request that asks the sender to deliver an email with the given
    /// subject and renderings to `recipient`.
    pub fn send_email(
        &self,
        recipient: &SubscriberEmail,
        subject: &str,
        html_content: &str,
        text_content: &str,
    ) -> (request: SendEmailRequest)
        ensures
            self.is_request_for(request, recipient@, subject@, html_content@, text_content@),
    {
        let mut url = self.base_url.clone();
        url.append("/email");
        SendEmailRequest {
            url,
            authorization_token: self.authorization_token.clone(),
            body: SendEmailRequestBody {
                from: self.sender.as_ref().to_owned(),
                to: recipient.as_ref().to_owned(),
                subject: subject.to_owned(),
                html_body: html_content.to_owned(),
                text_body: text_content.to_owned(),
            },
        }
    }
}

} // verus!
