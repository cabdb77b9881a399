//! The gateway to the mail provider: which single call delivers a message,
//! and how the provider's answer is read.

use crate::domain::subscriber_email::{email_grammar_accepts, SubscriberEmail};
use crate::text::join2;
use vstd::prelude::*;

verus! {

/// How long, in seconds, the provider is given to answer one call.
pub const SEND_TIMEOUT_SECONDS: u64 = 10;

/// A message for one recipient.
pub struct Email {
    pub recipient: SubscriberEmail,
    pub subject: String,
    pub html_content: String,
    pub text_content: String,
}

/// The mathematical content of an `Email`.
pub struct EmailView {
    pub recipient: Seq<char>,
    pub subject: Seq<char>,
    pub html_content: Seq<char>,
    pub text_content: Seq<char>,
}

impl View for Email {
    type V = EmailView;

    open spec fn view(&self) -> EmailView {
        EmailView {
            recipient: self.recipient@,
            subject: self.subject@,
            html_content: self.html_content@,
            text_content: self.text_content@,
        }
    }
}

/// The one call to the provider that delivers a message: a `POST` to `url`
/// that carries `authorization_token` in the provider's token header and the
/// five message fields as its body, and that is given up after
/// `timeout_seconds`.
pub struct SendEmailRequest {
    pub url: String,
    pub authorization_token: String,
    pub timeout_seconds: u64,
    pub from: String,
    pub to: String,
    pub subject: String,
    pub html_body: String,
    pub text_body: String,
}

/// The mathematical content of a `SendEmailRequest`.
pub struct SendEmailRequestView {
    pub url: Seq<char>,
    pub authorization_token: Seq<char>,
    pub timeout_seconds: u64,
    pub from: Seq<char>,
    pub to: Seq<char>,
    pub subject: Seq<char>,
    pub html_body: Seq<char>,
    pub text_body: Seq<char>,
}

impl View for SendEmailRequest {
    type V = SendEmailRequestView;

    open spec fn view(&self) -> SendEmailRequestView {
        SendEmailRequestView {
            url: self.url@,
            authorization_token: self.authorization_token@,
            timeout_seconds: self.timeout_seconds,
            from: self.from@,
            to: self.to@,
            subject: self.subject@,
            html_body: self.html_body@,
            text_body: self.text_body@,
        }
    }
}

/// Why a message could not be handed to the provider.
#[derive(Debug)]
pub enum TransportError {
    /// The provider answered with a status other than success.
    Status(u16),
    /// No answer came: the connection failed or the time ran out.
    Network(String),
}

/// The provider took the message if and only if its status is one of 2xx.
pub open spec fn is_success_status(status: u16) -> bool {
    200 <= status <= 299
}

/// The answer of the provider to one call: a status, or the description of a
/// failure to get one.
pub open spec fn delivery_result(response: Result<u16, String>) -> Result<(), TransportError> {
    match response {
        Ok(status) => if is_success_status(status) {
            Ok(())
        } else {
            Err(TransportError::Status(status))
        },
        Err(failure) => Err(TransportError::Network(failure)),
    }
}

/// Reads the provider's answer to one call. Every status outside 2xx, and
/// every failure to get a status at all, is a transport error that keeps
/// what was observed.
pub fn delivery_outcome(response: Result<u16, String>) -> (r: Result<(), TransportError>)
    ensures
        r == delivery_result(response),
{
    match response {
        Ok(status) => {
            if 200 <= status && status <= 299 {
                Ok(())
            } else {
                Err(TransportError::Status(status))
            }
        },
        Err(failure) => Err(TransportError::Network(failure)),
    }
}

/// The settings under which messages are sent.
pub struct EmailClient {
    base_url: String,
    sender: SubscriberEmail,
    authorization_token: String,
}

/// The mathematical content of an `EmailClient`.
pub struct EmailClientView {
    pub base_url: Seq<char>,
    pub sender: Seq<char>,
    pub authorization_token: Seq<char>,
}

impl View for EmailClient {
    type V = EmailClientView;

    closed spec fn view(&self) -> EmailClientView {
        EmailClientView {
            base_url: self.base_url@,
            sender: self.sender@,
            authorization_token: self.authorization_token@,
        }
    }
}

/// The call that delivers `email` under the settings `client`.
pub open spec fn send_request(client: EmailClientView, email: EmailView) -> SendEmailRequestView {
    SendEmailRequestView {
        url: client.base_url + "/email"@,
        authorization_token: client.authorization_token,
        timeout_seconds: SEND_TIMEOUT_SECONDS,
        from: client.sender,
        to: email.recipient,
        subject: email.subject,
        html_body: email.html_content,
        text_body: email.text_content,
    }
}

/// The header that carries the provider's token.
pub open spec fn token_header() -> Seq<char> {
    "X-Postmark-Server-Token"@
}

/// The body of the call, as the pairs of field name and value that make up
/// its JSON object.
pub open spec fn body_of(request: SendEmailRequestView) -> Seq<(Seq<char>, Seq<char>)> {
    seq![
        ("From"@, request.from),
        ("To"@, request.to),
        ("Subject"@, request.subject),
        ("HtmlBody"@, request.html_body),
        ("TextBody"@, request.text_body),
    ]
}

/// The pairs of texts that a list of pairs of strings holds.
pub open spec fn pairs(fields: Seq<(String, String)>) -> Seq<(Seq<char>, Seq<char>)> {
    Seq::new(fields.len(), |i: int| (fields[i].0@, fields[i].1@))
}

impl SendEmailRequest {
    /// The name of the header that carries the provider's token.
    pub fn token_header_name() -> (r: &'static str)
        ensures
            r@ == token_header(),
    {
        "X-Postmark-Server-Token"
    }

    /// The fields of the JSON object that is the body of the call.
    pub fn body_fields(&self) -> (r: Vec<(String, String)>)
        ensures
            pairs(r@) == body_of(self@),
    {
        let mut r: Vec<(String, String)> = Vec::new();
        r.push(("From".to_string(), self.from.clone()));
        r.push(("To".to_string(), self.to.clone()));
        r.push(("Subject".to_string(), self.subject.clone()));
        r.push(("HtmlBody".to_string(), self.html_body.clone()));
        r.push(("TextBody".to_string(), self.text_body.clone()));
        proof {
            assert(pairs(r@) =~= body_of(self@));
        }
        r
    }
}

impl EmailClient {
    pub fn new(base_url: &str, sender: SubscriberEmail, authorization_token: String) -> (r: Self)
        ensures
            r@ == (EmailClientView {
                base_url: base_url@,
                sender: sender@,
                authorization_token: authorization_token@,
            }),
    {
        EmailClient { base_url: base_url.to_string(), sender, authorization_token }
    }

    /// The single call to the provider that sends one message to `recipient`.
    pub fn send_email(
        &self,
        recipient: &SubscriberEmail,
        subject: &str,
        html_content: &str,
        text_content: &str,
    ) -> (r: SendEmailRequest)
        ensures
            r@ == send_request(
                self@,
                EmailView {
                    recipient: recipient@,
                    subject: subject@,
                    html_content: html_content@,
                    text_content: text_content@,
                },
            ),
            email_grammar_accepts(r@.from),
            email_grammar_accepts(r@.to),
    {
        SendEmailRequest {
            url: join2(self.base_url.as_str(), "/email"),
            authorization_token: self.authorization_token.clone(),
            timeout_seconds: SEND_TIMEOUT_SECONDS,
            from: self.sender.as_ref().to_string(),
            to: recipient.as_ref().to_string(),
            subject: subject.to_string(),
            html_body: html_content.to_string(),
            text_body: text_content.to_string(),
        }
    }
}

} // verus!
