//! The message that asks the mail service to deliver an email, and the
//! reading of its answer.

use crate::domain::subscriber_email::SubscriberEmail;
use vstd::prelude::*;

verus! {

/// Why an email could not be handed to the mail service.
#[derive(Clone, Copy, Debug, PartialEq, Eq, Structural)]
pub enum NotifierFailure {
    /// The service did not answer within the time allowed.
    TimedOut,
    /// The service answered with a status outside `200..=299`.
    Status(u16),
    /// The request never reached the service.
    Transport,
}

/// The body of a delivery request.
#[derive(Debug)]
pub struct SendEmailRequest {
    pub from: String,
    pub to: String,
    pub subject: String,
    pub html_body: String,
    pub text_body: String,
}

/// The address that delivery requests are posted to: `/email` below
/// `base_url`.
pub open spec fn endpoint_of(base_url: Seq<char>) -> Seq<char> {
    base_url + "/email"@
}

/// Builds the address that delivery requests are posted to.
pub fn endpoint(base_url: &str) -> (url: String)
    ensures
        url@ == endpoint_of(base_url@),
{
    String::from_str(base_url).concat("/email")
}

/// The name of the header that carries the service's access token.
pub fn auth_header() -> (name: &'static str)
    ensures
        name@ == "X-Postmark-Server-Token"@,
{
    "X-Postmark-Server-Token"
}

/// Fills in a delivery request from `sender` to `recipient`.
pub fn compose(
    sender: &SubscriberEmail,
    recipient: &SubscriberEmail,
    subject: &str,
    html_body: &str,
    text_body: &str,
) -> (request: SendEmailRequest)
    ensures
        request.from@ == sender@,
        request.to@ == recipient@,
        request.subject@ == subject@,
        request.html_body@ == html_body@,
        request.text_body@ == text_body@,
{
    SendEmailRequest {
        from: String::from_str(sender.as_ref()),
        to: String::from_str(recipient.as_ref()),
        subject: String::from_str(subject),
        html_body: String::from_str(html_body),
        text_body: String::from_str(text_body),
    }
}

/// Reads the status with which the mail service answered: delivery succeeded
/// exactly when the status is one of `200..=299`.
pub fn delivery_result(status: u16) -> (r: Result<(), NotifierFailure>)
    ensures
        r == if 200 <= status <= 299 {
            Ok::<(), NotifierFailure>(())
        } else {
            Err::<(), NotifierFailure>(NotifierFailure::Status(status))
        },
{
    if 200 <= status && status <= 299 {
        Ok(())
    } else {
        Err(NotifierFailure::Status(status))
    }
}

} // verus!
