//! A subscriber whose name and email passed validation.

use crate::domain::subscriber_email::{is_valid_email, rejection_of, SubscriberEmail};
use crate::domain::subscriber_name::{grapheme_count, is_valid_name, SubscriberName};
use crate::routes::subscriptions::SubscriberCreateRequest;
use vstd::prelude::*;

verus! {

/// The validated content of a sign-up request.
#[derive(Debug)]
pub struct Subscriber {
    pub name: SubscriberName,
    pub email: SubscriberEmail,
}

/// A subscriber as a pair of texts.
pub struct SubscriberView {
    pub name: Seq<char>,
    pub email: Seq<char>,
}

impl View for Subscriber {
    type V = SubscriberView;

    open spec fn view(&self) -> SubscriberView {
        SubscriberView { name: self.name@, email: self.email@ }
    }
}

/// What a request with the given name and email validates to: the two values
/// themselves, or the message of the first check that fails, the name's
/// before the email's.
pub open spec fn validated(name: Seq<char>, email: Seq<char>) -> Result<SubscriberView, Seq<char>> {
    if !is_valid_name(name, grapheme_count(name)) {
        Err("Name is not valid"@)
    } else if !is_valid_email(email) {
        Err(rejection_of(email))
    } else {
        Ok(SubscriberView { name, email })
    }
}

impl Subscriber {
    /// Validates the fields of a sign-up request, the name first.
    pub fn try_from(value: SubscriberCreateRequest) -> (r: Result<Subscriber, String>)
        ensures
            match validated(value@.name, value@.email) {
                Ok(subscriber) => r matches Ok(s) && s@ == subscriber,
                Err(message) => r matches Err(e) && e@ == message,
            },
    {
        let name = match SubscriberName::parse(value.name) {
            Ok(name) => name,
            Err(e) => {
                return Err(e);
            },
        };
        let email = match SubscriberEmail::parse(value.email) {
            Ok(email) => email,
            Err(e) => {
                return Err(e);
            },
        };
        Ok(Subscriber { name, email })
    }
}

} // verus!
