//! Email addresses of subscribers.

use crate::domain::subscriber_name::{is_blank, is_white_space};
use vstd::prelude::*;

verus! {

/// Whether `s` is an email address in the eyes of `validator::validate_email`,
/// which goes by the HTML5 rules for valid e-mail addresses and admits
/// internationalised domains and address literals.
pub uninterp spec fn is_valid_email(s: Seq<char>) -> bool;

/// Whether `s` visibly lacks a part of an address: it is empty, holds no `@`,
/// or has nothing in front of its only `@`.
pub open spec fn is_malformed_address(s: Seq<char>) -> bool {
    ||| s.len() == 0
    ||| !s.contains('@')
    ||| (s[0] == '@' && forall|i: int| 1 <= i < s.len() ==> s[i] != '@')
}

/// A string of white space alone, the empty string among them, lacks a part
/// of an address: it holds no `@`.
pub proof fn blank_address_is_malformed(s: Seq<char>)
    requires
        is_blank(s),
    ensures
        is_malformed_address(s),
{
    if s.contains('@') {
        let i = choose|i: int| 0 <= i < s.len() && s[i] == '@';
        assert(is_white_space(s[i]));
    }
}

/// The message with which `email` is rejected.
pub open spec fn rejection_of(email: Seq<char>) -> Seq<char> {
    email + " is not a valid email"@
}

/// Checks `email` with `validator::validate_email`.
///
/// Trusted: the verdict depends on the characters of `email` alone, and an
/// address that is empty, has no `@`, or has an empty part before its last
/// `@` is never valid.
#[verifier::external_body]
fn validate_email(email: &str) -> (valid: bool)
    ensures
        valid == is_valid_email(email@),
        is_malformed_address(email@) ==> !valid,
{
    validator::validate_email(email)
}

/// A syntactically valid email address.
#[derive(Debug)]
pub struct SubscriberEmail(String);

impl View for SubscriberEmail {
    type V = Seq<char>;

    closed spec fn view(&self) -> Seq<char> {
        self.0@
    }
}

impl SubscriberEmail {
    #[verifier::type_invariant]
    spec fn well_formed(&self) -> bool {
        is_valid_email(self.0@)
    }

    /// Words the rejection of `email`.
    pub fn rejection(email: String) -> (message: String)
        ensures
            message@ == rejection_of(email@),
    {
        email.concat(" is not a valid email")
    }

    /// Accepts `email` unchanged if it is a valid address and rejects it
    /// otherwise, naming it in the error.
    pub fn parse(email: String) -> (r: Result<SubscriberEmail, String>)
        ensures
            r is Ok <==> is_valid_email(email@),
            is_malformed_address(email@) ==> r is Err,
            r matches Ok(e) ==> e@ == email@,
            r matches Err(m) ==> m@ == rejection_of(email@),
    {
        if !validate_email(email.as_str()) {
            return Err(Self::rejection(email));
        }
        Ok(SubscriberEmail(email))
    }

    /// The address as text. It is a valid address.
    pub fn as_ref(&self) -> (s: &str)
        ensures
            s@ == self@,
            is_valid_email(s@),
    {
        proof {
            use_type_invariant(self);
        }
        self.0.as_str()
    }
}

} // verus!
