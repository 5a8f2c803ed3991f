//! Signing up: from a submitted form to a pending subscriber who has been
//! sent a confirmation link.

use crate::domain::subscriber::{validated, Subscriber, SubscriberView};
use crate::domain::subscriber_email::SubscriberEmail;
use crate::email_client::NotifierFailure;
use crate::store::{StoreError, SubscriberId};
use rand::distributions::Alphanumeric;
use rand::rngs::ThreadRng;
use rand::Rng;
use vstd::prelude::*;

verus! {

/// The fields of the sign-up form, as submitted.
#[derive(Debug)]
pub struct SubscriberCreateRequest {
    pub email: String,
    pub name: String,
}

/// A sign-up form as a pair of texts.
pub struct SubscriberCreateRequestView {
    pub email: Seq<char>,
    pub name: Seq<char>,
}

impl View for SubscriberCreateRequest {
    type V = SubscriberCreateRequestView;

    open spec fn view(&self) -> SubscriberCreateRequestView {
        SubscriberCreateRequestView { email: self.email@, name: self.name@ }
    }
}

/// The number of characters of a confirmation token.
pub const TOKEN_LENGTH: usize = 25;

/// Whether `c` is an ASCII letter or digit.
pub open spec fn is_alphanumeric(c: char) -> bool {
    ||| 'a' <= c <= 'z'
    ||| 'A' <= c <= 'Z'
    ||| '0' <= c <= '9'
}

/// Whether `s` has the shape of a confirmation token: 25 ASCII letters and
/// digits.
pub open spec fn is_subscription_token(s: Seq<char>) -> bool {
    &&& s.len() == TOKEN_LENGTH
    &&& forall|i: int| 0 <= i < s.len() ==> is_alphanumeric(#[trigger] s[i])
}

/// The handle to the thread's random number generator, `rand::rngs::ThreadRng`.
#[verifier::external_type_specification]
#[verifier::external_body]
pub struct ExThreadRng(ThreadRng);

/// `rand::thread_rng` hands out the generator of the current thread, which
/// the operating system seeds. Nothing is claimed of the numbers it will
/// give. It panics where the operating system has no entropy to seed it with.
pub assume_specification[ rand::thread_rng ]() -> (rng: ThreadRng);

/// Draws one byte from `rand::distributions::Alphanumeric` with `Rng::sample`.
///
/// Trusted: whatever the generator yields, the byte is the ASCII code of a
/// letter or a digit.
#[verifier::external_body]
fn sample_alphanumeric(rng: &mut ThreadRng) -> (byte: u8)
    ensures
        is_alphanumeric(byte as char),
{
    rng.sample(Alphanumeric)
}

/// Appends one character with `String::push`.
#[verifier::external_body]
fn push_char(s: &mut String, c: char)
    ensures
        final(s)@ == old(s)@.push(c),
{
    s.push(c)
}

/// The text that `samples` spell when each byte is read as a character.
pub open spec fn spelled(samples: Seq<u8>) -> Seq<char> {
    Seq::new(samples.len(), |i: int| samples[i] as char)
}

/// Spells out `samples`, one character for each byte, in their order.
pub fn token_from_samples(samples: &Vec<u8>) -> (token: String)
    ensures
        token@ == spelled(samples@),
{
    let mut token = String::new();
    let mut spelt: usize = 0;
    while spelt < samples.len()
        invariant
            spelt <= samples.len(),
            token@ == spelled(samples@.take(spelt as int)),
        decreases samples.len() - spelt,
    {
        push_char(&mut token, samples[spelt] as char);
        spelt += 1;
        assert(token@ =~= spelled(samples@.take(spelt as int)));
    }
    assert(samples@.take(spelt as int) =~= samples@);
    token
}

/// Issues a fresh confirmation token: 25 characters, each drawn from the
/// ASCII letters and digits by the thread's cryptographically secure
/// generator, in the order in which they are drawn.
pub fn generate_subscription_token() -> (token: String)
    ensures
        is_subscription_token(token@),
{
    let mut rng = rand::thread_rng();
    let mut samples: Vec<u8> = Vec::new();
    while samples.len() < TOKEN_LENGTH
        invariant
            samples.len() <= TOKEN_LENGTH,
            forall|i: int|
                0 <= i < samples.len() ==> is_alphanumeric(#[trigger] samples[i] as char),
        decreases TOKEN_LENGTH - samples.len(),
    {
        let byte = sample_alphanumeric(&mut rng);
        samples.push(byte);
    }
    token_from_samples(&samples)
}

/// The link that confirms the subscription that `token` stands for.
pub open spec fn confirmation_link_of(base_url: Seq<char>, token: Seq<char>) -> Seq<char> {
    base_url + "/subscriptions/confirm?subscription_token="@ + token
}

/// The HTML body of the confirmation email: `link` as a clickable anchor.
pub open spec fn html_body_of(link: Seq<char>) -> Seq<char> {
    "Welcome to our newsletter! <br /> Please click <a href=\""@ + link
        + "\">here</a> to confirm your registration"@
}

/// The plain-text body of the confirmation email: `link` as literal text.
pub open spec fn text_body_of(link: Seq<char>) -> Seq<char> {
    "Welcome to our newsletter!\n Visit "@ + link + " to confirm your registration"@
}

/// Builds the confirmation link for `token` below `base_url`.
pub fn confirmation_link(base_url: &str, token: &str) -> (link: String)
    ensures
        link@ == confirmation_link_of(base_url@, token@),
{
    String::from_str(base_url).concat("/subscriptions/confirm?subscription_token=").concat(token)
}

/// The email that asks a new subscriber to confirm.
#[derive(Debug)]
pub struct ConfirmationEmail {
    pub recipient: SubscriberEmail,
    pub subject: String,
    pub html_body: String,
    pub text_body: String,
}

/// A confirmation email as four texts.
pub struct ConfirmationEmailView {
    pub recipient: Seq<char>,
    pub subject: Seq<char>,
    pub html_body: Seq<char>,
    pub text_body: Seq<char>,
}

impl View for ConfirmationEmail {
    type V = ConfirmationEmailView;

    open spec fn view(&self) -> ConfirmationEmailView {
        ConfirmationEmailView {
            recipient: self.recipient@,
            subject: self.subject@,
            html_body: self.html_body@,
            text_body: self.text_body@,
        }
    }
}

/// The confirmation email for `recipient`: both bodies carry the link that
/// `base_url` and `token` make.
pub open spec fn confirmation_email_of(
    recipient: Seq<char>,
    base_url: Seq<char>,
    token: Seq<char>,
) -> ConfirmationEmailView {
    let link = confirmation_link_of(base_url, token);
    ConfirmationEmailView {
        recipient,
        subject: "Welcome"@,
        html_body: html_body_of(link),
        text_body: text_body_of(link),
    }
}

/// Writes the confirmation email for `recipient`.
pub fn confirmation_email(recipient: SubscriberEmail, base_url: &str, token: &str) -> (email:
    ConfirmationEmail)
    ensures
        email@ == confirmation_email_of(recipient@, base_url@, token@),
{
    let confirmation_link = confirmation_link(base_url, token);
    let html_body = String::from_str(
        "Welcome to our newsletter! <br /> Please click <a href=\"",
    ).concat(confirmation_link.as_str()).concat("\">here</a> to confirm your registration");
    let text_body = String::from_str("Welcome to our newsletter!\n Visit ").concat(
        confirmation_link.as_str(),
    ).concat(" to confirm your registration");
    ConfirmationEmail { recipient, subject: String::from_str("Welcome"), html_body, text_body }
}

/// How a sign-up ends, as the submitter learns it.
#[derive(Clone, Copy, Debug, PartialEq, Eq, Structural)]
pub enum SignUpOutcome {
    /// The subscriber is pending and the confirmation email is on its way.
    Accepted,
    /// A field is missing or not valid; nothing was stored or sent.
    BadRequest,
    /// The store or the notifier failed.
    InternalError,
}

impl SignUpOutcome {
    /// The HTTP status that reports the outcome.
    pub open spec fn status(self) -> u16 {
        match self {
            SignUpOutcome::Accepted => 200,
            SignUpOutcome::BadRequest => 400,
            SignUpOutcome::InternalError => 500,
        }
    }

    /// The HTTP status that reports the outcome.
    pub fn status_code(&self) -> (code: u16)
        ensures
            code == self.status(),
    {
        match self {
            SignUpOutcome::Accepted => 200,
            SignUpOutcome::BadRequest => 400,
            SignUpOutcome::InternalError => 500,
        }
    }
}

/// The step at which a sign-up failed, with what the collaborator reported.
#[derive(Clone, Copy, Debug, PartialEq, Eq, Structural)]
pub enum SignUpFailure {
    /// A field was missing, or the name or the email did not pass
    /// validation.
    Validation,
    /// The store did not persist the pending subscriber.
    SubscriberNotStored(StoreError),
    /// The store did not persist the token; the subscriber stays pending
    /// without one.
    TokenNotStored(StoreError),
    /// The notifier did not send the email; the subscriber stays pending with
    /// a usable token.
    NotNotified(NotifierFailure),
    /// An event arrived that the step in progress was not waiting for.
    OutOfOrder,
}

impl SignUpFailure {
    /// What the submitter learns of the failure: a validation failure is
    /// theirs to mend, every other one stays opaque.
    pub open spec fn outcome(self) -> SignUpOutcome {
        match self {
            SignUpFailure::Validation => SignUpOutcome::BadRequest,
            _ => SignUpOutcome::InternalError,
        }
    }

    /// Maps the failure to the outcome reported to the submitter.
    pub fn to_outcome(&self) -> (outcome: SignUpOutcome)
        ensures
            outcome == self.outcome(),
    {
        match self {
            SignUpFailure::Validation => SignUpOutcome::BadRequest,
            _ => SignUpOutcome::InternalError,
        }
    }
}

/// How far a sign-up has come.
#[derive(Debug)]
pub enum SignUpState {
    /// Nothing has been submitted.
    NoRecord,
    /// The request is valid; the store has been asked for a pending subscriber.
    StoringSubscriber { subscriber: Subscriber },
    /// The subscriber is pending; the store has been asked to keep its token.
    StoringToken { subscriber: Subscriber, subscriber_id: SubscriberId, token: String },
    /// Subscriber and token are kept; the notifier has been asked to send.
    Notifying { subscriber_id: SubscriberId },
    /// Every step succeeded.
    Accepted,
    /// A step failed, and no later step was taken.
    Failed(SignUpFailure),
}

/// What a collaborator reports back to a sign-up.
#[derive(Debug)]
pub enum SignUpEvent {
    /// A submission arrived, with its form if the body held every field.
    Submitted(Option<SubscriberCreateRequest>),
    /// The store answered the request for a pending subscriber.
    SubscriberStored(Result<SubscriberId, StoreError>),
    /// The store answered the request to keep the token.
    TokenStored(Result<(), StoreError>),
    /// The notifier answered the request to send the confirmation email.
    ConfirmationSent(Result<(), NotifierFailure>),
}

/// What a sign-up asks of its collaborators next.
#[derive(Debug)]
pub enum SignUpAction {
    /// Ask the store for a new subscriber in status `pending_confirmation`.
    InsertPendingSubscriber { name: String, email: String },
    /// Ask the store to keep `token` for the subscriber.
    InsertToken { token: String, subscriber_id: SubscriberId },
    /// Ask the notifier to send the email.
    SendConfirmation(ConfirmationEmail),
    /// Answer the submitter; the sign-up is over.
    Respond(SignUpOutcome),
}

/// A sign-up's progress over texts.
pub enum SignUpStateView {
    NoRecord,
    StoringSubscriber { subscriber: SubscriberView },
    StoringToken { subscriber: SubscriberView, subscriber_id: SubscriberId, token: Seq<char> },
    Notifying { subscriber_id: SubscriberId },
    Accepted,
    Failed(SignUpFailure),
}

/// A sign-up's event over texts.
pub enum SignUpEventView {
    Submitted(Option<SubscriberCreateRequestView>),
    SubscriberStored(Result<SubscriberId, StoreError>),
    TokenStored(Result<(), StoreError>),
    ConfirmationSent(Result<(), NotifierFailure>),
}

/// A sign-up's action over texts.
pub enum SignUpActionView {
    InsertPendingSubscriber { name: Seq<char>, email: Seq<char> },
    InsertToken { token: Seq<char>, subscriber_id: SubscriberId },
    SendConfirmation(ConfirmationEmailView),
    Respond(SignUpOutcome),
}

impl View for SignUpState {
    type V = SignUpStateView;

    open spec fn view(&self) -> SignUpStateView {
        match *self {
            SignUpState::NoRecord => SignUpStateView::NoRecord,
            SignUpState::StoringSubscriber { subscriber } => SignUpStateView::StoringSubscriber {
                subscriber: subscriber@,
            },
            SignUpState::StoringToken {
                subscriber,
                subscriber_id,
                token,
            } => SignUpStateView::StoringToken {
                subscriber: subscriber@,
                subscriber_id,
                token: token@,
            },
            SignUpState::Notifying { subscriber_id } => SignUpStateView::Notifying {
                subscriber_id,
            },
            SignUpState::Accepted => SignUpStateView::Accepted,
            SignUpState::Failed(failure) => SignUpStateView::Failed(failure),
        }
    }
}

impl View for SignUpEvent {
    type V = SignUpEventView;

    open spec fn view(&self) -> SignUpEventView {
        match *self {
            SignUpEvent::Submitted(Some(request)) => SignUpEventView::Submitted(Some(request@)),
            SignUpEvent::Submitted(None) => SignUpEventView::Submitted(None),
            SignUpEvent::SubscriberStored(answer) => SignUpEventView::SubscriberStored(answer),
            SignUpEvent::TokenStored(answer) => SignUpEventView::TokenStored(answer),
            SignUpEvent::ConfirmationSent(answer) => SignUpEventView::ConfirmationSent(answer),
        }
    }
}

impl View for SignUpAction {
    type V = SignUpActionView;

    open spec fn view(&self) -> SignUpActionView {
        match *self {
            SignUpAction::InsertPendingSubscriber {
                name,
                email,
            } => SignUpActionView::InsertPendingSubscriber { name: name@, email: email@ },
            SignUpAction::InsertToken { token, subscriber_id } => SignUpActionView::InsertToken {
                token: token@,
                subscriber_id,
            },
            SignUpAction::SendConfirmation(email) => SignUpActionView::SendConfirmation(email@),
            SignUpAction::Respond(outcome) => SignUpActionView::Respond(outcome),
        }
    }
}

/// Where a sign-up ends when `failure` stops it: in the failed state, with
/// the answer to the submitter as the only thing left to do.
pub open spec fn stop(failure: SignUpFailure) -> (SignUpStateView, SignUpActionView) {
    (SignUpStateView::Failed(failure), SignUpActionView::Respond(failure.outcome()))
}

/// The sign-up protocol: the state that follows `state` on `event`, and what
/// to ask for next.
///
/// The steps run in a fixed order, each only after the one before succeeded:
/// validate, persist the pending subscriber, issue and persist `token`, send
/// the confirmation email that links back below `base_url`. The first failure
/// ends the sign-up; nothing is retried or undone. A finished sign-up repeats
/// its answer whatever arrives.
pub open spec fn sign_up(
    state: SignUpStateView,
    event: SignUpEventView,
    base_url: Seq<char>,
    token: Seq<char>,
) -> (SignUpStateView, SignUpActionView) {
    match state {
        SignUpStateView::NoRecord => match event {
            SignUpEventView::Submitted(Some(request)) => match validated(
                request.name,
                request.email,
            ) {
                Ok(subscriber) => (
                    SignUpStateView::StoringSubscriber { subscriber },
                    SignUpActionView::InsertPendingSubscriber {
                        name: subscriber.name,
                        email: subscriber.email,
                    },
                ),
                Err(_) => stop(SignUpFailure::Validation),
            },
            SignUpEventView::Submitted(None) => stop(SignUpFailure::Validation),
            _ => stop(SignUpFailure::OutOfOrder),
        },
        SignUpStateView::StoringSubscriber { subscriber } => match event {
            SignUpEventView::SubscriberStored(Ok(subscriber_id)) => (
                SignUpStateView::StoringToken { subscriber, subscriber_id, token },
                SignUpActionView::InsertToken { token, subscriber_id },
            ),
            SignUpEventView::SubscriberStored(Err(error)) => stop(
                SignUpFailure::SubscriberNotStored(error),
            ),
            _ => stop(SignUpFailure::OutOfOrder),
        },
        SignUpStateView::StoringToken { subscriber, subscriber_id, token: issued } => match event {
            SignUpEventView::TokenStored(Ok(_)) => (
                SignUpStateView::Notifying { subscriber_id },
                SignUpActionView::SendConfirmation(
                    confirmation_email_of(subscriber.email, base_url, issued),
                ),
            ),
            SignUpEventView::TokenStored(Err(error)) => stop(SignUpFailure::TokenNotStored(error)),
            _ => stop(SignUpFailure::OutOfOrder),
        },
        SignUpStateView::Notifying { subscriber_id } => match event {
            SignUpEventView::ConfirmationSent(Ok(_)) => (
                SignUpStateView::Accepted,
                SignUpActionView::Respond(SignUpOutcome::Accepted),
            ),
            SignUpEventView::ConfirmationSent(Err(failure)) => stop(
                SignUpFailure::NotNotified(failure),
            ),
            _ => stop(SignUpFailure::OutOfOrder),
        },
        SignUpStateView::Accepted => (
            SignUpStateView::Accepted,
            SignUpActionView::Respond(SignUpOutcome::Accepted),
        ),
        SignUpStateView::Failed(failure) => stop(failure),
    }
}

/// Whether the step from `state` on `event` is the one that issues a token.
pub open spec fn issues_token(state: SignUpStateView, event: SignUpEventView) -> bool {
    state is StoringSubscriber && event matches SignUpEventView::SubscriberStored(Ok(_))
}

/// Ends a sign-up on `failure`.
fn stop_on(failure: SignUpFailure) -> (r: (SignUpState, SignUpAction))
    ensures
        (r.0@, r.1@) == stop(failure),
{
    let outcome = failure.to_outcome();
    (SignUpState::Failed(failure), SignUpAction::Respond(outcome))
}

/// Takes one step of a sign-up, issuing `token` if the step is the one that
/// issues a token.
pub fn sign_up_step_with_token(
    state: SignUpState,
    event: SignUpEvent,
    base_url: &str,
    token: String,
) -> (r: (SignUpState, SignUpAction))
    ensures
        (r.0@, r.1@) == sign_up(state@, event@, base_url@, token@),
{
    match state {
        SignUpState::NoRecord => match event {
            SignUpEvent::Submitted(Some(request)) => match Subscriber::try_from(request) {
                Ok(subscriber) => {
                    let name = String::from_str(subscriber.name.as_ref());
                    let email = String::from_str(subscriber.email.as_ref());
                    (
                        SignUpState::StoringSubscriber { subscriber },
                        SignUpAction::InsertPendingSubscriber { name, email },
                    )
                },
                Err(_) => stop_on(SignUpFailure::Validation),
            },
            SignUpEvent::Submitted(None) => stop_on(SignUpFailure::Validation),
            _ => stop_on(SignUpFailure::OutOfOrder),
        },
        SignUpState::StoringSubscriber { subscriber } => match event {
            SignUpEvent::SubscriberStored(Ok(subscriber_id)) => {
                let issued = token.clone();
                (
                    SignUpState::StoringToken { subscriber, subscriber_id, token },
                    SignUpAction::InsertToken { token: issued, subscriber_id },
                )
            },
            SignUpEvent::SubscriberStored(Err(error)) => stop_on(
                SignUpFailure::SubscriberNotStored(error),
            ),
            _ => stop_on(SignUpFailure::OutOfOrder),
        },
        SignUpState::StoringToken { subscriber, subscriber_id, token: issued } => match event {
            SignUpEvent::TokenStored(Ok(_)) => (
                SignUpState::Notifying { subscriber_id },
                SignUpAction::SendConfirmation(
                    confirmation_email(subscriber.email, base_url, issued.as_str()),
                ),
            ),
            SignUpEvent::TokenStored(Err(error)) => stop_on(SignUpFailure::TokenNotStored(error)),
            _ => stop_on(SignUpFailure::OutOfOrder),
        },
        SignUpState::Notifying { subscriber_id } => match event {
            SignUpEvent::ConfirmationSent(Ok(_)) => (
                SignUpState::Accepted,
                SignUpAction::Respond(SignUpOutcome::Accepted),
            ),
            SignUpEvent::ConfirmationSent(Err(failure)) => stop_on(
                SignUpFailure::NotNotified(failure),
            ),
            _ => stop_on(SignUpFailure::OutOfOrder),
        },
        SignUpState::Accepted => (
            SignUpState::Accepted,
            SignUpAction::Respond(SignUpOutcome::Accepted),
        ),
        SignUpState::Failed(failure) => stop_on(failure),
    }
}

impl SignUpState {
    /// The state of a sign-up before anything is submitted.
    pub fn start() -> (state: SignUpState)
        ensures
            state@ == SignUpStateView::NoRecord,
    {
        SignUpState::NoRecord
    }

    /// The outcome of a finished sign-up; `None` while a step is pending.
    pub fn outcome(&self) -> (outcome: Option<SignUpOutcome>)
        ensures
            outcome == finished_sign_up(self@),
    {
        match self {
            SignUpState::Accepted => Some(SignUpOutcome::Accepted),
            SignUpState::Failed(failure) => Some(failure.to_outcome()),
            _ => None,
        }
    }
}

/// The outcome that a finished sign-up has reached.
pub open spec fn finished_sign_up(state: SignUpStateView) -> Option<SignUpOutcome> {
    match state {
        SignUpStateView::Accepted => Some(SignUpOutcome::Accepted),
        SignUpStateView::Failed(failure) => Some(failure.outcome()),
        _ => None,
    }
}

/// Decides whether the step from `state` on `event` issues a token.
fn is_issuing(state: &SignUpState, event: &SignUpEvent) -> (issuing: bool)
    ensures
        issuing == issues_token(state@, event@),
{
    match state {
        SignUpState::StoringSubscriber { .. } => match event {
            SignUpEvent::SubscriberStored(Ok(_)) => true,
            _ => false,
        },
        _ => false,
    }
}

/// Takes one step of a sign-up: moves `state` on by `event` and says what to
/// ask for next. The step that follows the storing of the subscriber issues
/// a fresh token; every other step is fully determined by its arguments.
pub fn sign_up_step(state: SignUpState, event: SignUpEvent, base_url: &str) -> (r: (
    SignUpState,
    SignUpAction,
))
    ensures
        exists|token: Seq<char>|
            is_subscription_token(token) && (r.0@, r.1@) == #[trigger] sign_up(
                state@,
                event@,
                base_url@,
                token,
            ),
{
    let issuing = is_issuing(&state, &event);
    let token = if issuing {
        generate_subscription_token()
    } else {
        String::new()
    };
    let r = sign_up_step_with_token(state, event, base_url, token);
    proof {
        if !issuing {
            let spare = Seq::new(TOKEN_LENGTH as nat, |i: int| 'a');
            assert(is_subscription_token(spare));
            assert(sign_up(state@, event@, base_url@, spare) == sign_up(
                state@,
                event@,
                base_url@,
                token@,
            ));
        }
    }
    r
}

/// A finished sign-up stays as it is and repeats its answer, whatever
/// arrives: after the first failure no further step is taken.
pub proof fn finished_sign_up_repeats_its_answer(
    state: SignUpStateView,
    event: SignUpEventView,
    base_url: Seq<char>,
    token: Seq<char>,
)
    requires
        finished_sign_up(state) is Some,
    ensures
        sign_up(state, event, base_url, token) == (
            state,
            SignUpActionView::Respond(finished_sign_up(state)->0),
        ),
{
}

/// The steps of a sign-up keep their order. The store is asked for a
/// subscriber only on a valid submission; for the token only once it has
/// stored the subscriber; and the notifier is called only once the store has
/// stored the token, with the email for that token. A sign-up answers
/// exactly when it is over, and with the outcome it has reached.
pub proof fn sign_up_steps_keep_their_order(
    state: SignUpStateView,
    event: SignUpEventView,
    base_url: Seq<char>,
    token: Seq<char>,
)
    ensures
        ({
            let (next, action) = sign_up(state, event, base_url, token);
            &&& action matches SignUpActionView::InsertPendingSubscriber { name, email } ==> {
                &&& state is NoRecord
                &&& event matches SignUpEventView::Submitted(Some(request))
                &&& validated(request.name, request.email) == Ok::<SubscriberView, Seq<char>>(
                    SubscriberView { name, email },
                )
                &&& next is StoringSubscriber
            }
            &&& action matches SignUpActionView::InsertToken { token: issued, subscriber_id } ==> {
                &&& state is StoringSubscriber
                &&& event == SignUpEventView::SubscriberStored(Ok(subscriber_id))
                &&& issued == token
                &&& next is StoringToken
            }
            &&& action matches SignUpActionView::SendConfirmation(email) ==> {
                &&& state matches SignUpStateView::StoringToken { subscriber, token: issued, .. }
                &&& event is TokenStored
                &&& event->TokenStored_0 is Ok
                &&& email == confirmation_email_of(subscriber.email, base_url, issued)
                &&& next is Notifying
            }
            &&& action is Respond <==> finished_sign_up(next) is Some
            &&& action matches SignUpActionView::Respond(outcome) ==> finished_sign_up(next)
                == Some(outcome)
        }),
{
}

/// Only the step that issues the token depends on which token the generator
/// gives.
pub proof fn only_the_issuing_step_reads_the_token(
    state: SignUpStateView,
    event: SignUpEventView,
    base_url: Seq<char>,
    token: Seq<char>,
    other: Seq<char>,
)
    requires
        !issues_token(state, event),
    ensures
        sign_up(state, event, base_url, token) == sign_up(state, event, base_url, other),
{
}

} // verus!
