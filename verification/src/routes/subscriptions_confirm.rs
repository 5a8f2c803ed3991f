//! Confirming: from a followed confirmation link to a confirmed subscriber.

use crate::store::{StoreError, SubscriberId};
use vstd::prelude::*;

verus! {

/// The query parameters of a confirmation link.
#[derive(Debug)]
pub struct Parameters {
    pub subscription_token: String,
}

/// How a confirmation ends, as the caller learns it.
#[derive(Clone, Copy, Debug, PartialEq, Eq, Structural)]
pub enum ConfirmOutcome {
    /// The token's subscriber is confirmed, now or since earlier.
    Confirmed,
    /// The request carried no token.
    BadRequest,
    /// No subscriber is known by the token.
    Unauthorized,
    /// The store failed.
    InternalError,
}

impl ConfirmOutcome {
    /// The HTTP status that reports the outcome.
    pub open spec fn status(self) -> u16 {
        match self {
            ConfirmOutcome::Confirmed => 200,
            ConfirmOutcome::BadRequest => 400,
            ConfirmOutcome::Unauthorized => 401,
            ConfirmOutcome::InternalError => 500,
        }
    }

    /// The HTTP status that reports the outcome.
    pub fn status_code(&self) -> (code: u16)
        ensures
            code == self.status(),
    {
        match self {
            ConfirmOutcome::Confirmed => 200,
            ConfirmOutcome::BadRequest => 400,
            ConfirmOutcome::Unauthorized => 401,
            ConfirmOutcome::InternalError => 500,
        }
    }
}

/// The step at which a confirmation failed.
#[derive(Clone, Copy, Debug, PartialEq, Eq, Structural)]
pub enum ConfirmFailure {
    /// The request carried no token.
    MissingToken,
    /// The store knows no subscriber by the token.
    TokenNotFound,
    /// The store failed while looking the token up.
    LookupFailed(StoreError),
    /// The store failed while marking the subscriber confirmed.
    NotMarked(StoreError),
    /// An event arrived that the step in progress was not waiting for.
    OutOfOrder,
}

impl ConfirmFailure {
    /// What the caller learns of the failure.
    pub open spec fn outcome(self) -> ConfirmOutcome {
        match self {
            ConfirmFailure::MissingToken => ConfirmOutcome::BadRequest,
            ConfirmFailure::TokenNotFound => ConfirmOutcome::Unauthorized,
            _ => ConfirmOutcome::InternalError,
        }
    }

    /// Maps the failure to the outcome reported to the caller.
    pub fn to_outcome(&self) -> (outcome: ConfirmOutcome)
        ensures
            outcome == self.outcome(),
    {
        match self {
            ConfirmFailure::MissingToken => ConfirmOutcome::BadRequest,
            ConfirmFailure::TokenNotFound => ConfirmOutcome::Unauthorized,
            _ => ConfirmOutcome::InternalError,
        }
    }
}

/// How far a confirmation has come.
#[derive(Clone, Copy, Debug, PartialEq, Eq, Structural)]
pub enum ConfirmState {
    /// No request has arrived.
    Idle,
    /// The store has been asked whose token it is.
    LookingUp,
    /// The store has been asked to mark the subscriber confirmed.
    Marking { subscriber_id: SubscriberId },
    /// The subscriber is confirmed.
    Confirmed { subscriber_id: SubscriberId },
    /// A step failed, and no later step was taken.
    Failed(ConfirmFailure),
}

/// What a collaborator reports back to a confirmation.
#[derive(Debug)]
pub enum ConfirmEvent {
    /// The request arrived, with its parameters if it carried a token.
    Requested(Option<Parameters>),
    /// The store answered the lookup: the token's subscriber, if any.
    LookedUp(Result<Option<SubscriberId>, StoreError>),
    /// The store answered the request to mark the subscriber confirmed.
    Marked(Result<(), StoreError>),
}

/// What a confirmation asks of its collaborators next.
#[derive(Debug)]
pub enum ConfirmAction {
    /// Ask the store whose token this is.
    FindSubscriberIdByToken { token: String },
    /// Ask the store to mark the subscriber confirmed.
    MarkConfirmed { subscriber_id: SubscriberId },
    /// Answer the caller; the confirmation is over.
    Respond(ConfirmOutcome),
}

/// A confirmation's event over texts.
pub enum ConfirmEventView {
    Requested(Option<Seq<char>>),
    LookedUp(Result<Option<SubscriberId>, StoreError>),
    Marked(Result<(), StoreError>),
}

/// A confirmation's action over texts.
pub enum ConfirmActionView {
    FindSubscriberIdByToken { token: Seq<char> },
    MarkConfirmed { subscriber_id: SubscriberId },
    Respond(ConfirmOutcome),
}

impl View for ConfirmEvent {
    type V = ConfirmEventView;

    open spec fn view(&self) -> ConfirmEventView {
        match *self {
            ConfirmEvent::Requested(Some(parameters)) => ConfirmEventView::Requested(
                Some(parameters.subscription_token@),
            ),
            ConfirmEvent::Requested(None) => ConfirmEventView::Requested(None),
            ConfirmEvent::LookedUp(answer) => ConfirmEventView::LookedUp(answer),
            ConfirmEvent::Marked(answer) => ConfirmEventView::Marked(answer),
        }
    }
}

impl View for ConfirmAction {
    type V = ConfirmActionView;

    open spec fn view(&self) -> ConfirmActionView {
        match *self {
            ConfirmAction::FindSubscriberIdByToken {
                token,
            } => ConfirmActionView::FindSubscriberIdByToken { token: token@ },
            ConfirmAction::MarkConfirmed { subscriber_id } => ConfirmActionView::MarkConfirmed {
                subscriber_id,
            },
            ConfirmAction::Respond(outcome) => ConfirmActionView::Respond(outcome),
        }
    }
}

/// Where a confirmation ends when `failure` stops it.
pub open spec fn stop(failure: ConfirmFailure) -> (ConfirmState, ConfirmActionView) {
    (ConfirmState::Failed(failure), ConfirmActionView::Respond(failure.outcome()))
}

/// The confirmation protocol: the state that follows `state` on `event`, and
/// what to ask for next.
///
/// The token is looked up, and its subscriber, if there is one, is marked
/// confirmed. The subscriber's present status is never read and the token is
/// never withdrawn, so a token confirms as often as it is presented. A
/// finished confirmation repeats its answer whatever arrives.
pub open spec fn confirm(state: ConfirmState, event: ConfirmEventView) -> (
    ConfirmState,
    ConfirmActionView,
) {
    match state {
        ConfirmState::Idle => match event {
            ConfirmEventView::Requested(Some(token)) => (
                ConfirmState::LookingUp,
                ConfirmActionView::FindSubscriberIdByToken { token },
            ),
            ConfirmEventView::Requested(None) => stop(ConfirmFailure::MissingToken),
            _ => stop(ConfirmFailure::OutOfOrder),
        },
        ConfirmState::LookingUp => match event {
            ConfirmEventView::LookedUp(Ok(Some(subscriber_id))) => (
                ConfirmState::Marking { subscriber_id },
                ConfirmActionView::MarkConfirmed { subscriber_id },
            ),
            ConfirmEventView::LookedUp(Ok(None)) => stop(ConfirmFailure::TokenNotFound),
            ConfirmEventView::LookedUp(Err(error)) => stop(ConfirmFailure::LookupFailed(error)),
            _ => stop(ConfirmFailure::OutOfOrder),
        },
        ConfirmState::Marking { subscriber_id } => match event {
            ConfirmEventView::Marked(Ok(_)) => (
                ConfirmState::Confirmed { subscriber_id },
                ConfirmActionView::Respond(ConfirmOutcome::Confirmed),
            ),
            ConfirmEventView::Marked(Err(error)) => stop(ConfirmFailure::NotMarked(error)),
            _ => stop(ConfirmFailure::OutOfOrder),
        },
        ConfirmState::Confirmed { subscriber_id } => (
            ConfirmState::Confirmed { subscriber_id },
            ConfirmActionView::Respond(ConfirmOutcome::Confirmed),
        ),
        ConfirmState::Failed(failure) => stop(failure),
    }
}

/// The outcome that a finished confirmation has reached.
pub open spec fn finished_confirmation(state: ConfirmState) -> Option<ConfirmOutcome> {
    match state {
        ConfirmState::Confirmed { .. } => Some(ConfirmOutcome::Confirmed),
        ConfirmState::Failed(failure) => Some(failure.outcome()),
        _ => None,
    }
}

impl ConfirmState {
    /// The state of a confirmation before its request arrives.
    pub fn start() -> (state: ConfirmState)
        ensures
            state == ConfirmState::Idle,
    {
        ConfirmState::Idle
    }

    /// The outcome of a finished confirmation; `None` while a step is pending.
    pub fn outcome(&self) -> (outcome: Option<ConfirmOutcome>)
        ensures
            outcome == finished_confirmation(*self),
    {
        match self {
            ConfirmState::Confirmed { .. } => Some(ConfirmOutcome::Confirmed),
            ConfirmState::Failed(failure) => Some(failure.to_outcome()),
            _ => None,
        }
    }
}

/// Ends a confirmation on `failure`.
fn stop_on(failure: ConfirmFailure) -> (r: (ConfirmState, ConfirmAction))
    ensures
        (r.0, r.1@) == stop(failure),
{
    let outcome = failure.to_outcome();
    (ConfirmState::Failed(failure), ConfirmAction::Respond(outcome))
}

/// Takes one step of a confirmation: moves `state` on by `event` and says
/// what to ask for next.
pub fn confirm_step(state: ConfirmState, event: ConfirmEvent) -> (r: (ConfirmState, ConfirmAction))
    ensures
        (r.0, r.1@) == confirm(state, event@),
{
    match state {
        ConfirmState::Idle => match event {
            ConfirmEvent::Requested(Some(parameters)) => (
                ConfirmState::LookingUp,
                ConfirmAction::FindSubscriberIdByToken { token: parameters.subscription_token },
            ),
            ConfirmEvent::Requested(None) => stop_on(ConfirmFailure::MissingToken),
            _ => stop_on(ConfirmFailure::OutOfOrder),
        },
        ConfirmState::LookingUp => match event {
            ConfirmEvent::LookedUp(Ok(Some(subscriber_id))) => (
                ConfirmState::Marking { subscriber_id },
                ConfirmAction::MarkConfirmed { subscriber_id },
            ),
            ConfirmEvent::LookedUp(Ok(None)) => stop_on(ConfirmFailure::TokenNotFound),
            ConfirmEvent::LookedUp(Err(error)) => stop_on(ConfirmFailure::LookupFailed(error)),
            _ => stop_on(ConfirmFailure::OutOfOrder),
        },
        ConfirmState::Marking { subscriber_id } => match event {
            ConfirmEvent::Marked(Ok(_)) => (
                ConfirmState::Confirmed { subscriber_id },
                ConfirmAction::Respond(ConfirmOutcome::Confirmed),
            ),
            ConfirmEvent::Marked(Err(error)) => stop_on(ConfirmFailure::NotMarked(error)),
            _ => stop_on(ConfirmFailure::OutOfOrder),
        },
        ConfirmState::Confirmed { subscriber_id } => (
            ConfirmState::Confirmed { subscriber_id },
            ConfirmAction::Respond(ConfirmOutcome::Confirmed),
        ),
        ConfirmState::Failed(failure) => stop_on(failure),
    }
}

/// A finished confirmation stays as it is and repeats its answer, whatever
/// arrives.
pub proof fn finished_confirmation_repeats_its_answer(state: ConfirmState, event: ConfirmEventView)
    requires
        finished_confirmation(state) is Some,
    ensures
        confirm(state, event) == (
            state,
            ConfirmActionView::Respond(finished_confirmation(state)->0),
        ),
{
}

/// The steps of a confirmation keep their order. The store is asked to look
/// up exactly the token that the request carried, and to mark confirmed
/// exactly the subscriber that the lookup found. A confirmation answers
/// exactly when it is over, and with the outcome it has reached.
pub proof fn confirm_steps_keep_their_order(state: ConfirmState, event: ConfirmEventView)
    ensures
        ({
            let (next, action) = confirm(state, event);
            &&& action matches ConfirmActionView::FindSubscriberIdByToken { token } ==> {
                &&& state is Idle
                &&& event == ConfirmEventView::Requested(Some(token))
                &&& next is LookingUp
            }
            &&& action matches ConfirmActionView::MarkConfirmed { subscriber_id } ==> {
                &&& state is LookingUp
                &&& event == ConfirmEventView::LookedUp(Ok(Some(subscriber_id)))
                &&& next == ConfirmState::Marking { subscriber_id }
            }
            &&& action is Respond <==> finished_confirmation(next) is Some
            &&& action matches ConfirmActionView::Respond(outcome) ==> finished_confirmation(next)
                == Some(outcome)
        }),
{
}

} // verus!
