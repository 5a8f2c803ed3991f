//! The two flows played from end to end against a store and a notifier that
//! work, or fail where they are told to, and what then holds of the outcome.

use crate::domain::subscriber::validated;
use crate::email_client::NotifierFailure;
use crate::routes::subscriptions::{
    confirmation_email_of, confirmation_link_of, finished_sign_up, html_body_of, sign_up,
    text_body_of, ConfirmationEmailView, SignUpActionView, SignUpEventView, SignUpFailure,
    SignUpOutcome, SignUpStateView, SubscriberCreateRequestView,
};
use crate::routes::subscriptions_confirm::{
    confirm, finished_confirmation, ConfirmActionView, ConfirmEventView, ConfirmFailure,
    ConfirmOutcome, ConfirmState,
};
use crate::store::{
    extends, mark_confirmed_is_idempotent, StoreError, StoreModel, SubscriberId, SubscriberRecord,
    SubscriberStatus,
};
use vstd::prelude::*;

verus! {

/// What the flows act on: the store, and the emails that the notifier has
/// sent, oldest first.
pub struct World {
    pub store: StoreModel,
    pub outbox: Seq<ConfirmationEmailView>,
}

/// Which requests of one flow fail for reasons of their own, and how. A
/// request that fails so leaves no trace.
pub struct Faults {
    /// The store fails to insert the subscriber.
    pub subscriber_insert: Option<StoreError>,
    /// The store fails to insert the token.
    pub token_insert: Option<StoreError>,
    /// The notifier fails to send.
    pub notifier: Option<NotifierFailure>,
    /// The store fails to look the token up.
    pub lookup: Option<StoreError>,
    /// The store fails to mark the subscriber confirmed.
    pub mark: Option<StoreError>,
}

impl Faults {
    /// Nothing fails.
    pub open spec fn none() -> Faults {
        Faults {
            subscriber_insert: None,
            token_insert: None,
            notifier: None,
            lookup: None,
            mark: None,
        }
    }
}

/// Carries out what a sign-up asks for, unless `faults` has the request
/// fail, and reports back. The store keeps a new subscriber under `fresh_id`.
pub open spec fn perform_sign_up_action(
    world: World,
    action: SignUpActionView,
    fresh_id: SubscriberId,
    faults: Faults,
) -> (World, Option<SignUpEventView>) {
    match action {
        SignUpActionView::InsertPendingSubscriber {
            name,
            email,
        } => match faults.subscriber_insert {
            Some(error) => (world, Some(SignUpEventView::SubscriberStored(Err(error)))),
            None => match world.store.insert_pending_subscriber(fresh_id, name, email) {
                Ok(store) => (
                    World { store, outbox: world.outbox },
                    Some(SignUpEventView::SubscriberStored(Ok(fresh_id))),
                ),
                Err(error) => (world, Some(SignUpEventView::SubscriberStored(Err(error)))),
            },
        },
        SignUpActionView::InsertToken { token, subscriber_id } => match faults.token_insert {
            Some(error) => (world, Some(SignUpEventView::TokenStored(Err(error)))),
            None => match world.store.insert_token(token, subscriber_id) {
                Ok(store) => (
                    World { store, outbox: world.outbox },
                    Some(SignUpEventView::TokenStored(Ok(()))),
                ),
                Err(error) => (world, Some(SignUpEventView::TokenStored(Err(error)))),
            },
        },
        SignUpActionView::SendConfirmation(email) => match faults.notifier {
            Some(failure) => (world, Some(SignUpEventView::ConfirmationSent(Err(failure)))),
            None => (
                World { store: world.store, outbox: world.outbox.push(email) },
                Some(SignUpEventView::ConfirmationSent(Ok(()))),
            ),
        },
        SignUpActionView::Respond(_) => (world, None),
    }
}

/// Plays a sign-up on from `state` and `event` until it answers, for at most
/// `steps` further steps.
pub open spec fn play_sign_up(
    world: World,
    state: SignUpStateView,
    event: SignUpEventView,
    base_url: Seq<char>,
    fresh_id: SubscriberId,
    token: Seq<char>,
    faults: Faults,
    steps: nat,
) -> (World, SignUpStateView)
    decreases steps,
{
    let (next, action) = sign_up(state, event, base_url, token);
    let (after, report) = perform_sign_up_action(world, action, fresh_id, faults);
    match report {
        Some(reported) if steps > 0 => play_sign_up(
            after,
            next,
            reported,
            base_url,
            fresh_id,
            token,
            faults,
            (steps - 1) as nat,
        ),
        _ => (after, next),
    }
}

/// A whole sign-up: `request` is submitted to a service that links back
/// below `base_url`, whose store would keep a new subscriber under `fresh_id`
/// and whose generator would issue `token`.
pub open spec fn sign_up_in(
    world: World,
    request: Option<SubscriberCreateRequestView>,
    base_url: Seq<char>,
    fresh_id: SubscriberId,
    token: Seq<char>,
    faults: Faults,
) -> (World, SignUpStateView) {
    play_sign_up(
        world,
        SignUpStateView::NoRecord,
        SignUpEventView::Submitted(request),
        base_url,
        fresh_id,
        token,
        faults,
        4,
    )
}

/// Carries out what a confirmation asks for, unless `faults` has the request
/// fail, and reports back.
pub open spec fn perform_confirm_action(
    store: StoreModel,
    action: ConfirmActionView,
    faults: Faults,
) -> (StoreModel, Option<ConfirmEventView>) {
    match action {
        ConfirmActionView::FindSubscriberIdByToken { token } => match faults.lookup {
            Some(error) => (store, Some(ConfirmEventView::LookedUp(Err(error)))),
            None => (
                store,
                Some(ConfirmEventView::LookedUp(Ok(store.find_subscriber_id_by_token(token)))),
            ),
        },
        ConfirmActionView::MarkConfirmed { subscriber_id } => match faults.mark {
            Some(error) => (store, Some(ConfirmEventView::Marked(Err(error)))),
            None => (store.mark_confirmed(subscriber_id), Some(ConfirmEventView::Marked(Ok(())))),
        },
        ConfirmActionView::Respond(_) => (store, None),
    }
}

/// Plays a confirmation on from `state` and `event` until it answers, for at
/// most `steps` further steps.
pub open spec fn play_confirm(
    store: StoreModel,
    state: ConfirmState,
    event: ConfirmEventView,
    faults: Faults,
    steps: nat,
) -> (StoreModel, ConfirmState)
    decreases steps,
{
    let (next, action) = confirm(state, event);
    let (after, report) = perform_confirm_action(store, action, faults);
    match report {
        Some(reported) if steps > 0 => play_confirm(
            after,
            next,
            reported,
            faults,
            (steps - 1) as nat,
        ),
        _ => (after, next),
    }
}

/// A whole confirmation: a request that carries `token`, or none.
pub open spec fn confirm_in(store: StoreModel, token: Option<Seq<char>>, faults: Faults) -> (
    StoreModel,
    ConfirmState,
) {
    play_confirm(store, ConfirmState::Idle, ConfirmEventView::Requested(token), faults, 2)
}

/// Whether `needle` stands in `text` from position `at`.
pub open spec fn occurs_at(text: Seq<char>, needle: Seq<char>, at: int) -> bool {
    &&& 0 <= at
    &&& at + needle.len() <= text.len()
    &&& text.subrange(at, at + needle.len()) == needle
}

/// Whether `needle` stands somewhere in `text`.
pub open spec fn occurs_in(text: Seq<char>, needle: Seq<char>) -> bool {
    exists|at: int| occurs_at(text, needle, at)
}

/// Whether the store and the notifier do all that a sign-up asks of them.
pub open spec fn sign_up_unhindered(faults: Faults) -> bool {
    faults.subscriber_insert is None && faults.token_insert is None && faults.notifier is None
}

/// Whether the store does all that a confirmation asks of it.
pub open spec fn confirm_unhindered(faults: Faults) -> bool {
    faults.lookup is None && faults.mark is None
}

/// The store with one more subscriber, pending confirmation.
pub open spec fn with_pending(
    store: StoreModel,
    id: SubscriberId,
    request: SubscriberCreateRequestView,
) -> Map<SubscriberId, SubscriberRecord> {
    store.subscribers.insert(
        id,
        SubscriberRecord {
            name: request.name,
            email: request.email,
            status: SubscriberStatus::PendingConfirmation,
        },
    )
}

/// The HTML body and the plain-text body of a confirmation email hold the
/// same confirmation link, the one made of the base address and the token.
pub proof fn both_bodies_hold_the_link(recipient: Seq<char>, base_url: Seq<char>, token: Seq<char>)
    ensures
        occurs_in(
            confirmation_email_of(recipient, base_url, token).html_body,
            confirmation_link_of(base_url, token),
        ),
        occurs_in(
            confirmation_email_of(recipient, base_url, token).text_body,
            confirmation_link_of(base_url, token),
        ),
        occurs_in(confirmation_link_of(base_url, token), token),
{
    let link = confirmation_link_of(base_url, token);
    let html_lead = "Welcome to our newsletter! <br /> Please click <a href=\""@;
    let text_lead = "Welcome to our newsletter!\n Visit "@;
    let html = html_body_of(link);
    let text = text_body_of(link);
    let h = html_lead.len() as int;
    assert(html.subrange(h, h + link.len()) =~= link);
    assert(occurs_at(html, link, h));
    let t = text_lead.len() as int;
    assert(text.subrange(t, t + link.len()) =~= link);
    assert(occurs_at(text, link, t));
    let l = (base_url + "/subscriptions/confirm?subscription_token="@).len() as int;
    assert(link.subrange(l, l + token.len()) =~= token);
    assert(occurs_at(link, token, l));
}

/// A valid request from an address that the store does not hold yet is
/// accepted. The store then keeps one more subscriber, pending confirmation
/// under the submitted name and email, and the token for it; the notifier has
/// sent exactly one more email, the confirmation for that token.
pub proof fn valid_sign_up_is_accepted(
    world: World,
    request: SubscriberCreateRequestView,
    base_url: Seq<char>,
    fresh_id: SubscriberId,
    token: Seq<char>,
    faults: Faults,
)
    requires
        validated(request.name, request.email) is Ok,
        !world.store.holds_email(request.email),
        !world.store.knows(fresh_id),
        !world.store.tokens.dom().contains(token),
        sign_up_unhindered(faults),
    ensures
        ({
            let (after, state) = sign_up_in(
                world,
                Some(request),
                base_url,
                fresh_id,
                token,
                faults,
            );
            &&& state == SignUpStateView::Accepted
            &&& after.store.subscribers == with_pending(world.store, fresh_id, request)
            &&& after.store.tokens == world.store.tokens.insert(token, fresh_id)
            &&& after.outbox == world.outbox.push(
                confirmation_email_of(request.email, base_url, token),
            )
        }),
{
    reveal_with_fuel(play_sign_up, 5);
}

/// A submission that lacks a field, or whose name or email is not valid, is
/// a bad request: the store keeps nothing new and the notifier is not called.
pub proof fn invalid_sign_up_is_a_bad_request(
    world: World,
    request: Option<SubscriberCreateRequestView>,
    base_url: Seq<char>,
    fresh_id: SubscriberId,
    token: Seq<char>,
    faults: Faults,
)
    requires
        request matches Some(form) ==> validated(form.name, form.email) is Err,
    ensures
        ({
            let (after, state) = sign_up_in(world, request, base_url, fresh_id, token, faults);
            &&& state == SignUpStateView::Failed(SignUpFailure::Validation)
            &&& finished_sign_up(state) == Some(SignUpOutcome::BadRequest)
            &&& after == world
        }),
{
    reveal_with_fuel(play_sign_up, 2);
}

/// Where the store does not take the subscriber, be it that the address
/// already belongs to one or that the store fails, a valid request ends in an
/// internal error at the first write: no token reaches the store and the
/// notifier is not called.
pub proof fn failed_subscriber_write_stores_nothing(
    world: World,
    request: SubscriberCreateRequestView,
    base_url: Seq<char>,
    fresh_id: SubscriberId,
    token: Seq<char>,
    faults: Faults,
)
    requires
        validated(request.name, request.email) is Ok,
        world.store.holds_email(request.email) || faults.subscriber_insert is Some,
    ensures
        ({
            let (after, state) = sign_up_in(
                world,
                Some(request),
                base_url,
                fresh_id,
                token,
                faults,
            );
            &&& state matches SignUpStateView::Failed(SignUpFailure::SubscriberNotStored(_))
            &&& finished_sign_up(state) == Some(SignUpOutcome::InternalError)
            &&& after == world
        }),
{
    reveal_with_fuel(play_sign_up, 3);
}

/// Where the store takes the subscriber and then fails to take the token,
/// the sign-up ends in an internal error and is not undone: the subscriber
/// stays, pending and without a token, and the notifier is not called.
pub proof fn failed_token_write_leaves_the_subscriber(
    world: World,
    request: SubscriberCreateRequestView,
    base_url: Seq<char>,
    fresh_id: SubscriberId,
    token: Seq<char>,
    faults: Faults,
)
    requires
        validated(request.name, request.email) is Ok,
        !world.store.holds_email(request.email),
        !world.store.knows(fresh_id),
        faults.subscriber_insert is None,
        faults.token_insert is Some,
    ensures
        ({
            let (after, state) = sign_up_in(
                world,
                Some(request),
                base_url,
                fresh_id,
                token,
                faults,
            );
            &&& state == SignUpStateView::Failed(
                SignUpFailure::TokenNotStored(faults.token_insert->0),
            )
            &&& finished_sign_up(state) == Some(SignUpOutcome::InternalError)
            &&& after.store.subscribers == with_pending(world.store, fresh_id, request)
            &&& after.store.tokens == world.store.tokens
            &&& after.outbox == world.outbox
        }),
{
    reveal_with_fuel(play_sign_up, 4);
}

/// Where the notifier fails, the sign-up ends in an internal error and is not
/// undone: the subscriber stays pending, and its token, though no email
/// carried it, confirms the subscriber when it is redeemed.
pub proof fn failed_notification_leaves_a_usable_token(
    world: World,
    request: SubscriberCreateRequestView,
    base_url: Seq<char>,
    fresh_id: SubscriberId,
    token: Seq<char>,
    faults: Faults,
)
    requires
        validated(request.name, request.email) is Ok,
        !world.store.holds_email(request.email),
        !world.store.knows(fresh_id),
        !world.store.tokens.dom().contains(token),
        faults.subscriber_insert is None,
        faults.token_insert is None,
        faults.notifier is Some,
    ensures
        ({
            let (after, state) = sign_up_in(
                world,
                Some(request),
                base_url,
                fresh_id,
                token,
                faults,
            );
            let (confirmed, answer) = confirm_in(after.store, Some(token), Faults::none());
            &&& state == SignUpStateView::Failed(SignUpFailure::NotNotified(faults.notifier->0))
            &&& finished_sign_up(state) == Some(SignUpOutcome::InternalError)
            &&& after.store.subscribers == with_pending(world.store, fresh_id, request)
            &&& after.store.tokens == world.store.tokens.insert(token, fresh_id)
            &&& after.outbox == world.outbox
            &&& answer == ConfirmState::Confirmed { subscriber_id: fresh_id }
            &&& confirmed.status_of(fresh_id) == Some(SubscriberStatus::Confirmed)
        }),
{
    reveal_with_fuel(play_sign_up, 5);
    let (after, _) = sign_up_in(world, Some(request), base_url, fresh_id, token, faults);
    known_token_confirms(after.store, token, Faults::none());
}

/// Redeeming a token that the store keeps confirms its subscriber: the
/// answer is `Confirmed`, the subscriber's status is `confirmed`, and nothing
/// else in the store has changed.
pub proof fn known_token_confirms(store: StoreModel, token: Seq<char>, faults: Faults)
    requires
        store.tokens.dom().contains(token),
        confirm_unhindered(faults),
    ensures
        ({
            let id = store.tokens[token];
            let (after, state) = confirm_in(store, Some(token), faults);
            &&& state == ConfirmState::Confirmed { subscriber_id: id }
            &&& finished_confirmation(state) == Some(ConfirmOutcome::Confirmed)
            &&& after == store.mark_confirmed(id)
            &&& store.knows(id) ==> after.status_of(id) == Some(SubscriberStatus::Confirmed)
        }),
{
    reveal_with_fuel(play_confirm, 3);
}

/// A confirmation request without a token is a bad request, and one with a
/// token that the store does not keep is unauthorized. Neither changes the
/// store.
pub proof fn missing_or_unknown_token_is_refused(
    store: StoreModel,
    token: Seq<char>,
    faults: Faults,
)
    requires
        !store.tokens.dom().contains(token),
        faults.lookup is None,
    ensures
        confirm_in(store, None, faults) == (
            store,
            ConfirmState::Failed(ConfirmFailure::MissingToken),
        ),
        finished_confirmation(confirm_in(store, None, faults).1) == Some(
            ConfirmOutcome::BadRequest,
        ),
        confirm_in(store, Some(token), faults) == (
            store,
            ConfirmState::Failed(ConfirmFailure::TokenNotFound),
        ),
        finished_confirmation(confirm_in(store, Some(token), faults).1) == Some(
            ConfirmOutcome::Unauthorized,
        ),
{
    reveal_with_fuel(play_confirm, 3);
}

/// Where the store fails during a confirmation, the answer is an internal
/// error and the store is as it was.
pub proof fn failed_confirmation_changes_nothing(
    store: StoreModel,
    token: Seq<char>,
    faults: Faults,
)
    requires
        faults.lookup is Some || (faults.mark is Some && store.tokens.dom().contains(token)),
    ensures
        ({
            let (after, state) = confirm_in(store, Some(token), faults);
            &&& finished_confirmation(state) == Some(ConfirmOutcome::InternalError)
            &&& after == store
        }),
{
    reveal_with_fuel(play_confirm, 3);
}

/// Confirmation is idempotent: presenting the same token a second time gets
/// the same answer as the first time and leaves the store as the first time
/// left it. In particular, the token of a confirmed subscriber keeps
/// confirming, and the subscriber stays confirmed.
pub proof fn confirmation_is_idempotent(store: StoreModel, token: Option<Seq<char>>, faults: Faults)
    ensures
        ({
            let (once, first) = confirm_in(store, token, faults);
            let (twice, second) = confirm_in(once, token, faults);
            &&& second == first
            &&& twice == once
        }),
{
    reveal_with_fuel(play_confirm, 3);
    if let Some(t) = token {
        if store.tokens.dom().contains(t) {
            mark_confirmed_is_idempotent(store, store.tokens[t]);
        }
    }
}

/// However a sign-up or a confirmation goes, the store forgets nothing and
/// moves no subscriber back: a status only ever goes from pending to
/// confirmed, and only a confirmation moves it.
pub proof fn flows_extend_the_store(
    world: World,
    request: Option<SubscriberCreateRequestView>,
    base_url: Seq<char>,
    fresh_id: SubscriberId,
    token: Seq<char>,
    presented: Option<Seq<char>>,
    faults: Faults,
)
    ensures
        extends(world.store, sign_up_in(world, request, base_url, fresh_id, token, faults).0.store),
        forall|id: SubscriberId| #[trigger]
            world.store.knows(id) ==> sign_up_in(
                world,
                request,
                base_url,
                fresh_id,
                token,
                faults,
            ).0.store.subscribers[id] == world.store.subscribers[id],
        extends(world.store, confirm_in(world.store, presented, faults).0),
{
    reveal_with_fuel(play_sign_up, 5);
    reveal_with_fuel(play_confirm, 3);
}

/// The link sent by an accepted sign-up works: redeeming its token answers
/// `Confirmed` and turns the new subscriber from pending to confirmed, under
/// the name and email that were submitted.
pub proof fn accepted_sign_up_can_be_confirmed(
    world: World,
    request: SubscriberCreateRequestView,
    base_url: Seq<char>,
    fresh_id: SubscriberId,
    token: Seq<char>,
    faults: Faults,
)
    requires
        validated(request.name, request.email) is Ok,
        !world.store.holds_email(request.email),
        !world.store.knows(fresh_id),
        !world.store.tokens.dom().contains(token),
        sign_up_unhindered(faults),
        confirm_unhindered(faults),
    ensures
        ({
            let (signed_up, _) = sign_up_in(
                world,
                Some(request),
                base_url,
                fresh_id,
                token,
                faults,
            );
            let (confirmed, state) = confirm_in(signed_up.store, Some(token), faults);
            &&& signed_up.store.status_of(fresh_id) == Some(SubscriberStatus::PendingConfirmation)
            &&& state == ConfirmState::Confirmed { subscriber_id: fresh_id }
            &&& confirmed.status_of(fresh_id) == Some(SubscriberStatus::Confirmed)
            &&& confirmed.subscribers[fresh_id].name == request.name
            &&& confirmed.subscribers[fresh_id].email == request.email
        }),
{
    valid_sign_up_is_accepted(world, request, base_url, fresh_id, token, faults);
    let (signed_up, _) = sign_up_in(world, Some(request), base_url, fresh_id, token, faults);
    known_token_confirms(signed_up.store, token, faults);
}

} // verus!
