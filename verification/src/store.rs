//! What the subscription flows expect of the store that persists subscribers
//! and their confirmation tokens.

use vstd::prelude::*;

verus! {

/// The opaque identifier under which the store keeps one subscriber.
#[derive(Clone, Copy, Debug, PartialEq, Eq, Structural)]
pub struct SubscriberId(pub u128);

/// Why the store could not carry out a request.
#[derive(Clone, Copy, Debug, PartialEq, Eq, Structural)]
pub enum StoreError {
    /// The request contradicts what the store holds: the email address
    /// already belongs to an earlier subscriber.
    Conflict,
    /// The store could not be reached or did not answer in time.
    StorageUnavailable,
}

/// The two stages in the life of a stored subscriber.
#[derive(Clone, Copy, Debug, PartialEq, Eq, Structural)]
pub enum SubscriberStatus {
    PendingConfirmation,
    Confirmed,
}

impl SubscriberStatus {
    /// The status as the store spells it.
    pub open spec fn name(self) -> Seq<char> {
        match self {
            SubscriberStatus::PendingConfirmation => "pending_confirmation"@,
            SubscriberStatus::Confirmed => "confirmed"@,
        }
    }

    /// The spelling under which the status is persisted.
    pub fn as_str(&self) -> (s: &'static str)
        ensures
            s@ == self.name(),
    {
        match self {
            SubscriberStatus::PendingConfirmation => "pending_confirmation",
            SubscriberStatus::Confirmed => "confirmed",
        }
    }
}

/// What the store keeps of one subscriber.
pub struct SubscriberRecord {
    pub name: Seq<char>,
    pub email: Seq<char>,
    pub status: SubscriberStatus,
}

/// The content of a store: the subscribers by identifier, and the subscriber
/// that each issued token stands for. Nothing is ever removed from either.
pub struct StoreModel {
    pub subscribers: Map<SubscriberId, SubscriberRecord>,
    pub tokens: Map<Seq<char>, SubscriberId>,
}

impl StoreModel {
    /// The store before the first sign-up.
    pub open spec fn empty() -> StoreModel {
        StoreModel { subscribers: Map::empty(), tokens: Map::empty() }
    }

    /// Whether some subscriber is kept under `id`.
    pub open spec fn knows(self, id: SubscriberId) -> bool {
        self.subscribers.dom().contains(id)
    }

    /// Whether `email` belongs to a subscriber.
    pub open spec fn holds_email(self, email: Seq<char>) -> bool {
        exists|id: SubscriberId| #[trigger] self.knows(id) && self.subscribers[id].email == email
    }

    /// The status of the subscriber kept under `id`, if there is one.
    pub open spec fn status_of(self, id: SubscriberId) -> Option<SubscriberStatus> {
        if self.knows(id) {
            Some(self.subscribers[id].status)
        } else {
            None
        }
    }

    /// Every token stands for a subscriber that the store keeps, and no two
    /// subscribers share an email address.
    pub open spec fn consistent(self) -> bool {
        &&& forall|token: Seq<char>| #[trigger]
            self.tokens.dom().contains(token) ==> self.knows(self.tokens[token])
        &&& forall|a: SubscriberId, b: SubscriberId|
            #![trigger self.knows(a), self.knows(b)]
            self.knows(a) && self.knows(b) && self.subscribers[a].email
                == self.subscribers[b].email ==> a == b
    }

    /// Keeps a new subscriber under the unused identifier `id`, in status
    /// `pending_confirmation`. Refused with `Conflict` if the email address
    /// is taken or `id` is in use.
    pub open spec fn insert_pending_subscriber(
        self,
        id: SubscriberId,
        name: Seq<char>,
        email: Seq<char>,
    ) -> Result<StoreModel, StoreError> {
        if self.holds_email(email) || self.knows(id) {
            Err(StoreError::Conflict)
        } else {
            Ok(
                StoreModel {
                    subscribers: self.subscribers.insert(
                        id,
                        SubscriberRecord {
                            name,
                            email,
                            status: SubscriberStatus::PendingConfirmation,
                        },
                    ),
                    tokens: self.tokens,
                },
            )
        }
    }

    /// Keeps `token` for the subscriber under `id`. Refused with `Conflict`
    /// if there is no such subscriber or the token is in use; a kept token is
    /// never changed.
    pub open spec fn insert_token(self, token: Seq<char>, id: SubscriberId) -> Result<
        StoreModel,
        StoreError,
    > {
        if !self.knows(id) || self.tokens.dom().contains(token) {
            Err(StoreError::Conflict)
        } else {
            Ok(StoreModel { subscribers: self.subscribers, tokens: self.tokens.insert(token, id) })
        }
    }

    /// The subscriber that `token` stands for; `None` if the token is unknown.
    pub open spec fn find_subscriber_id_by_token(self, token: Seq<char>) -> Option<SubscriberId> {
        if self.tokens.dom().contains(token) {
            Some(self.tokens[token])
        } else {
            None
        }
    }

    /// Sets the status of the subscriber under `id` to `confirmed`. Where
    /// there is none, nothing changes.
    pub open spec fn mark_confirmed(self, id: SubscriberId) -> StoreModel {
        if self.knows(id) {
            StoreModel {
                subscribers: self.subscribers.insert(
                    id,
                    SubscriberRecord {
                        name: self.subscribers[id].name,
                        email: self.subscribers[id].email,
                        status: SubscriberStatus::Confirmed,
                    },
                ),
                tokens: self.tokens,
            }
        } else {
            self
        }
    }
}

/// Marking a subscriber confirmed a second time changes nothing.
pub proof fn mark_confirmed_is_idempotent(store: StoreModel, id: SubscriberId)
    ensures
        store.mark_confirmed(id).mark_confirmed(id) == store.mark_confirmed(id),
{
    let once = store.mark_confirmed(id);
    assert(once.mark_confirmed(id).subscribers =~= once.subscribers);
}

/// Whether `after` holds all that `before` holds, moved forward at most:
/// every subscriber is still kept, under the same name and email, in the
/// status it had or confirmed; every token still stands for the same
/// subscriber.
pub open spec fn extends(before: StoreModel, after: StoreModel) -> bool {
    &&& forall|id: SubscriberId| #[trigger]
        before.knows(id) ==> {
            &&& after.knows(id)
            &&& after.subscribers[id].name == before.subscribers[id].name
            &&& after.subscribers[id].email == before.subscribers[id].email
            &&& after.subscribers[id].status == before.subscribers[id].status
                || after.subscribers[id].status == SubscriberStatus::Confirmed
        }
    &&& forall|token: Seq<char>| #[trigger]
        before.tokens.dom().contains(token) ==> after.tokens.dom().contains(token)
            && after.tokens[token] == before.tokens[token]
}

/// Whatever the store is asked to do, it forgets nothing and moves no
/// subscriber back: a subscriber is never removed or renamed, a confirmed
/// subscriber is never pending again, and a token is never withdrawn or
/// handed to another subscriber.
pub proof fn requests_extend_the_store(
    store: StoreModel,
    id: SubscriberId,
    name: Seq<char>,
    email: Seq<char>,
    token: Seq<char>,
)
    ensures
        extends(store, store),
        store.insert_pending_subscriber(id, name, email) matches Ok(after) ==> extends(
            store,
            after,
        ),
        store.insert_token(token, id) matches Ok(after) ==> extends(store, after),
        extends(store, store.mark_confirmed(id)),
{
}

/// What extends an extension of a store extends the store.
pub proof fn extends_is_transitive(first: StoreModel, second: StoreModel, third: StoreModel)
    requires
        extends(first, second),
        extends(second, third),
    ensures
        extends(first, third),
{
    assert forall|id: SubscriberId| #[trigger] first.knows(id) implies {
        &&& third.knows(id)
        &&& third.subscribers[id].name == first.subscribers[id].name
        &&& third.subscribers[id].email == first.subscribers[id].email
        &&& third.subscribers[id].status == first.subscribers[id].status
            || third.subscribers[id].status == SubscriberStatus::Confirmed
    } by {
        assert(second.knows(id));
    }
    assert forall|token: Seq<char>| #[trigger]
        first.tokens.dom().contains(token) implies third.tokens.dom().contains(token)
        && third.tokens[token] == first.tokens[token] by {
        assert(second.tokens.dom().contains(token));
    }
}

/// Every request leaves a consistent store consistent.
pub proof fn requests_keep_consistency(
    store: StoreModel,
    id: SubscriberId,
    name: Seq<char>,
    email: Seq<char>,
    token: Seq<char>,
)
    requires
        store.consistent(),
    ensures
        StoreModel::empty().consistent(),
        store.insert_pending_subscriber(id, name, email) matches Ok(after) ==> after.consistent(),
        store.insert_token(token, id) matches Ok(after) ==> after.consistent(),
        store.mark_confirmed(id).consistent(),
{
    if let Ok(after) = store.insert_pending_subscriber(id, name, email) {
        assert forall|a: SubscriberId, b: SubscriberId|
            #![trigger after.knows(a), after.knows(b)]
            after.knows(a) && after.knows(b) && after.subscribers[a].email
                == after.subscribers[b].email implies a == b by {
            if a != b {
                if a == id {
                    assert(store.knows(b));
                } else if b == id {
                    assert(store.knows(a));
                } else {
                    assert(store.knows(a) && store.knows(b));
                }
            }
        }
        assert forall|t: Seq<char>| #[trigger] after.tokens.dom().contains(t) implies after.knows(
            after.tokens[t],
        ) by {
            assert(store.knows(store.tokens[t]));
        }
    }
    if let Ok(after) = store.insert_token(token, id) {
        assert forall|t: Seq<char>| #[trigger] after.tokens.dom().contains(t) implies after.knows(
            after.tokens[t],
        ) by {
            if t != token {
                assert(store.tokens.dom().contains(t));
                assert(store.knows(store.tokens[t]));
            }
        }
        assert forall|a: SubscriberId, b: SubscriberId|
            #![trigger after.knows(a), after.knows(b)]
            after.knows(a) && after.knows(b) && after.subscribers[a].email
                == after.subscribers[b].email implies a == b by {
            assert(store.knows(a) && store.knows(b));
        }
    }
    let marked = store.mark_confirmed(id);
    assert forall|t: Seq<char>| #[trigger] marked.tokens.dom().contains(t) implies marked.knows(
        marked.tokens[t],
    ) by {
        assert(store.knows(store.tokens[t]));
    }
    assert forall|a: SubscriberId, b: SubscriberId|
        #![trigger marked.knows(a), marked.knows(b)]
        marked.knows(a) && marked.knows(b) && marked.subscribers[a].email
            == marked.subscribers[b].email implies a == b by {
        assert(store.knows(a) && store.knows(b));
    }
}

} // verus!
