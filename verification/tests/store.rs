use zero2prod::store::{StoreError, SubscriberId, SubscriberStatus};

#[test]
fn statuses_are_spelled_as_the_store_keeps_them() {
    assert_eq!(SubscriberStatus::PendingConfirmation.as_str(), "pending_confirmation");
    assert_eq!(SubscriberStatus::Confirmed.as_str(), "confirmed");
}

#[test]
fn identifiers_compare_by_value() {
    assert_eq!(SubscriberId(7), SubscriberId(7));
    assert_ne!(SubscriberId(7), SubscriberId(8));
    assert_ne!(StoreError::Conflict, StoreError::StorageUnavailable);
}
