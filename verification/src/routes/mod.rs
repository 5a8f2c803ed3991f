//! The decisions behind the HTTP endpoints.

pub mod subscriptions;
pub mod subscriptions_confirm;

pub use subscriptions::SubscriberCreateRequest;
pub use subscriptions_confirm::Parameters;
