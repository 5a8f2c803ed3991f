//! Validated values of the subscription domain.

pub mod subscriber;
pub mod subscriber_email;
pub mod subscriber_name;

pub use subscriber::Subscriber;
pub use subscriber_email::SubscriberEmail;
pub use subscriber_name::SubscriberName;
