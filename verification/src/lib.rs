//! Double opt-in newsletter subscriptions: input validation, confirmation
//! tokens, and the decision logic of the sign-up and confirmation flows.

pub mod configuration;
pub mod domain;
pub mod email_client;
pub mod lifecycle;
pub mod routes;
pub mod startup;
pub mod store;
