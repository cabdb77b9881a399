//! The request handlers, each as a transition function.

pub mod error_chain;
pub mod lifecycle_proofs;
pub mod newsletter;
pub mod newsletter_proofs;
pub mod subscriptions;
pub mod subscriptions_confirm;
pub mod subscriptions_proofs;

pub use crate::routes::newsletter::publish_newsletter;
pub use crate::routes::subscriptions::subscribe;
pub use crate::routes::subscriptions_confirm::confirm;
