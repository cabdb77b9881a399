//! Validated value objects for what a subscriber submits.

pub mod new_subscriber;
pub mod subscriber_email;
pub mod subscriber_name;

pub use crate::domain::new_subscriber::NewSubscriber;
pub use crate::domain::subscriber_email::SubscriberEmail;
pub use crate::domain::subscriber_name::SubscriberName;
