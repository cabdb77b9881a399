//! Newsletter subscriptions: validated intake, confirmation by mailed token,
//! and authenticated publishing of an issue to every confirmed subscriber.
//!
//! Storage, mail transport and the HTTP server are left to the caller. Each
//! request handler is a pair of functions: one takes the request in and one
//! goes on from the end of an outside operation, and both return the
//! handler's next state together with the next operation to carry out, the
//! last of which is the answer. The caller carries the operations out and
//! reports back how each has ended.
//!
//! - `domain`: the validated name and address of a subscriber.
//! - `email_client`: the call to the mail provider and the reading of its
//!   answer.
//! - `persistence`: the rows that go to and come from storage, and the
//!   content of the tables as the contracts speak of it.
//! - `routes`: the handlers for subscribing, confirming and publishing, and
//!   what each of them does to storage and to the outbox when it is run to
//!   its answer.
//! - `startup`: the address under which the application is reached.
//! - `text`: helpers for building strings.

pub mod domain;
pub mod email_client;
pub mod persistence;
pub mod routes;
pub mod startup;
pub mod text;
