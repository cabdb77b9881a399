//! What is kept in storage, and what each storage operation means.
//!
//! The tables themselves live outside this library. The rows here are what
//! the handlers give to storage and get from it; `Store` is the content of the
//! tables as the handlers' contracts speak of it.

use crate::email_client::EmailView;
use vstd::prelude::*;

verus! {

/// How far a subscriber has come. A subscriber starts as pending and becomes
/// confirmed; nothing leads back.
#[derive(Clone, Copy, Debug, PartialEq, Eq, Structural)]
pub enum SubscriptionStatus {
    PendingConfirmation,
    Confirmed,
}

impl SubscriptionStatus {
    /// The status as it is written in the subscriber table.
    pub open spec fn label(self) -> Seq<char> {
        match self {
            SubscriptionStatus::PendingConfirmation => "PENDING_CONFIRMATION"@,
            SubscriptionStatus::Confirmed => "CONFIRMED"@,
        }
    }

    pub fn as_str(&self) -> (r: &'static str)
        ensures
            r@ == self.label(),
    {
        match self {
            SubscriptionStatus::PendingConfirmation => "PENDING_CONFIRMATION",
            SubscriptionStatus::Confirmed => "CONFIRMED",
        }
    }
}

/// A row of the subscriber table, but for the time of subscription, which
/// storage adds.
#[derive(Debug)]
pub struct SubscriberRow {
    pub id: u128,
    pub email: String,
    pub name: String,
    pub status: SubscriptionStatus,
}

/// The mathematical content of a `SubscriberRow`.
pub struct SubscriberRecord {
    pub id: u128,
    pub email: Seq<char>,
    pub name: Seq<char>,
    pub status: SubscriptionStatus,
}

impl SubscriberRecord {
    /// The row once its subscriber is confirmed.
    pub open spec fn confirmed(self) -> SubscriberRecord {
        SubscriberRecord { status: SubscriptionStatus::Confirmed, ..self }
    }
}

impl View for SubscriberRow {
    type V = SubscriberRecord;

    open spec fn view(&self) -> SubscriberRecord {
        SubscriberRecord { id: self.id, email: self.email@, name: self.name@, status: self.status }
    }
}

/// A row of the token table: a confirmation token and the subscriber it
/// belongs to.
pub struct TokenRow {
    pub subscription_token: String,
    pub subscriber_id: u128,
}

/// The mathematical content of a `TokenRow`.
pub struct TokenRecord {
    pub subscription_token: Seq<char>,
    pub subscriber_id: u128,
}

impl View for TokenRow {
    type V = TokenRecord;

    open spec fn view(&self) -> TokenRecord {
        TokenRecord {
            subscription_token: self.subscription_token@,
            subscriber_id: self.subscriber_id,
        }
    }
}

/// What the credentials table holds for one username.
pub struct StoredCredentials {
    pub user_id: u128,
    pub password_hash: String,
}

/// The mathematical content of `StoredCredentials`.
pub struct StoredCredentialsView {
    pub user_id: u128,
    pub password_hash: Seq<char>,
}

impl View for StoredCredentials {
    type V = StoredCredentialsView;

    open spec fn view(&self) -> StoredCredentialsView {
        StoredCredentialsView { user_id: self.user_id, password_hash: self.password_hash@ }
    }
}

/// A row of the credentials table.
pub struct CredentialRecord {
    pub username: Seq<char>,
    pub user_id: u128,
    pub password_hash: Seq<char>,
}

/// The content of the three tables, each in the order in which storage hands
/// its rows out.
pub struct Store {
    pub subscribers: Seq<SubscriberRecord>,
    pub tokens: Seq<TokenRecord>,
    pub users: Seq<CredentialRecord>,
}

/// A change to the tables.
pub enum Write {
    InsertSubscriber(SubscriberRecord),
    SaveToken(TokenRecord),
    ConfirmSubscriber(u128),
}

/// The subscriber table after every row with the given id has been set to
/// confirmed.
pub open spec fn confirm_rows(rows: Seq<SubscriberRecord>, id: u128) -> Seq<SubscriberRecord> {
    Seq::new(
        rows.len(),
        |i: int|
            if rows[i].id == id {
                rows[i].confirmed()
            } else {
                rows[i]
            },
    )
}

/// The tables after one change.
pub open spec fn apply(store: Store, write: Write) -> Store {
    match write {
        Write::InsertSubscriber(row) => Store {
            subscribers: store.subscribers.push(row),
            ..store
        },
        Write::SaveToken(row) => Store { tokens: store.tokens.push(row), ..store },
        Write::ConfirmSubscriber(id) => Store {
            subscribers: confirm_rows(store.subscribers, id),
            ..store
        },
    }
}

/// The tables after a list of changes, the first of them made first.
pub open spec fn apply_all(store: Store, writes: Seq<Write>) -> Store
    decreases writes.len(),
{
    if writes.len() == 0 {
        store
    } else {
        apply(apply_all(store, writes.drop_last()), writes.last())
    }
}

/// The subscriber that a token belongs to, if the token table knows it.
pub open spec fn token_owner(tokens: Seq<TokenRecord>, token: Seq<char>) -> Option<u128>
    decreases tokens.len(),
{
    if tokens.len() == 0 {
        None
    } else if tokens[0].subscription_token == token {
        Some(tokens[0].subscriber_id)
    } else {
        token_owner(tokens.drop_first(), token)
    }
}

/// What the credentials table holds for a username, if anything.
pub open spec fn credentials_of(users: Seq<CredentialRecord>, username: Seq<char>) -> Option<
    StoredCredentialsView,
>
    decreases users.len(),
{
    if users.len() == 0 {
        None
    } else if users[0].username == username {
        Some(
            StoredCredentialsView {
                user_id: users[0].user_id,
                password_hash: users[0].password_hash,
            },
        )
    } else {
        credentials_of(users.drop_first(), username)
    }
}

/// The addresses of the confirmed subscribers, in table order.
pub open spec fn confirmed_emails(rows: Seq<SubscriberRecord>) -> Seq<Seq<char>>
    decreases rows.len(),
{
    if rows.len() == 0 {
        Seq::empty()
    } else if rows.last().status == SubscriptionStatus::Confirmed {
        confirmed_emails(rows.drop_last()).push(rows.last().email)
    } else {
        confirmed_emails(rows.drop_last())
    }
}

/// Everything outside the handlers that they act on: the tables, the changes
/// made in the open transaction and not yet committed, and the messages
/// handed to the mail provider so far.
pub struct World {
    pub store: Store,
    pub staged: Seq<Write>,
    pub outbox: Seq<EmailView>,
}

impl World {
    /// A transaction is opened: nothing is staged yet.
    pub open spec fn begin(self) -> World {
        World { staged: Seq::empty(), ..self }
    }

    /// A change is made inside the open transaction.
    pub open spec fn stage(self, write: Write) -> World {
        World { staged: self.staged.push(write), ..self }
    }

    /// The open transaction is committed: all that was staged takes effect.
    pub open spec fn commit(self) -> World {
        World { store: apply_all(self.store, self.staged), staged: Seq::empty(), ..self }
    }

    /// The open transaction, if any, is dropped: nothing that was staged
    /// takes effect.
    pub open spec fn roll_back(self) -> World {
        World { staged: Seq::empty(), ..self }
    }

    /// A message is handed to the mail provider.
    pub open spec fn deliver(self, email: EmailView) -> World {
        World { outbox: self.outbox.push(email), ..self }
    }
}

/// Which of the operations that a handler asks for fail, in the order in
/// which it asks: `None` where the operation succeeds, else the messages of
/// the failure and of its sources. Past the end, every operation succeeds.
pub type Failures = Seq<Option<Seq<Seq<char>>>>;

/// How the operation that is asked for next ends.
pub open spec fn next_failure(failures: Failures) -> Option<Seq<Seq<char>>> {
    if failures.len() > 0 {
        failures[0]
    } else {
        None
    }
}

/// How the operations after the next one end.
pub open spec fn later_failures(failures: Failures) -> Failures {
    if failures.len() > 0 {
        failures.drop_first()
    } else {
        failures
    }
}

/// Whether `needle` occurs somewhere in `text`.
pub open spec fn occurs_in(needle: Seq<char>, text: Seq<char>) -> bool {
    exists|before: Seq<char>, after: Seq<char>| text == before + needle + after
}

/// No change to the tables takes a subscriber's confirmation back, moves a
/// row, or removes one.
pub proof fn lemma_status_never_reverses(store: Store, write: Write, i: int)
    requires
        0 <= i < store.subscribers.len(),
    ensures
        i < apply(store, write).subscribers.len(),
        apply(store, write).subscribers[i].id == store.subscribers[i].id,
        apply(store, write).subscribers[i].email == store.subscribers[i].email,
        apply(store, write).subscribers[i].name == store.subscribers[i].name,
        store.subscribers[i].status == SubscriptionStatus::Confirmed ==> apply(
            store,
            write,
        ).subscribers[i].status == SubscriptionStatus::Confirmed,
{
}

/// Confirming a subscriber a second time changes nothing.
pub proof fn lemma_confirmation_is_idempotent(store: Store, id: u128)
    ensures
        apply(apply(store, Write::ConfirmSubscriber(id)), Write::ConfirmSubscriber(id)) == apply(
            store,
            Write::ConfirmSubscriber(id),
        ),
{
    let once = confirm_rows(store.subscribers, id);
    assert(confirm_rows(once, id) =~= once);
}

} // verus!
