//! Confirmation of a subscription by the token that was mailed out.

use crate::persistence::{
    confirm_rows, later_failures, next_failure, token_owner, Failures, Store, SubscriptionStatus,
    World, Write,
};
use crate::routes::error_chain::texts;
use vstd::prelude::*;

verus! {

/// What the confirmation link carries.
pub struct SubConfirmationParam {
    pub subscription_token: String,
}

/// How a confirmation ends.
#[derive(Clone, Copy, Debug, PartialEq, Eq, Structural)]
pub enum ConfirmOutcome {
    /// The token's subscriber is confirmed now, whether or not it was before.
    Confirmed,
    /// No subscriber has this token.
    NotFound,
    /// Storage failed.
    InternalError,
}

impl ConfirmOutcome {
    /// The HTTP status that answers the request.
    pub open spec fn status(self) -> u16 {
        match self {
            ConfirmOutcome::Confirmed => 200,
            ConfirmOutcome::NotFound => 404,
            ConfirmOutcome::InternalError => 500,
        }
    }

    pub fn status_code(&self) -> (r: u16)
        ensures
            r == self.status(),
    {
        match self {
            ConfirmOutcome::Confirmed => 200,
            ConfirmOutcome::NotFound => 404,
            ConfirmOutcome::InternalError => 500,
        }
    }
}

/// Where a confirmation stands: which outside operation it is waiting for.
pub enum ConfirmState {
    OpeningTransaction(String),
    FindingSubscriber,
    Confirming,
    Committing,
    Done,
}

/// The mathematical content of a `ConfirmState`.
pub enum ConfirmStateView {
    OpeningTransaction(Seq<char>),
    FindingSubscriber,
    Confirming,
    Committing,
    Done,
}

impl View for ConfirmState {
    type V = ConfirmStateView;

    open spec fn view(&self) -> ConfirmStateView {
        match self {
            ConfirmState::OpeningTransaction(token) => ConfirmStateView::OpeningTransaction(
                token@,
            ),
            ConfirmState::FindingSubscriber => ConfirmStateView::FindingSubscriber,
            ConfirmState::Confirming => ConfirmStateView::Confirming,
            ConfirmState::Committing => ConfirmStateView::Committing,
            ConfirmState::Done => ConfirmStateView::Done,
        }
    }
}

/// How the outside operation that was asked for last has ended.
#[derive(Debug)]
pub enum ConfirmEvent {
    /// It succeeded, and it was not the search for the token's subscriber.
    Completed,
    /// The search for the token's subscriber succeeded, with this result.
    SubscriberFound(Option<u128>),
    /// It failed. Holds the messages of the failure and of its sources, the
    /// nearest first.
    Failed(Vec<String>),
}

/// The mathematical content of a `ConfirmEvent`.
pub enum ConfirmEventView {
    Completed,
    SubscriberFound(Option<u128>),
    Failed(Seq<Seq<char>>),
}

impl View for ConfirmEvent {
    type V = ConfirmEventView;

    open spec fn view(&self) -> ConfirmEventView {
        match self {
            ConfirmEvent::Completed => ConfirmEventView::Completed,
            ConfirmEvent::SubscriberFound(found) => ConfirmEventView::SubscriberFound(*found),
            ConfirmEvent::Failed(sources) => ConfirmEventView::Failed(texts(sources@)),
        }
    }
}

/// What is to be done next for a confirmation.
pub enum ConfirmAction {
    /// Open a transaction on storage.
    BeginTransaction,
    /// Look up, inside the transaction, the subscriber that the token
    /// belongs to.
    GetSubscriberIdFromToken(String),
    /// Set, inside the transaction, the status of the subscriber to
    /// confirmed.
    SetSubscriberStatusToConfirmed(u128),
    /// Commit the transaction.
    Commit,
    /// Answer the request and drop whatever transaction is still open.
    Respond(ConfirmOutcome),
}

/// The mathematical content of a `ConfirmAction`.
pub enum ConfirmActionView {
    BeginTransaction,
    GetSubscriberIdFromToken(Seq<char>),
    SetSubscriberStatusToConfirmed(u128),
    Commit,
    Respond(ConfirmOutcome),
}

impl View for ConfirmAction {
    type V = ConfirmActionView;

    open spec fn view(&self) -> ConfirmActionView {
        match self {
            ConfirmAction::BeginTransaction => ConfirmActionView::BeginTransaction,
            ConfirmAction::GetSubscriberIdFromToken(token) => {
                ConfirmActionView::GetSubscriberIdFromToken(token@)
            },
            ConfirmAction::SetSubscriberStatusToConfirmed(id) => {
                ConfirmActionView::SetSubscriberStatusToConfirmed(*id)
            },
            ConfirmAction::Commit => ConfirmActionView::Commit,
            ConfirmAction::Respond(outcome) => ConfirmActionView::Respond(*outcome),
        }
    }
}

/// The confirmation ends with the given answer.
pub open spec fn confirmation_ends(outcome: ConfirmOutcome) -> (
    ConfirmStateView,
    ConfirmActionView,
) {
    (ConfirmStateView::Done, ConfirmActionView::Respond(outcome))
}

/// How a confirmation begins: whatever the token is, a transaction is opened.
pub open spec fn confirmation_start(token: Seq<char>) -> (ConfirmStateView, ConfirmActionView) {
    (ConfirmStateView::OpeningTransaction(token), ConfirmActionView::BeginTransaction)
}

/// How a confirmation goes on once the operation it was waiting for has
/// ended. While all goes well: the search for the token's subscriber, then,
/// if there is one, the change of its status, then the commit, then the
/// answer. A token without a subscriber is answered with "not found", and
/// anything else with an internal error.
pub open spec fn confirmation_step(state: ConfirmStateView, event: ConfirmEventView) -> (
    ConfirmStateView,
    ConfirmActionView,
) {
    match state {
        ConfirmStateView::OpeningTransaction(token) => match event {
            ConfirmEventView::Completed => (
                ConfirmStateView::FindingSubscriber,
                ConfirmActionView::GetSubscriberIdFromToken(token),
            ),
            _ => confirmation_ends(ConfirmOutcome::InternalError),
        },
        ConfirmStateView::FindingSubscriber => match event {
            ConfirmEventView::SubscriberFound(Some(id)) => (
                ConfirmStateView::Confirming,
                ConfirmActionView::SetSubscriberStatusToConfirmed(id),
            ),
            ConfirmEventView::SubscriberFound(None) => confirmation_ends(ConfirmOutcome::NotFound),
            _ => confirmation_ends(ConfirmOutcome::InternalError),
        },
        ConfirmStateView::Confirming => match event {
            ConfirmEventView::Completed => (
                ConfirmStateView::Committing,
                ConfirmActionView::Commit,
            ),
            _ => confirmation_ends(ConfirmOutcome::InternalError),
        },
        ConfirmStateView::Committing => match event {
            ConfirmEventView::Completed => confirmation_ends(ConfirmOutcome::Confirmed),
            _ => confirmation_ends(ConfirmOutcome::InternalError),
        },
        ConfirmStateView::Done => confirmation_ends(ConfirmOutcome::InternalError),
    }
}

fn end(outcome: ConfirmOutcome) -> (r: (ConfirmState, ConfirmAction))
    ensures
        (r.0@, r.1@) == confirmation_ends(outcome),
{
    (ConfirmState::Done, ConfirmAction::Respond(outcome))
}

/// Takes in a request to confirm the subscription that the token was made
/// for. The token may be any text.
pub fn confirm(param: SubConfirmationParam) -> (r: (ConfirmState, ConfirmAction))
    ensures
        (r.0@, r.1@) == confirmation_start(param.subscription_token@),
{
    (ConfirmState::OpeningTransaction(param.subscription_token), ConfirmAction::BeginTransaction)
}

/// Takes a confirmation one step further, from the end of the operation that
/// it was waiting for to the next operation, or to the answer.
pub fn continue_confirmation(state: ConfirmState, event: ConfirmEvent) -> (r: (
    ConfirmState,
    ConfirmAction,
))
    ensures
        (r.0@, r.1@) == confirmation_step(state@, event@),
{
    match state {
        ConfirmState::OpeningTransaction(token) => match event {
            ConfirmEvent::Completed => (
                ConfirmState::FindingSubscriber,
                ConfirmAction::GetSubscriberIdFromToken(token),
            ),
            _ => end(ConfirmOutcome::InternalError),
        },
        ConfirmState::FindingSubscriber => match event {
            ConfirmEvent::SubscriberFound(Some(id)) => (
                ConfirmState::Confirming,
                ConfirmAction::SetSubscriberStatusToConfirmed(id),
            ),
            ConfirmEvent::SubscriberFound(None) => end(ConfirmOutcome::NotFound),
            _ => end(ConfirmOutcome::InternalError),
        },
        ConfirmState::Confirming => match event {
            ConfirmEvent::Completed => (ConfirmState::Committing, ConfirmAction::Commit),
            _ => end(ConfirmOutcome::InternalError),
        },
        ConfirmState::Committing => match event {
            ConfirmEvent::Completed => end(ConfirmOutcome::Confirmed),
            _ => end(ConfirmOutcome::InternalError),
        },
        ConfirmState::Done => end(ConfirmOutcome::InternalError),
    }
}

/// What carrying out `action` does to the world and how it is reported back,
/// given whether it fails. An operation that fails changes nothing.
pub open spec fn perform_confirm_action(
    world: World,
    action: ConfirmActionView,
    failure: Option<Seq<Seq<char>>>,
) -> (World, ConfirmEventView) {
    match failure {
        Some(sources) => (world, ConfirmEventView::Failed(sources)),
        None => match action {
            ConfirmActionView::BeginTransaction => (world.begin(), ConfirmEventView::Completed),
            ConfirmActionView::GetSubscriberIdFromToken(token) => (
                world,
                ConfirmEventView::SubscriberFound(token_owner(world.store.tokens, token)),
            ),
            ConfirmActionView::SetSubscriberStatusToConfirmed(id) => (
                world.stage(Write::ConfirmSubscriber(id)),
                ConfirmEventView::Completed,
            ),
            ConfirmActionView::Commit => (world.commit(), ConfirmEventView::Completed),
            ConfirmActionView::Respond(_) => (world.roll_back(), ConfirmEventView::Completed),
        },
    }
}

/// The number of operations that a confirmation in `state` asks for at most
/// before it answers.
pub open spec fn confirm_operations_left(state: ConfirmStateView) -> nat {
    match state {
        ConfirmStateView::OpeningTransaction(_) => 4,
        ConfirmStateView::FindingSubscriber => 3,
        ConfirmStateView::Confirming => 2,
        ConfirmStateView::Committing => 1,
        ConfirmStateView::Done => 0,
    }
}

/// Runs a confirmation from `state`, where it has asked for `action`, to its
/// answer: each operation asked for is carried out, failing where `failures`
/// says so, and reported back. Gives the world as it is left and the answer.
pub open spec fn run_confirmation(
    state: ConfirmStateView,
    action: ConfirmActionView,
    world: World,
    failures: Failures,
) -> (World, ConfirmOutcome)
    decreases confirm_operations_left(state),
{
    match action {
        ConfirmActionView::Respond(outcome) => (world.roll_back(), outcome),
        _ => if state is Done {
            // nothing is asked for once the answer has been given
            (world.roll_back(), ConfirmOutcome::InternalError)
        } else {
            let (world_then, event) = perform_confirm_action(world, action, next_failure(failures));
            let (state_then, action_then) = confirmation_step(state, event);
            run_confirmation(state_then, action_then, world_then, later_failures(failures))
        },
    }
}

/// What the request to confirm `token` leaves behind and answers.
pub open spec fn confirmation_of(token: Seq<char>, world: World, failures: Failures) -> (
    World,
    ConfirmOutcome,
) {
    let (state, action) = confirmation_start(token);
    run_confirmation(state, action, world, failures)
}

/// Where nothing outside fails, confirming a token that belongs to a
/// subscriber answers with success and leaves every row of that subscriber
/// confirmed and everything else as it was: the other subscribers, the
/// tokens, the credentials and the outbox.
pub proof fn lemma_confirmation_confirms(token: Seq<char>, world: World)
    requires
        token_owner(world.store.tokens, token) is Some,
    ensures
        ({
            let id = token_owner(world.store.tokens, token)->Some_0;
            let (after, answer) = confirmation_of(token, world, Seq::empty());
            &&& answer == ConfirmOutcome::Confirmed
            &&& answer.status() == 200
            &&& after.store == (Store {
                subscribers: confirm_rows(world.store.subscribers, id),
                ..world.store
            })
            &&& after.outbox == world.outbox
            &&& after.staged.len() == 0
            &&& forall|i: int|
                0 <= i < world.store.subscribers.len() ==> {
                    let before = #[trigger] world.store.subscribers[i];
                    let now = after.store.subscribers[i];
                    if before.id == id {
                        now == before.confirmed()
                    } else {
                        now == before
                    }
                }
        }),
{
    reveal_with_fuel(run_confirmation, 6);
    reveal_with_fuel(crate::persistence::apply_all, 2);
    let id = token_owner(world.store.tokens, token)->Some_0;
    let staged = Seq::<Write>::empty().push(Write::ConfirmSubscriber(id));
    assert(staged.drop_last() =~= Seq::<Write>::empty());
}

/// Confirming the same token again answers with success again and changes
/// nothing any more.
pub proof fn lemma_confirmation_is_idempotent(token: Seq<char>, world: World)
    requires
        token_owner(world.store.tokens, token) is Some,
    ensures
        ({
            let (once, first_answer) = confirmation_of(token, world, Seq::empty());
            let (twice, second_answer) = confirmation_of(token, once, Seq::empty());
            &&& first_answer == ConfirmOutcome::Confirmed
            &&& second_answer == ConfirmOutcome::Confirmed
            &&& twice == once
        }),
{
    lemma_confirmation_confirms(token, world);
    let (once, first_answer) = confirmation_of(token, world, Seq::empty());
    lemma_confirmation_confirms(token, once);
    let id = token_owner(world.store.tokens, token)->Some_0;
    crate::persistence::lemma_confirmation_is_idempotent(world.store, id);
    let (twice, second_answer) = confirmation_of(token, once, Seq::empty());
    assert(once.staged =~= twice.staged);
}

/// Confirming a token that no subscriber has changes nothing, whatever fails,
/// and where nothing fails the answer is "not found", with status 404.
pub proof fn lemma_unknown_token_is_not_found(token: Seq<char>, world: World, failures: Failures)
    requires
        token_owner(world.store.tokens, token) is None,
    ensures
        ({
            let (after, answer) = confirmation_of(token, world, failures);
            let (_, undisturbed) = confirmation_of(token, world, Seq::empty());
            &&& after.store == world.store
            &&& after.outbox == world.outbox
            &&& answer != ConfirmOutcome::Confirmed
            &&& undisturbed == ConfirmOutcome::NotFound
            &&& undisturbed.status() == 404
        }),
{
    reveal_with_fuel(run_confirmation, 6);
}

/// Whatever the token and whatever fails, a confirmation sends no mail,
/// leaves the tokens and the credentials alone, and takes no subscriber's
/// confirmation back.
pub proof fn lemma_confirmation_only_confirms(token: Seq<char>, world: World, failures: Failures)
    ensures
        ({
            let (after, answer) = confirmation_of(token, world, failures);
            &&& after.outbox == world.outbox
            &&& after.store.tokens == world.store.tokens
            &&& after.store.users == world.store.users
            &&& after.store.subscribers.len() == world.store.subscribers.len()
            &&& forall|i: int|
                0 <= i < world.store.subscribers.len() && (#[trigger] world.store.subscribers[i]).status
                    == SubscriptionStatus::Confirmed ==> after.store.subscribers[i]
                    == world.store.subscribers[i]
        }),
{
    reveal_with_fuel(run_confirmation, 6);
    reveal_with_fuel(crate::persistence::apply_all, 2);
    match token_owner(world.store.tokens, token) {
        Some(id) => {
            let staged = Seq::<Write>::empty().push(Write::ConfirmSubscriber(id));
            assert(staged.drop_last() =~= Seq::<Write>::empty());
        },
        None => {},
    }
}

} // verus!
