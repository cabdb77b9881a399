//! What the publishing of an issue does to the outbox when it is run to its
//! answer, and what it leaves alone.

use crate::domain::subscriber_email::email_grammar_accepts;
use crate::email_client::EmailView;
use crate::persistence::{
    confirmed_emails, credentials_of, later_failures, next_failure, Failures,
    StoredCredentialsView, SubscriberRecord, SubscriptionStatus, World,
};
use crate::routes::newsletter::{
    basic_credentials, challenge, delivery_from, dummy_password_hash, hash_to_check, newsletter,
    password_check, publication_start, publication_step, validated_user, IssueView,
    PublishActionView, PublishErrorView, PublishEventView, PublishStateView, ResponseView,
};
use vstd::prelude::*;

verus! {

/// What carrying out `action` does to the world and how it is reported back,
/// given whether it fails. An operation that fails changes nothing.
pub open spec fn perform_publish_action(
    world: World,
    action: PublishActionView,
    failure: Option<Seq<Seq<char>>>,
) -> (World, PublishEventView) {
    match failure {
        Some(sources) => (world, PublishEventView::Failed(sources)),
        None => match action {
            PublishActionView::GetStoredCredentials(username) => (
                world,
                PublishEventView::CredentialsFetched(credentials_of(world.store.users, username)),
            ),
            PublishActionView::VerifyPasswordHash { expected_password_hash, password_candidate } => (
                world,
                PublishEventView::PasswordChecked(
                    password_check(expected_password_hash, password_candidate),
                ),
            ),
            PublishActionView::GetConfirmedSubscribers => (
                world,
                PublishEventView::SubscribersLoaded(confirmed_emails(world.store.subscribers)),
            ),
            PublishActionView::SendEmail(mail) => (world.deliver(mail), PublishEventView::Completed),
            PublishActionView::Warn { .. } => (world, PublishEventView::Completed),
            PublishActionView::Respond(_) => (world.roll_back(), PublishEventView::Completed),
        },
    }
}

/// How many kinds of operation a publishing in `state` may still ask for.
pub open spec fn phases_left(state: PublishStateView) -> nat {
    match state {
        PublishStateView::FetchingCredentials { .. } => 4,
        PublishStateView::VerifyingPassword { .. } => 3,
        PublishStateView::LoadingSubscribers { .. } => 2,
        PublishStateView::Delivering { .. } => 1,
        PublishStateView::Done => 0,
    }
}

/// How many subscribers a publishing in `state` has not dealt with yet.
pub open spec fn subscribers_left(state: PublishStateView) -> nat {
    match state {
        PublishStateView::Delivering { subscribers, next, .. } => if next <= subscribers.len() {
            (subscribers.len() - next) as nat
        } else {
            0
        },
        _ => 0,
    }
}

/// Runs the publishing of an issue from `state`, where it has asked for
/// `action`, to its answer: each operation asked for is carried out, failing
/// where `failures` says so, and reported back. Gives the world as it is left
/// and the answer.
pub open spec fn run_publication(
    state: PublishStateView,
    action: PublishActionView,
    world: World,
    failures: Failures,
) -> (World, Result<(), PublishErrorView>)
    decreases phases_left(state), subscribers_left(state),
{
    match action {
        PublishActionView::Respond(result) => (world.roll_back(), result),
        _ => if state is Done {
            // nothing is asked for once the answer has been given
            (world.roll_back(), publication_step(state, PublishEventView::Completed).1->Respond_0)
        } else {
            let (world_then, event) = perform_publish_action(world, action, next_failure(failures));
            let (state_then, action_then) = publication_step(state, event);
            run_publication(state_then, action_then, world_then, later_failures(failures))
        },
    }
}

/// What the request to publish `issue` leaves behind and answers.
pub open spec fn publication_of(
    issue: IssueView,
    authorization: Option<Seq<u8>>,
    world: World,
    failures: Failures,
) -> (World, Result<(), PublishErrorView>) {
    let (state, action) = publication_start(issue, authorization);
    run_publication(state, action, world, failures)
}

/// The answer that every refusal to authenticate gets: the status 401 and
/// the challenge.
pub open spec fn refusal() -> ResponseView {
    ResponseView { status: 401, www_authenticate: Some(challenge()) }
}

/// The messages that go out when `issue` is sent to the `addresses`, in
/// their order: one to each address that passes validation.
pub open spec fn deliveries(issue: IssueView, addresses: Seq<Seq<char>>) -> Seq<EmailView>
    decreases addresses.len(),
{
    if addresses.len() == 0 {
        Seq::empty()
    } else if email_grammar_accepts(addresses[0]) {
        seq![newsletter(issue, addresses[0])] + deliveries(issue, addresses.drop_first())
    } else {
        deliveries(issue, addresses.drop_first())
    }
}

/// A request without an `Authorization` header is refused with the status
/// 401 and the challenge, and nothing is sent.
pub proof fn lemma_missing_authorization_is_refused(
    issue: IssueView,
    world: World,
    failures: Failures,
)
    ensures
        ({
            let (after, answer) = publication_of(issue, None, world, failures);
            &&& answer is Err
            &&& answer->Err_0 is AuthError
            &&& answer->Err_0.status_code() == 401
            &&& answer->Err_0.error_response() == refusal()
            &&& after.outbox == world.outbox
            &&& after.store == world.store
        }),
{
    reveal_with_fuel(run_publication, 2);
}

/// A request whose `Authorization` header is there but does not hold
/// well-formed credentials is refused in the same way.
pub proof fn lemma_malformed_authorization_is_refused(
    issue: IssueView,
    authorization: Option<Seq<u8>>,
    world: World,
    failures: Failures,
)
    requires
        basic_credentials(authorization) is Err,
    ensures
        ({
            let (after, answer) = publication_of(issue, authorization, world, failures);
            &&& answer is Err
            &&& answer->Err_0.error_response() == refusal()
            &&& after.outbox == world.outbox
            &&& after.store == world.store
        }),
{
    reveal_with_fuel(run_publication, 2);
}

/// Where nothing outside fails, a request with well-formed credentials that
/// are not those of a publisher, because the username is unknown or
/// because the stored hash does not accept the password, is refused with
/// the very answer that a request without the header gets, and nothing is
/// sent.
pub proof fn lemma_wrong_credentials_are_refused(
    issue: IssueView,
    authorization: Option<Seq<u8>>,
    world: World,
)
    requires
        basic_credentials(authorization) is Ok,
        ({
            let presented = basic_credentials(authorization)->Ok_0;
            match credentials_of(world.store.users, presented.username) {
                None => true,
                Some(stored) => password_check(stored.password_hash, presented.password) is Err,
            }
        }),
    ensures
        ({
            let (after, answer) = publication_of(issue, authorization, world, Seq::empty());
            let (_, unauthenticated) = publication_of(issue, None, world, Seq::empty());
            &&& answer is Err
            &&& answer->Err_0 is AuthError
            &&& answer->Err_0.error_response() == refusal()
            &&& answer->Err_0.error_response() == unauthenticated->Err_0.error_response()
            &&& after.outbox == world.outbox
            &&& after.store == world.store
        }),
{
    reveal_with_fuel(run_publication, 4);
}

/// Once the confirmed subscribers are read, and while nothing outside fails,
/// the subscribers from `next` on are dealt with in order: each address
/// that passes validation gets the issue once, and the answer is success.
pub proof fn lemma_delivery_reaches_every_subscriber(
    issue: IssueView,
    subscribers: Seq<Seq<char>>,
    next: nat,
    world: World,
)
    requires
        next <= subscribers.len(),
    ensures
        ({
            let (state, action) = delivery_from(issue, subscribers, next);
            let (after, answer) = run_publication(state, action, world, Seq::empty());
            &&& answer == Ok::<(), PublishErrorView>(())
            &&& after.outbox == world.outbox + deliveries(issue, subscribers.skip(next as int))
            &&& after.store == world.store
        }),
    decreases subscribers.len() - next,
{
    reveal_with_fuel(run_publication, 2);
    let left = subscribers.skip(next as int);
    if next >= subscribers.len() {
        assert(left.len() == 0);
        assert(world.outbox + deliveries(issue, left) =~= world.outbox);
    } else {
        let (state, action) = delivery_from(issue, subscribers, next);
        let (world_then, event) = perform_publish_action(world, action, None);
        assert(publication_step(state, event) == delivery_from(issue, subscribers, next + 1));
        lemma_delivery_reaches_every_subscriber(issue, subscribers, next + 1, world_then);
        assert(left[0] == subscribers[next as int]);
        assert(left.drop_first() =~= subscribers.skip(next as int + 1));
        if email_grammar_accepts(subscribers[next as int]) {
            assert(world.outbox.push(newsletter(issue, subscribers[next as int])) + deliveries(
                issue,
                subscribers.skip(next as int + 1),
            ) =~= world.outbox + deliveries(issue, left));
        }
    }
}

/// Where nothing outside fails, a request with the credentials of a
/// publisher sends the issue exactly once to each confirmed subscriber
/// whose stored address passes validation, in table order, sends nothing
/// else, and answers with success.
pub proof fn lemma_publication_reaches_confirmed_subscribers(
    issue: IssueView,
    authorization: Option<Seq<u8>>,
    world: World,
)
    requires
        basic_credentials(authorization) is Ok,
        ({
            let presented = basic_credentials(authorization)->Ok_0;
            let stored = credentials_of(world.store.users, presented.username);
            stored is Some && password_check(stored->Some_0.password_hash, presented.password)
                is Ok
        }),
    ensures
        ({
            let (after, answer) = publication_of(issue, authorization, world, Seq::empty());
            &&& answer == Ok::<(), PublishErrorView>(())
            &&& after.outbox == world.outbox + deliveries(
                issue,
                confirmed_emails(world.store.subscribers),
            )
            &&& after.store == world.store
        }),
{
    reveal_with_fuel(run_publication, 4);
    let addresses = confirmed_emails(world.store.subscribers);
    lemma_delivery_reaches_every_subscriber(issue, addresses, 0, world);
    assert(addresses.skip(0) =~= addresses);
}

/// Every address among the confirmed ones is that of a subscriber row whose
/// status is confirmed: a pending subscriber is not among them.
pub proof fn lemma_confirmed_emails_are_confirmed(rows: Seq<SubscriberRecord>, k: int)
    requires
        0 <= k < confirmed_emails(rows).len(),
    ensures
        exists|i: int|
            0 <= i < rows.len() && (#[trigger] rows[i]).status == SubscriptionStatus::Confirmed
                && rows[i].email == confirmed_emails(rows)[k],
    decreases rows.len(),
{
    let earlier = rows.drop_last();
    if rows.last().status == SubscriptionStatus::Confirmed && k == confirmed_emails(earlier).len() {
        assert(rows[rows.len() - 1].email == confirmed_emails(rows)[k]);
    } else {
        lemma_confirmed_emails_are_confirmed(earlier, k);
        let i = choose|i: int|
            0 <= i < earlier.len() && (#[trigger] earlier[i]).status
                == SubscriptionStatus::Confirmed && earlier[i].email == confirmed_emails(earlier)[k];
        assert(rows[i] == earlier[i]);
    }
}

/// Every message that goes out carries the issue and goes to one of the
/// addresses, and there are no more messages than addresses.
pub proof fn lemma_deliveries_go_to_addresses(
    issue: IssueView,
    addresses: Seq<Seq<char>>,
    k: int,
)
    requires
        0 <= k < deliveries(issue, addresses).len(),
    ensures
        deliveries(issue, addresses).len() <= addresses.len(),
        exists|i: int|
            0 <= i < addresses.len() && email_grammar_accepts(#[trigger] addresses[i])
                && deliveries(issue, addresses)[k] == newsletter(issue, addresses[i]),
    decreases addresses.len(),
{
    let later = addresses.drop_first();
    lemma_deliveries_are_no_more_than_addresses(issue, later);
    if email_grammar_accepts(addresses[0]) && k == 0 {
        assert(deliveries(issue, addresses)[k] == newsletter(issue, addresses[0]));
    } else {
        let k_later = if email_grammar_accepts(addresses[0]) {
            k - 1
        } else {
            k
        };
        lemma_deliveries_go_to_addresses(issue, later, k_later);
        let i = choose|i: int|
            0 <= i < later.len() && email_grammar_accepts(#[trigger] later[i]) && deliveries(
                issue,
                later,
            )[k_later] == newsletter(issue, later[i]);
        assert(addresses[i + 1] == later[i]);
    }
}

/// There are no more messages than addresses, and as many where every
/// address passes validation.
pub proof fn lemma_deliveries_are_no_more_than_addresses(
    issue: IssueView,
    addresses: Seq<Seq<char>>,
)
    ensures
        deliveries(issue, addresses).len() <= addresses.len(),
        (forall|i: int| 0 <= i < addresses.len() ==> email_grammar_accepts(#[trigger] addresses[i]))
            ==> deliveries(issue, addresses).len() == addresses.len(),
    decreases addresses.len(),
{
    if addresses.len() > 0 {
        let later = addresses.drop_first();
        lemma_deliveries_are_no_more_than_addresses(issue, later);
        if forall|i: int| 0 <= i < addresses.len() ==> email_grammar_accepts(#[trigger] addresses[i]) {
            assert forall|i: int| 0 <= i < later.len() implies email_grammar_accepts(
                #[trigger] later[i],
            ) by {
                assert(later[i] == addresses[i + 1]);
            }
            assert(email_grammar_accepts(addresses[0]));
        }
    }
}

/// The password is checked whether or not the username is known: whatever
/// the credentials table holds for the username, the next operation is a
/// check of the presented password, against the stored hash or against the
/// dummy hash.
pub proof fn lemma_password_is_checked_for_every_username(
    password: Seq<char>,
    issue: IssueView,
    found: Option<StoredCredentialsView>,
)
    ensures
        ({
            let state = PublishStateView::FetchingCredentials { password, issue };
            let (_, action) = publication_step(state, PublishEventView::CredentialsFetched(found));
            &&& action is VerifyPasswordHash
            &&& action->password_candidate == password
            &&& action->expected_password_hash == hash_to_check(found)
            &&& found is None ==> action->expected_password_hash == dummy_password_hash()
        }),
{
}

/// The credentials identify a user only where the username is known and
/// the stored hash accepts the password; everyone else is refused.
pub proof fn lemma_only_publishers_pass(
    user_id: Option<u128>,
    checked: Result<(), PublishErrorView>,
)
    ensures
        validated_user(user_id, checked) is Ok <==> user_id is Some && checked is Ok,
        validated_user(user_id, checked) is Ok ==> validated_user(user_id, checked)->Ok_0
            == user_id->Some_0,
        validated_user(user_id, checked) is Err ==> validated_user(user_id, checked)->Err_0
            is AuthError,
{
}

/// The first delivery that fails ends the publishing: no subscriber after
/// that one is dealt with, and the answer is an unexpected error, with
/// status 500.
pub proof fn lemma_failed_delivery_ends_publication(
    issue: IssueView,
    subscribers: Seq<Seq<char>>,
    next: nat,
    sources: Seq<Seq<char>>,
    world: World,
    failures: Failures,
)
    ensures
        ({
            let state = PublishStateView::Delivering { issue, subscribers, next };
            let (state_then, action) = publication_step(state, PublishEventView::Failed(sources));
            let (after, answer) = run_publication(state_then, action, world, failures);
            &&& state_then is Done
            &&& action is Respond
            &&& answer is Err
            &&& answer->Err_0 is UnexpectedError
            &&& answer->Err_0.status_code() == 500
            &&& after.outbox == world.outbox
        }),
{
    reveal_with_fuel(run_publication, 2);
}

/// Whatever the request and whatever fails, publishing changes nothing in
/// storage.
pub proof fn lemma_publication_only_reads(
    state: PublishStateView,
    action: PublishActionView,
    world: World,
    failures: Failures,
)
    ensures
        run_publication(state, action, world, failures).0.store == world.store,
    decreases phases_left(state), subscribers_left(state),
{
    reveal_with_fuel(run_publication, 2);
    if !(action is Respond) && !(state is Done) {
        let (world_then, event) = perform_publish_action(world, action, next_failure(failures));
        let (state_then, action_then) = publication_step(state, event);
        lemma_publication_only_reads(state_then, action_then, world_then, later_failures(failures));
    }
}

} // verus!
