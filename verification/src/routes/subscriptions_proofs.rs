//! What a subscription does to storage and to the outbox when it is run to
//! its answer.

use crate::domain::new_subscriber::NewSubscriberView;
use crate::domain::subscriber_email::email_grammar_accepts;
use crate::domain::subscriber_name::{
    grapheme_count, has_forbidden_char, is_blank, MAX_NAME_GRAPHEMES,
};
use crate::persistence::{
    later_failures, next_failure, occurs_in, Failures, Store, TokenRecord, World, Write,
};
use crate::routes::subscriptions::{
    confirmation_email, confirmation_link, confirmation_path, form_is_valid, form_rejection, pending_row,
    subscription_start, subscription_step, FormDataView, SubscribeActionView, SubscribeErrorView,
    SubscribeEventView, SubscribeStateView,
};
use vstd::prelude::*;

verus! {

/// What carrying out `action` does to the world and how it is reported back,
/// given whether it fails. An operation that fails changes nothing.
pub open spec fn perform_subscribe_action(
    world: World,
    action: SubscribeActionView,
    failure: Option<Seq<Seq<char>>>,
) -> (World, SubscribeEventView) {
    match failure {
        Some(sources) => (world, SubscribeEventView::Failed(sources)),
        None => (
            match action {
                SubscribeActionView::BeginTransaction => world.begin(),
                SubscribeActionView::InsertSubscriber(row) => world.stage(
                    Write::InsertSubscriber(row),
                ),
                SubscribeActionView::SaveToken(row) => world.stage(Write::SaveToken(row)),
                SubscribeActionView::Commit => world.commit(),
                SubscribeActionView::SendEmail(mail) => world.deliver(mail),
                SubscribeActionView::Respond(_) => world.roll_back(),
            },
            SubscribeEventView::Completed,
        ),
    }
}

/// The number of operations that a subscription in `state` asks for at most
/// before it answers.
pub open spec fn operations_left(state: SubscribeStateView) -> nat {
    match state {
        SubscribeStateView::OpeningTransaction(_) => 5,
        SubscribeStateView::InsertingSubscriber(_) => 4,
        SubscribeStateView::SavingToken(_) => 3,
        SubscribeStateView::Committing(_) => 2,
        SubscribeStateView::SendingConfirmation => 1,
        SubscribeStateView::Done => 0,
    }
}

/// Runs a subscription from `state`, where it has asked for `action`, to its
/// answer: each operation asked for is carried out, failing where `failures`
/// says so, and reported back. Gives the world as it is left and the answer.
pub open spec fn run_subscription(
    state: SubscribeStateView,
    action: SubscribeActionView,
    world: World,
    failures: Failures,
) -> (World, Result<(), SubscribeErrorView>)
    decreases operations_left(state),
{
    match action {
        SubscribeActionView::Respond(result) => (world.roll_back(), result),
        _ => if state is Done {
            // nothing is asked for once the answer has been given
            (world.roll_back(), subscription_step(state, SubscribeEventView::Completed).1->Respond_0)
        } else {
            let (world_then, event) = perform_subscribe_action(
                world,
                action,
                next_failure(failures),
            );
            let (state_then, action_then) = subscription_step(state, event);
            run_subscription(state_then, action_then, world_then, later_failures(failures))
        },
    }
}

/// The tables once the subscriber and the token of a subscription are in
/// them.
pub open spec fn store_with_subscription(
    store: Store,
    form: FormDataView,
    token: Seq<char>,
    subscriber_id: u128,
) -> Store {
    Store {
        subscribers: store.subscribers.push(
            pending_row(NewSubscriberView { email: form.email, name: form.name }, subscriber_id),
        ),
        tokens: store.tokens.push(TokenRecord { subscription_token: token, subscriber_id }),
        users: store.users,
    }
}

/// A subscription with a valid form, during which nothing outside fails,
/// stores exactly one new subscriber, pending confirmation, and exactly one
/// token that refers to it, hands exactly one message to the mail provider,
/// and answers with success. The message is addressed to the subscriber and
/// carries one and the same link, with the token in it, in its HTML body and
/// in its plain-text body.
pub proof fn lemma_subscription_stores_and_notifies(
    form: FormDataView,
    base_url: Seq<char>,
    token: Seq<char>,
    subscriber_id: u128,
    world: World,
)
    requires
        form_is_valid(form),
    ensures
        ({
            let (state, action) = subscription_start(form, base_url, token, subscriber_id);
            let (after, answer) = run_subscription(state, action, world, Seq::empty());
            &&& answer == Ok::<(), SubscribeErrorView>(())
            &&& after.store == store_with_subscription(world.store, form, token, subscriber_id)
            &&& after.outbox == world.outbox.push(
                confirmation_email(form.email, confirmation_link(base_url, token)),
            )
            &&& after.staged.len() == 0
        }),
        ({
            let link = confirmation_link(base_url, token);
            let mail = confirmation_email(form.email, link);
            &&& mail.recipient == form.email
            &&& occurs_in(link, mail.html_content)
            &&& occurs_in(link, mail.text_content)
            &&& occurs_in(token, link)
        }),
{
    reveal_with_fuel(run_subscription, 7);
    reveal_with_fuel(crate::persistence::apply_all, 3);
    lemma_confirmation_email_carries_link(
        form.email,
        confirmation_link(base_url, token),
    );
    assert(confirmation_link(base_url, token) == base_url + confirmation_path() + token
        + Seq::<char>::empty());
    let (state, action) = subscription_start(form, base_url, token, subscriber_id);
    let (after, answer) = run_subscription(state, action, world, Seq::empty());
    let row = pending_row(NewSubscriberView { email: form.email, name: form.name }, subscriber_id);
    let token_row = TokenRecord { subscription_token: token, subscriber_id };
    let staged = Seq::<Write>::empty().push(Write::InsertSubscriber(row)).push(
        Write::SaveToken(token_row),
    );
    assert(staged.drop_last() =~= Seq::<Write>::empty().push(Write::InsertSubscriber(row)));
    assert(staged.drop_last().drop_last() =~= Seq::<Write>::empty());
}

/// The confirmation mail carries the same link in its HTML body and in its
/// plain-text body.
pub proof fn lemma_confirmation_email_carries_link(recipient: Seq<char>, link: Seq<char>)
    ensures
        occurs_in(link, confirmation_email(recipient, link).html_content),
        occurs_in(link, confirmation_email(recipient, link).text_content),
{
    let mail = confirmation_email(recipient, link);
    assert(mail.html_content == "Welcome to our newsletter!<br/> Click <a href=\""@ + link
        + "\">here</a> to confirm your subscription"@);
    assert(mail.text_content == "Welcome to our newsletter!\\nVisit "@ + link
        + " to confirm your subscription"@);
}

/// A form whose name is blank, has more than 256 grapheme clusters or holds
/// a forbidden character, or whose address the grammar does not accept, is
/// answered with the reason and the status 400, whatever outside would fail,
/// and nothing is stored or sent.
pub proof fn lemma_invalid_form_is_rejected(
    form: FormDataView,
    base_url: Seq<char>,
    token: Seq<char>,
    subscriber_id: u128,
    world: World,
    failures: Failures,
)
    requires
        is_blank(form.name) || grapheme_count(form.name) > MAX_NAME_GRAPHEMES
            || has_forbidden_char(form.name) || !email_grammar_accepts(form.email),
    ensures
        ({
            let (state, action) = subscription_start(form, base_url, token, subscriber_id);
            let (after, answer) = run_subscription(state, action, world, failures);
            &&& action == SubscribeActionView::Respond(
                Err(SubscribeErrorView::ValidationError(form_rejection(form))),
            )
            &&& answer == Err::<(), SubscribeErrorView>(
                SubscribeErrorView::ValidationError(form_rejection(form)),
            )
            &&& answer->Err_0.status_code() == 400
            &&& after.store == world.store
            &&& after.outbox == world.outbox
        }),
{
    reveal_with_fuel(run_subscription, 2);
}

/// Whatever fails and wherever, a subscription leaves the tables either as
/// they were or with both the subscriber and its token in them, never with
/// one of the two. The confirmation mail goes out only once both are stored,
/// and the answer is success only if it went out.
pub proof fn lemma_subscription_is_atomic(
    form: FormDataView,
    base_url: Seq<char>,
    token: Seq<char>,
    subscriber_id: u128,
    world: World,
    failures: Failures,
)
    ensures
        ({
            let (state, action) = subscription_start(form, base_url, token, subscriber_id);
            let (after, answer) = run_subscription(state, action, world, failures);
            let stored = store_with_subscription(world.store, form, token, subscriber_id);
            let sent = world.outbox.push(
                confirmation_email(form.email, confirmation_link(base_url, token)),
            );
            ||| after.store == world.store && after.outbox == world.outbox && answer is Err
            ||| after.store == stored && after.outbox == world.outbox && answer is Err
            ||| after.store == stored && after.outbox == sent && answer is Ok
        }),
{
    reveal_with_fuel(run_subscription, 7);
    reveal_with_fuel(crate::persistence::apply_all, 3);
    let row = pending_row(NewSubscriberView { email: form.email, name: form.name }, subscriber_id);
    let token_row = TokenRecord { subscription_token: token, subscriber_id };
    let staged = Seq::<Write>::empty().push(Write::InsertSubscriber(row)).push(
        Write::SaveToken(token_row),
    );
    assert(staged.drop_last() =~= Seq::<Write>::empty().push(Write::InsertSubscriber(row)));
    assert(staged.drop_last().drop_last() =~= Seq::<Write>::empty());
}

} // verus!
