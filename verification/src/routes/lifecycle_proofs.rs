//! What subscribing and confirming come to when one follows the other.

use crate::domain::new_subscriber::NewSubscriberView;
use crate::persistence::{token_owner, SubscriberRecord, SubscriptionStatus, TokenRecord, World};
use crate::routes::subscriptions::{
    confirmation_link, confirmation_path, form_is_valid, pending_row, subscription_start,
    FormDataView,
};
use crate::routes::subscriptions_confirm::{
    confirmation_of, lemma_confirmation_confirms, ConfirmOutcome,
};
use crate::routes::subscriptions_proofs::{
    lemma_subscription_stores_and_notifies, run_subscription,
};
use vstd::prelude::*;

verus! {

/// A token that is added to the token table is found there under its
/// subscriber, unless an earlier row already holds the same token; every
/// other token is found as before.
pub proof fn lemma_token_owner_after_push(tokens: Seq<TokenRecord>, row: TokenRecord, token: Seq<char>)
    ensures
        token_owner(tokens.push(row), token) == match token_owner(tokens, token) {
            Some(id) => Some(id),
            None => if row.subscription_token == token {
                Some(row.subscriber_id)
            } else {
                None
            },
        },
    decreases tokens.len(),
{
    let longer = tokens.push(row);
    if tokens.len() == 0 {
        assert(longer.drop_first() =~= tokens);
    } else {
        assert(longer.drop_first() =~= tokens.drop_first().push(row));
        if tokens[0].subscription_token != token {
            lemma_token_owner_after_push(tokens.drop_first(), row, token);
        }
    }
}

/// The token can be read back out of the link: two links under one base
/// address are the same only if their tokens are.
pub proof fn lemma_link_tells_token(base_url: Seq<char>, token: Seq<char>, other: Seq<char>)
    requires
        confirmation_link(base_url, token) == confirmation_link(base_url, other),
    ensures
        token == other,
{
    let prefix = base_url + confirmation_path();
    assert((prefix + token).skip(prefix.len() as int) =~= token);
    assert((prefix + other).skip(prefix.len() as int) =~= other);
}

/// Where nothing outside fails: once a valid form has been taken in and the
/// token that was mailed out is presented for confirmation, the subscriber
/// table holds the new subscriber, with the name and the address of the
/// form, as confirmed. This takes a token that the token table did not hold
/// before; the rows of other subscribers stay as they were.
pub proof fn lemma_subscribe_then_confirm(
    form: FormDataView,
    base_url: Seq<char>,
    token: Seq<char>,
    subscriber_id: u128,
    world: World,
)
    requires
        form_is_valid(form),
        token_owner(world.store.tokens, token) is None,
    ensures
        ({
            let (state, action) = subscription_start(form, base_url, token, subscriber_id);
            let (subscribed, _) = run_subscription(state, action, world, Seq::empty());
            let (confirmed, answer) = confirmation_of(token, subscribed, Seq::empty());
            let at = world.store.subscribers.len() as int;
            &&& answer == ConfirmOutcome::Confirmed
            &&& confirmed.store.subscribers.len() == at + 1
            &&& confirmed.store.subscribers[at] == (SubscriberRecord {
                id: subscriber_id,
                email: form.email,
                name: form.name,
                status: SubscriptionStatus::Confirmed,
            })
            &&& forall|i: int|
                0 <= i < at && (#[trigger] world.store.subscribers[i]).id != subscriber_id
                    ==> confirmed.store.subscribers[i] == world.store.subscribers[i]
            &&& confirmed.store.tokens == subscribed.store.tokens
            &&& confirmed.outbox == subscribed.outbox
        }),
{
    let (state, action) = subscription_start(form, base_url, token, subscriber_id);
    let (subscribed, _) = run_subscription(state, action, world, Seq::empty());
    lemma_subscription_stores_and_notifies(form, base_url, token, subscriber_id, world);
    lemma_token_owner_after_push(
        world.store.tokens,
        TokenRecord { subscription_token: token, subscriber_id },
        token,
    );
    assert(token_owner(subscribed.store.tokens, token) == Some(subscriber_id));
    lemma_confirmation_confirms(token, subscribed);
    let at = world.store.subscribers.len() as int;
    let row = pending_row(NewSubscriberView { email: form.email, name: form.name }, subscriber_id);
    assert(subscribed.store.subscribers[at] == row);
    assert forall|i: int|
        0 <= i < at && (#[trigger] world.store.subscribers[i]).id != subscriber_id implies {
        let (confirmed, _) = confirmation_of(token, subscribed, Seq::empty());
        confirmed.store.subscribers[i] == world.store.subscribers[i]
    } by {
        assert(subscribed.store.subscribers[i] == world.store.subscribers[i]);
    }
}

} // verus!
