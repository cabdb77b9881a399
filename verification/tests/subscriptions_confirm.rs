use zero2prod_rust::routes::confirm;
use zero2prod_rust::routes::subscriptions_confirm::{
    continue_confirmation, ConfirmAction, ConfirmEvent, ConfirmOutcome, ConfirmState,
    SubConfirmationParam,
};

fn begun(token: &str) -> (ConfirmState, ConfirmAction) {
    confirm(SubConfirmationParam { subscription_token: token.to_string() })
}

fn finding() -> ConfirmState {
    continue_confirmation(begun("t").0, ConfirmEvent::Completed).0
}

fn confirming() -> ConfirmState {
    continue_confirmation(finding(), ConfirmEvent::SubscriberFound(Some(5))).0
}

fn committing() -> ConfirmState {
    continue_confirmation(confirming(), ConfirmEvent::Completed).0
}

fn answer(result: (ConfirmState, ConfirmAction)) -> ConfirmOutcome {
    match result {
        (ConfirmState::Done, ConfirmAction::Respond(outcome)) => outcome,
        _ => panic!("expected the answer"),
    }
}

fn failed() -> ConfirmEvent {
    ConfirmEvent::Failed(vec!["connection reset".to_string()])
}

#[test]
fn the_outcomes_have_their_statuses() {
    assert_eq!(ConfirmOutcome::Confirmed.status_code(), 200);
    assert_eq!(ConfirmOutcome::NotFound.status_code(), 404);
    assert_eq!(ConfirmOutcome::InternalError.status_code(), 500);
}

#[test]
fn any_token_opens_a_transaction() {
    for token in ["", "abc", "not a token at all \u{1F600}", "x'; DROP TABLE subscriptions; --"] {
        match begun(token) {
            (ConfirmState::OpeningTransaction(kept), ConfirmAction::BeginTransaction) => {
                assert_eq!(kept, token)
            },
            _ => panic!("expected the transaction to be opened"),
        }
    }
}

#[test]
fn the_steps_of_a_confirmation_follow_one_another() {
    match continue_confirmation(begun("abc").0, ConfirmEvent::Completed) {
        (ConfirmState::FindingSubscriber, ConfirmAction::GetSubscriberIdFromToken(token)) => {
            assert_eq!(token, "abc")
        },
        _ => panic!("expected the search for the subscriber"),
    }
    assert!(matches!(
        continue_confirmation(finding(), ConfirmEvent::SubscriberFound(Some(5))),
        (ConfirmState::Confirming, ConfirmAction::SetSubscriberStatusToConfirmed(5))
    ));
    assert!(matches!(
        continue_confirmation(confirming(), ConfirmEvent::Completed),
        (ConfirmState::Committing, ConfirmAction::Commit)
    ));
    assert_eq!(
        answer(continue_confirmation(committing(), ConfirmEvent::Completed)),
        ConfirmOutcome::Confirmed
    );
}

#[test]
fn a_token_without_a_subscriber_is_not_found() {
    assert_eq!(
        answer(continue_confirmation(finding(), ConfirmEvent::SubscriberFound(None))),
        ConfirmOutcome::NotFound
    );
}

#[test]
fn a_storage_failure_at_any_step_is_an_internal_error() {
    assert_eq!(answer(continue_confirmation(begun("t").0, failed())), ConfirmOutcome::InternalError);
    assert_eq!(answer(continue_confirmation(finding(), failed())), ConfirmOutcome::InternalError);
    assert_eq!(answer(continue_confirmation(confirming(), failed())), ConfirmOutcome::InternalError);
    assert_eq!(answer(continue_confirmation(committing(), failed())), ConfirmOutcome::InternalError);
}

#[test]
fn an_event_that_answers_nothing_asked_for_is_an_internal_error() {
    assert_eq!(
        answer(continue_confirmation(begun("t").0, ConfirmEvent::SubscriberFound(Some(1)))),
        ConfirmOutcome::InternalError
    );
    assert_eq!(
        answer(continue_confirmation(finding(), ConfirmEvent::Completed)),
        ConfirmOutcome::InternalError
    );
    assert_eq!(
        answer(continue_confirmation(confirming(), ConfirmEvent::SubscriberFound(None))),
        ConfirmOutcome::InternalError
    );
    assert_eq!(
        answer(continue_confirmation(committing(), ConfirmEvent::SubscriberFound(None))),
        ConfirmOutcome::InternalError
    );
    assert_eq!(
        answer(continue_confirmation(ConfirmState::Done, ConfirmEvent::Completed)),
        ConfirmOutcome::InternalError
    );
}
