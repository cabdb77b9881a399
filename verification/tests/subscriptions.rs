use zero2prod_rust::domain::{NewSubscriber, SubscriberEmail};
use zero2prod_rust::persistence::SubscriptionStatus;
use zero2prod_rust::routes::subscribe;
use zero2prod_rust::routes::subscriptions::{
    continue_subscription, generate_confirmation_link, generate_subscription_token,
    insert_subscriber, response_status, save_token, send_confirmation_link, start_subscription,
    FormData, SaveTokenError, SubscribeAction, SubscribeError, SubscribeEvent, SubscribeState,
    TOKEN_LENGTH,
};
use zero2prod_rust::startup::ApplicationBaseUrl;

fn bruce() -> FormData {
    FormData { name: "Bruce Wayne".to_string(), email: "bruce@wayne.com".to_string() }
}

fn local() -> ApplicationBaseUrl {
    ApplicationBaseUrl("http://localhost".to_string())
}

fn started() -> (SubscribeState, SubscribeAction) {
    start_subscription(bruce(), &local(), "tokentokentokentokentoken1".to_string(), 7)
}

fn advance(steps: usize) -> (SubscribeState, SubscribeAction) {
    let (mut state, mut action) = started();
    for _ in 0..steps {
        let next = continue_subscription(state, SubscribeEvent::Completed);
        state = next.0;
        action = next.1;
    }
    (state, action)
}

fn failure_after(steps: usize) -> SubscribeError {
    let (state, _) = advance(steps);
    let cause = vec!["pool timed out".to_string(), "connection refused".to_string()];
    match continue_subscription(state, SubscribeEvent::Failed(cause)) {
        (SubscribeState::Done, SubscribeAction::Respond(Err(e))) => e,
        _ => panic!("a failure must end the subscription with an error"),
    }
}

#[test]
fn a_token_has_25_alphanumeric_characters() {
    for _ in 0..50 {
        let token = generate_subscription_token();
        assert_eq!(token.chars().count(), 25);
        assert_eq!(token.len(), TOKEN_LENGTH);
        assert!(token.chars().all(|c| c.is_ascii_alphanumeric()));
    }
}

#[test]
fn tokens_differ_from_one_another() {
    let first = generate_subscription_token();
    let second = generate_subscription_token();
    assert_ne!(first, second);
}

#[test]
fn the_confirmation_link_embeds_base_url_and_token() {
    assert_eq!(
        generate_confirmation_link("http://localhost", "abc123"),
        "http://localhost/subscriptions/confirm?subscription_token=abc123"
    );
    assert_eq!(generate_confirmation_link("", ""), "/subscriptions/confirm?subscription_token=");
}

#[test]
fn a_new_subscriber_is_stored_as_pending() {
    let subscriber = NewSubscriber::try_from(bruce()).unwrap();
    let row = insert_subscriber(&subscriber, 42);
    assert_eq!(row.id, 42);
    assert_eq!(row.email, "bruce@wayne.com");
    assert_eq!(row.name, "Bruce Wayne");
    assert_eq!(row.status, SubscriptionStatus::PendingConfirmation);
    assert_eq!(row.status.as_str(), "PENDING_CONFIRMATION");
    assert_eq!(SubscriptionStatus::Confirmed.as_str(), "CONFIRMED");
}

#[test]
fn a_token_row_refers_to_its_subscriber() {
    let row = save_token(42, "abc");
    assert_eq!(row.subscriber_id, 42);
    assert_eq!(row.subscription_token, "abc");
}

#[test]
fn the_confirmation_mail_carries_the_link_in_both_bodies() {
    let email = SubscriberEmail::parse("bruce@wayne.com".to_string()).unwrap();
    let mail = send_confirmation_link(email, "http://localhost/c?t=1");
    assert_eq!(mail.recipient.as_ref(), "bruce@wayne.com");
    assert_eq!(mail.subject, "Welcome!");
    assert_eq!(
        mail.html_content,
        "Welcome to our newsletter!<br/> Click <a href=\"http://localhost/c?t=1\">here</a> to confirm your subscription"
    );
    assert_eq!(
        mail.text_content,
        "Welcome to our newsletter!\\nVisit http://localhost/c?t=1 to confirm your subscription"
    );
}

#[test]
fn a_form_is_validated_name_first() {
    let both_wrong = FormData { name: "".to_string(), email: "nope".to_string() };
    assert_eq!(NewSubscriber::try_from(both_wrong).unwrap_err(), " is not valid subscriber name");
    let email_wrong = FormData { name: "Bruce".to_string(), email: "nope".to_string() };
    assert_eq!(
        NewSubscriber::try_from(email_wrong).unwrap_err(),
        "nope is not a valid subscriber email"
    );
    let fine = NewSubscriber::try_from(bruce()).unwrap();
    assert_eq!(fine.name.as_ref(), "Bruce Wayne");
    assert_eq!(fine.email.as_ref(), "bruce@wayne.com");
}

#[test]
fn subscribe_returns_400_on_empty_name() {
    let cases = vec![
        (FormData { name: "".to_string(), email: "bruce@wayne.com".to_string() }, "Missing name"),
        (FormData { name: "   ".to_string(), email: "bruce@wayne.com".to_string() }, "Blank name"),
        (FormData { name: "a".repeat(257), email: "bruce@wayne.com".to_string() }, "Long name"),
        (FormData { name: "Bruce/Wayne".to_string(), email: "bruce@wayne.com".to_string() }, "/"),
        (FormData { name: "Bruce".to_string(), email: "".to_string() }, "Missing email"),
        (FormData { name: "Bruce".to_string(), email: "definitely-not".to_string() }, "Bad email"),
    ];
    for (form, what) in cases {
        match subscribe(form, &local()) {
            (SubscribeState::Done, SubscribeAction::Respond(Err(e))) => {
                assert!(matches!(e, SubscribeError::ValidationError(_)), "{}", what);
                assert_eq!(e.status_code(), 400, "{}", what);
                assert_eq!(response_status(&Err(e)), 400, "{}", what);
            },
            _ => panic!("Api did not fail with bad request error: {}", what),
        }
    }
}

#[test]
fn a_rejection_tells_the_reason() {
    let form = FormData { name: "Bruce (Wayne)".to_string(), email: "bruce@wayne.com".to_string() };
    match subscribe(form, &local()) {
        (_, SubscribeAction::Respond(Err(e))) => {
            assert_eq!(e.to_string(), "Bruce (Wayne) is not valid subscriber name");
            assert_eq!(e.error_chain(), "Bruce (Wayne) is not valid subscriber name\n\n");
        },
        _ => panic!("expected a rejection"),
    }
}

#[test]
fn a_valid_form_opens_a_transaction_first() {
    match subscribe(bruce(), &local()) {
        (SubscribeState::OpeningTransaction(intake), SubscribeAction::BeginTransaction) => {
            assert_eq!(intake.subscriber.name.as_ref(), "Bruce Wayne");
            assert_eq!(intake.subscriber.email.as_ref(), "bruce@wayne.com");
            assert_eq!(intake.base_url, "http://localhost");
            assert_eq!(intake.subscription_token.chars().count(), 25);
            assert!(intake.subscription_token.chars().all(|c| c.is_ascii_alphanumeric()));
        },
        _ => panic!("expected the transaction to be opened"),
    }
}

#[test]
fn two_subscriptions_get_different_tokens_and_ids() {
    let first = subscribe(bruce(), &local());
    let second = subscribe(bruce(), &local());
    match (first.0, second.0) {
        (SubscribeState::OpeningTransaction(a), SubscribeState::OpeningTransaction(b)) => {
            assert_ne!(a.subscription_token, b.subscription_token);
            assert_ne!(a.subscriber_id, b.subscriber_id);
        },
        _ => panic!("expected two subscriptions under way"),
    }
}

#[test]
fn the_steps_follow_one_another_while_all_goes_well() {
    assert!(matches!(started(), (SubscribeState::OpeningTransaction(_), SubscribeAction::BeginTransaction)));
    match advance(1) {
        (SubscribeState::InsertingSubscriber(_), SubscribeAction::InsertSubscriber(row)) => {
            assert_eq!(row.id, 7);
            assert_eq!(row.email, "bruce@wayne.com");
            assert_eq!(row.name, "Bruce Wayne");
            assert_eq!(row.status, SubscriptionStatus::PendingConfirmation);
        },
        _ => panic!("expected the subscriber to be inserted"),
    }
    match advance(2) {
        (SubscribeState::SavingToken(_), SubscribeAction::SaveToken(row)) => {
            assert_eq!(row.subscriber_id, 7);
            assert_eq!(row.subscription_token, "tokentokentokentokentoken1");
        },
        _ => panic!("expected the token to be saved"),
    }
    assert!(matches!(advance(3), (SubscribeState::Committing(_), SubscribeAction::Commit)));
    match advance(4) {
        (SubscribeState::SendingConfirmation, SubscribeAction::SendEmail(mail)) => {
            let link = "http://localhost/subscriptions/confirm?subscription_token=tokentokentokentokentoken1";
            assert_eq!(mail.recipient.as_ref(), "bruce@wayne.com");
            assert_eq!(mail.subject, "Welcome!");
            assert!(mail.html_content.contains(link));
            assert!(mail.text_content.contains(link));
        },
        _ => panic!("expected the confirmation to be sent"),
    }
    match advance(5) {
        (SubscribeState::Done, SubscribeAction::Respond(result)) => {
            assert!(result.is_ok());
            assert_eq!(response_status(&result), 200);
        },
        _ => panic!("expected the answer"),
    }
}

#[test]
fn each_failure_says_what_was_being_attempted() {
    let expected = [
        "Failed to aquire transaction",
        "Failed to insert subscriber",
        "Failed to save token",
        "Failed to commit transaction",
        "Failed to send confirmation link",
    ];
    for (steps, context) in expected.iter().enumerate() {
        let e = failure_after(steps);
        assert_eq!(e.status_code(), 500);
        assert_eq!(e.to_string(), *context);
        assert!(matches!(e, SubscribeError::UnexpectedError(_, _)));
    }
}

#[test]
fn a_failure_keeps_the_chain_of_its_causes() {
    match failure_after(1) {
        SubscribeError::UnexpectedError(sources, context) => {
            assert_eq!(context, "Failed to insert subscriber");
            assert_eq!(sources, vec!["pool timed out".to_string(), "connection refused".to_string()]);
        },
        _ => panic!("expected an unexpected error"),
    }
    assert_eq!(
        failure_after(1).error_chain(),
        "Failed to insert subscriber\n\nCaused By:\n\tpool timed out\nCaused By:\n\tconnection refused\n"
    );
}

#[test]
fn subscribe_fails_if_fatal_database_error() {
    // the token table is broken: saving the token fails
    let e = failure_after(2);
    assert_eq!(e.status_code(), 500);
    match e {
        SubscribeError::UnexpectedError(sources, context) => {
            assert_eq!(context, "Failed to save token");
            assert_eq!(
                sources,
                vec![
                    "A database error encountered while trying to save token".to_string(),
                    "pool timed out".to_string(),
                    "connection refused".to_string(),
                ]
            );
        },
        _ => panic!("expected an unexpected error"),
    }
}

#[test]
fn a_save_token_error_reads_as_a_database_error() {
    let e = SaveTokenError(vec!["relation does not exist".to_string()]);
    assert_eq!(e.to_string(), "A database error encountered while trying to save token");
    assert_eq!(e.source(), &vec!["relation does not exist".to_string()]);
    assert_eq!(
        e.error_chain(),
        "A database error encountered while trying to save token\n\nCaused By:\n\trelation does not exist\n"
    );
}

#[test]
fn a_reason_turns_into_a_validation_error() {
    let e = SubscribeError::from("bad".to_string());
    assert!(matches!(&e, SubscribeError::ValidationError(reason) if reason == "bad"));
    assert_eq!(e.status_code(), 400);
}

#[test]
fn nothing_is_asked_for_once_the_answer_is_given() {
    for event in [SubscribeEvent::Completed, SubscribeEvent::Failed(vec!["late".to_string()])] {
        match continue_subscription(SubscribeState::Done, event) {
            (SubscribeState::Done, SubscribeAction::Respond(Err(e))) => {
                assert_eq!(e.status_code(), 500);
                assert_eq!(e.to_string(), "No operation is pending");
                assert_eq!(e.error_chain(), "No operation is pending\n\n");
            },
            _ => panic!("expected an error"),
        }
    }
}
