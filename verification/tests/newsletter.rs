use actix_web::http::header::HeaderValue;
use argon2::password_hash::{PasswordHasher, SaltString};
use argon2::{Algorithm, Argon2, Params, Version};
use base64::Engine;
use zero2prod_rust::persistence::StoredCredentials;
use zero2prod_rust::routes::newsletter::{
    basic_authentication, confirmed_subscriber, continue_publication, credentials_from_decoded,
    password_check_outcome, response, split_credentials, verify_password_hash, PublishAction,
    PublishContent, PublishError, PublishEvent, PublishNLBody, PublishState,
};
use zero2prod_rust::routes::publish_newsletter;

const DUMMY_HASH: &str =
    "$argon2id$v=19$m=15000,t=2,p=1$gZiV/M1gPc22ElAH/Jh1Hw$CWOrkoo7oJBQ/iyh7uJ0LO2aLEfrHwTWllSAxT0zRno";

fn issue() -> PublishNLBody {
    PublishNLBody {
        title: "Newsletter Title".to_string(),
        content: PublishContent {
            html: "<p>Newsletter as html</p>".to_string(),
            text: "Newsletter as plain text".to_string(),
        },
    }
}

fn basic(username: &str, password: &str) -> Vec<u8> {
    let encoded = base64::engine::general_purpose::STANDARD
        .encode(format!("{}:{}", username, password));
    format!("Basic {}", encoded).into_bytes()
}

fn hash_of(password: &str) -> String {
    let salt = SaltString::encode_b64(b"0123456789abcdef").unwrap();
    let params = Params::new(8, 1, 1, None).unwrap();
    Argon2::new(Algorithm::Argon2id, Version::V0x13, params)
        .hash_password(password.as_bytes(), &salt)
        .unwrap()
        .to_string()
}

fn missing(authorization: Option<&[u8]>) -> Vec<String> {
    match basic_authentication(authorization) {
        Err(chain) => chain,
        Ok(_) => panic!("expected the header to be turned down"),
    }
}

fn present(authorization: &[u8]) -> (String, String) {
    match basic_authentication(Some(authorization)) {
        Ok(credentials) => (credentials.username, credentials.password),
        Err(chain) => panic!("expected credentials, got {:?}", chain),
    }
}

fn decoded(bytes: &[u8]) -> Result<(String, String), Vec<String>> {
    match credentials_from_decoded(bytes.to_vec()) {
        Ok(credentials) => Ok((credentials.username, credentials.password)),
        Err(chain) => Err(chain),
    }
}

fn split(text: &str) -> Option<(String, String)> {
    split_credentials(text).map(|credentials| (credentials.username, credentials.password))
}

fn pair(username: &str, password: &str) -> (String, String) {
    (username.to_string(), password.to_string())
}

fn fetching(username: &str, password: &str) -> PublishState {
    let header = basic(username, password);
    match publish_newsletter(issue(), Some(&header)) {
        (state, PublishAction::GetStoredCredentials(asked)) => {
            assert_eq!(asked, username);
            state
        },
        _ => panic!("expected the credentials to be asked for"),
    }
}

fn verifying(user: Option<u128>) -> PublishState {
    let found = user.map(|user_id| StoredCredentials { user_id, password_hash: "h".to_string() });
    continue_publication(fetching("admin", "secret"), PublishEvent::CredentialsFetched(found)).0
}

fn loading() -> PublishState {
    continue_publication(verifying(Some(1)), PublishEvent::PasswordChecked(Ok(()))).0
}

fn unexpected(result: (PublishState, PublishAction)) -> Vec<String> {
    match result {
        (PublishState::Done, PublishAction::Respond(Err(PublishError::UnexpectedError(chain)))) => {
            chain
        },
        _ => panic!("expected an unexpected error"),
    }
}

fn refused(result: (PublishState, PublishAction)) -> Vec<String> {
    match result {
        (PublishState::Done, PublishAction::Respond(Err(PublishError::AuthError(chain)))) => chain,
        _ => panic!("expected a refusal"),
    }
}

fn cause() -> Vec<String> {
    vec!["connection reset".to_string()]
}

#[test]
fn the_classic_example_of_basic_credentials_is_read() {
    assert_eq!(
        present(b"Basic QWxhZGRpbjpvcGVuIHNlc2FtZQ=="),
        pair("Aladdin", "open sesame")
    );
}

#[test]
fn the_password_is_all_that_follows_the_first_colon() {
    assert_eq!(present(&basic("admin", "pa:ss:word")), pair("admin", "pa:ss:word"));
    assert_eq!(present(&basic("", "")), pair("", ""));
    assert_eq!(present(&basic("zoë", "pässwörd ✓")), pair("zoë", "pässwörd ✓"));
}

#[test]
fn each_malformed_header_says_what_is_wrong() {
    assert_eq!(missing(None), vec!["'Authorization' header missing".to_string()]);
    assert_eq!(
        missing(Some(b"Basic \xffabc".as_slice())),
        vec!["'Authorization' header was not a valid utf-8 string".to_string()]
    );
    assert_eq!(
        missing(Some(b"Basic abc\x7f".as_slice())),
        vec!["'Authorization' header was not a valid utf-8 string".to_string()]
    );
    assert_eq!(
        missing(Some(b"Bearer abcdef".as_slice())),
        vec!["The Authorization scheme was not Basic".to_string()]
    );
    assert_eq!(
        missing(Some(b"Basic".as_slice())),
        vec!["The Authorization scheme was not Basic".to_string()]
    );
    assert_eq!(
        missing(Some(b"basic QWxhZGRpbjpvcGVuIHNlc2FtZQ==".as_slice())),
        vec!["The Authorization scheme was not Basic".to_string()]
    );
    assert_eq!(missing(Some(b"".as_slice())), vec!["The Authorization scheme was not Basic".to_string()]);
    assert_eq!(
        missing(Some(b"Basic not base64!".as_slice())),
        vec!["Failed to decode base64 credentials".to_string()]
    );
    assert_eq!(
        missing(Some(b"Basic QWxhZGRpbjpvcGVuIHNlc2FtZQ".as_slice())),
        vec!["Failed to decode base64 credentials".to_string()]
    );
    let not_utf8 = base64::engine::general_purpose::STANDARD.encode([0xff, 0x3a, 0xfe]);
    assert_eq!(
        missing(Some(format!("Basic {}", not_utf8).as_bytes())),
        vec!["The decoded credentials is not valid utf-8".to_string()]
    );
    let no_colon = base64::engine::general_purpose::STANDARD.encode("admin");
    assert_eq!(
        missing(Some(format!("Basic {}", no_colon).as_bytes())),
        vec!["Password must be provided".to_string()]
    );
}

#[test]
fn a_tab_is_visible_but_other_control_characters_are_not() {
    // the tab passes the first test, and then it is no base64
    assert_eq!(
        missing(Some(b"Basic \tQWxhZGRpbjpvcGVuIHNlc2FtZQ==".as_slice())),
        vec!["Failed to decode base64 credentials".to_string()]
    );
    assert_eq!(
        missing(Some(b"Basic \nQWxhZGRpbjpvcGVuIHNlc2FtZQ==".as_slice())),
        vec!["'Authorization' header was not a valid utf-8 string".to_string()]
    );
}

#[test]
fn an_empty_encoding_has_no_password() {
    assert_eq!(missing(Some(b"Basic ".as_slice())), vec!["Password must be provided".to_string()]);
}

#[test]
fn decoded_bytes_are_read_as_text_and_split() {
    assert_eq!(decoded(b"bruce:batman"), Ok(pair("bruce", "batman")));
    assert_eq!(
        decoded(&[0x62, 0x3a, 0xc3]),
        Err(vec!["The decoded credentials is not valid utf-8".to_string()])
    );
    assert_eq!(decoded(b"bruce"), Err(vec!["Password must be provided".to_string()]));
    assert_eq!(decoded("brüce:bätman".as_bytes()), Ok(pair("brüce", "bätman")));
}

#[test]
fn text_is_split_at_the_first_colon() {
    assert_eq!(split("a:b"), Some(pair("a", "b")));
    assert_eq!(split(":"), Some(pair("", "")));
    assert_eq!(split("a:"), Some(pair("a", "")));
    assert_eq!(split(":b::"), Some(pair("", "b::")));
    assert_eq!(split("ü:ö:ä"), Some(pair("ü", "ö:ä")));
    assert_eq!(split(""), None);
    assert_eq!(split("no colon here"), None);
}

#[test]
fn the_right_password_is_accepted() {
    let stored = hash_of("everythinghastostartsomewhere");
    assert!(verify_password_hash(stored, "everythinghastostartsomewhere".to_string()).is_ok());
}

#[test]
fn invalid_password_is_rejected() {
    let stored = hash_of("everythinghastostartsomewhere");
    match verify_password_hash(stored, "somethingelse".to_string()) {
        Err(PublishError::AuthError(chain)) => {
            assert_eq!(chain, vec!["Invalid Password.".to_string()])
        },
        _ => panic!("expected a failure to authenticate"),
    }
}

#[test]
fn a_stored_hash_that_is_no_phc_string_is_an_unexpected_error() {
    for stored in ["", "plain", "5f4dcc3b5aa765d61d8327deb882cf99", "$", "$argon2id$v=x"] {
        match verify_password_hash(stored.to_string(), "password".to_string()) {
            Err(PublishError::UnexpectedError(chain)) => {
                assert_eq!(chain, vec!["Failed to parse hash in PHC string format.".to_string()])
            },
            _ => panic!("expected an unexpected error for {:?}", stored),
        }
    }
}

#[test]
fn a_hash_of_another_algorithm_accepts_nothing() {
    let stored = "$pbkdf2-sha256$i=1000$c2FsdHNhbHQ$aGFzaGhhc2hoYXNoaGFzaA".to_string();
    assert!(matches!(
        verify_password_hash(stored, "password".to_string()),
        Err(PublishError::AuthError(_))
    ));
}

#[test]
fn the_dummy_hash_is_a_phc_string_that_turns_passwords_down() {
    for candidate in ["", "password", "everythinghastostartsomewhere"] {
        assert!(matches!(
            verify_password_hash(DUMMY_HASH.to_string(), candidate.to_string()),
            Err(PublishError::AuthError(_))
        ));
    }
}

#[test]
fn what_argon2_reports_decides_the_outcome() {
    assert!(password_check_outcome(Ok(true)).is_ok());
    assert!(matches!(
        password_check_outcome(Ok(false)),
        Err(PublishError::AuthError(chain)) if chain == vec!["Invalid Password.".to_string()]
    ));
    assert!(matches!(
        password_check_outcome(Err(argon2::password_hash::Error::PhcStringField)),
        Err(PublishError::UnexpectedError(chain))
            if chain == vec!["Failed to parse hash in PHC string format.".to_string()]
    ));
}

#[test]
fn an_auth_error_is_answered_with_401_and_the_challenge() {
    let e = PublishError::AuthError(vec!["Invalid password.".to_string()]);
    assert_eq!(e.status_code(), 401);
    let answer = e.error_response();
    assert_eq!(answer.status, 401);
    assert_eq!(answer.www_authenticate, Some("Basic realm=\"publish\"".to_string()));
    assert_eq!(e.to_string(), "Authentication Failed");
    assert_eq!(e.sources(), vec!["Invalid password.".to_string()]);
    assert_eq!(e.error_chain(), "Authentication Failed\n\nCaused By:\n\tInvalid password.\n");
}

#[test]
fn an_unexpected_error_is_answered_with_500_and_no_challenge() {
    let e = PublishError::UnexpectedError(vec![
        "Failed to get subscribers from db".to_string(),
        "connection reset".to_string(),
    ]);
    assert_eq!(e.status_code(), 500);
    let answer = e.error_response();
    assert_eq!(answer.status, 500);
    assert_eq!(answer.www_authenticate, None);
    assert_eq!(e.to_string(), "Failed to get subscribers from db");
    assert_eq!(e.sources(), vec!["connection reset".to_string()]);
    assert_eq!(
        e.error_chain(),
        "Failed to get subscribers from db\n\nCaused By:\n\tconnection reset\n"
    );
    let bare = PublishError::UnexpectedError(vec![]);
    assert_eq!(bare.to_string(), "");
    assert_eq!(bare.sources(), Vec::<String>::new());
    assert_eq!(bare.error_chain(), "\n\n");
}

#[test]
fn success_is_answered_with_200() {
    let answer = response(&Ok(()));
    assert_eq!(answer.status, 200);
    assert_eq!(answer.www_authenticate, None);
    let answer = response(&Err(PublishError::AuthError(vec![])));
    assert_eq!(answer.status, 401);
    assert_eq!(answer.www_authenticate, Some("Basic realm=\"publish\"".to_string()));
    let answer = response(&Err(PublishError::UnexpectedError(vec![])));
    assert_eq!(answer.status, 500);
    assert_eq!(answer.www_authenticate, None);
}

#[test]
fn request_missing_authorization_is_rejected() {
    let chain = refused(publish_newsletter(issue(), None));
    assert_eq!(chain, vec!["'Authorization' header missing".to_string()]);
    match publish_newsletter(issue(), None) {
        (_, PublishAction::Respond(result)) => {
            let answer = response(&result);
            assert_eq!(answer.status, 401);
            assert_eq!(answer.www_authenticate.unwrap(), r#"Basic realm="publish""#);
        },
        _ => panic!("expected the answer"),
    }
}

#[test]
fn a_header_of_another_scheme_is_refused_in_the_same_way() {
    let chain = refused(publish_newsletter(issue(), Some(b"Digest abc".as_slice())));
    assert_eq!(chain, vec!["The Authorization scheme was not Basic".to_string()]);
}

#[test]
fn well_formed_credentials_are_looked_up() {
    match fetching("admin", "secret") {
        PublishState::FetchingCredentials { password, issue } => {
            assert_eq!(password, "secret");
            assert_eq!(issue.title, "Newsletter Title");
        },
        _ => panic!("expected the credentials to be awaited"),
    }
}

#[test]
fn a_known_user_has_the_password_checked_against_the_stored_hash() {
    let found = StoredCredentials { user_id: 9, password_hash: "$stored".to_string() };
    match continue_publication(
        fetching("admin", "secret"),
        PublishEvent::CredentialsFetched(Some(found)),
    ) {
        (
            PublishState::VerifyingPassword { user_id, .. },
            PublishAction::VerifyPasswordHash { expected_password_hash, password_candidate },
        ) => {
            assert_eq!(user_id, Some(9));
            assert_eq!(expected_password_hash, "$stored");
            assert_eq!(password_candidate, "secret");
        },
        _ => panic!("expected the password to be checked"),
    }
}

#[test]
fn non_existing_user_is_rejected() {
    // the password is still checked, against the dummy hash
    let (state, action) =
        continue_publication(fetching("nobody", "secret"), PublishEvent::CredentialsFetched(None));
    let checked = match action {
        PublishAction::VerifyPasswordHash { expected_password_hash, password_candidate } => {
            assert_eq!(expected_password_hash, DUMMY_HASH);
            assert_eq!(password_candidate, "secret");
            verify_password_hash(expected_password_hash, password_candidate)
        },
        _ => panic!("expected the password to be checked"),
    };
    assert!(matches!(state, PublishState::VerifyingPassword { user_id: None, .. }));
    let chain = refused(continue_publication(state, PublishEvent::PasswordChecked(checked)));
    assert_eq!(chain, vec!["Unknown username".to_string()]);
}

#[test]
fn an_unknown_user_is_refused_even_if_the_check_passes() {
    let chain =
        refused(continue_publication(verifying(None), PublishEvent::PasswordChecked(Ok(()))));
    assert_eq!(chain, vec!["Unknown username".to_string()]);
}

#[test]
fn a_wrong_password_is_refused_with_the_chain_of_the_check() {
    let failed = Err(PublishError::AuthError(vec!["Invalid Password.".to_string()]));
    let chain =
        refused(continue_publication(verifying(Some(1)), PublishEvent::PasswordChecked(failed)));
    assert_eq!(
        chain,
        vec![
            "Invalid password.".to_string(),
            "Authentication Failed".to_string(),
            "Invalid Password.".to_string(),
        ]
    );
}

#[test]
fn a_stored_hash_that_cannot_be_read_refuses_the_caller() {
    let failed = Err(PublishError::UnexpectedError(vec![
        "Failed to parse hash in PHC string format.".to_string(),
    ]));
    let chain =
        refused(continue_publication(verifying(Some(1)), PublishEvent::PasswordChecked(failed)));
    assert_eq!(
        chain,
        vec![
            "Invalid password.".to_string(),
            "Failed to parse hash in PHC string format.".to_string(),
        ]
    );
}

#[test]
fn a_publisher_has_the_confirmed_subscribers_read() {
    assert!(matches!(
        continue_publication(verifying(Some(1)), PublishEvent::PasswordChecked(Ok(()))),
        (PublishState::LoadingSubscribers { .. }, PublishAction::GetConfirmedSubscribers)
    ));
}

#[test]
fn each_outside_failure_says_what_was_being_attempted() {
    assert_eq!(
        unexpected(continue_publication(fetching("a", "b"), PublishEvent::Failed(cause()))),
        vec!["Failed to fetch credentials from database".to_string(), "connection reset".to_string()]
    );
    assert_eq!(
        unexpected(continue_publication(verifying(Some(1)), PublishEvent::Failed(cause()))),
        vec!["Failed to spawn blocking task.".to_string(), "connection reset".to_string()]
    );
    assert_eq!(
        unexpected(continue_publication(loading(), PublishEvent::Failed(cause()))),
        vec!["Failed to get subscribers from db".to_string(), "connection reset".to_string()]
    );
    let addresses = vec!["bruce@wayne.com".to_string()];
    let (state, _) = continue_publication(loading(), PublishEvent::SubscribersLoaded(addresses));
    assert_eq!(
        unexpected(continue_publication(state, PublishEvent::Failed(cause()))),
        vec!["Failed to send newsletter: bruce@wayne.com".to_string(), "connection reset".to_string()]
    );
}

#[test]
fn without_subscribers_the_answer_is_success_at_once() {
    assert!(matches!(
        continue_publication(loading(), PublishEvent::SubscribersLoaded(vec![])),
        (PublishState::Done, PublishAction::Respond(Ok(())))
    ));
}

#[test]
fn an_address_that_is_not_one_is_passed_over_with_a_warning() {
    let addresses = vec!["not-an-address".to_string(), "bruce@wayne.com".to_string()];
    let (state, action) =
        continue_publication(loading(), PublishEvent::SubscribersLoaded(addresses));
    match action {
        PublishAction::Warn { message, reason } => {
            assert_eq!(message, "Skipping Confirmed Subscriber. Invalid data stored");
            assert_eq!(reason, "not-an-address is not a valid subscriber email");
        },
        _ => panic!("expected a warning"),
    }
    let (state, action) = continue_publication(state, PublishEvent::Completed);
    match action {
        PublishAction::SendEmail(mail) => {
            assert_eq!(mail.recipient.as_ref(), "bruce@wayne.com");
            assert_eq!(mail.subject, "Newsletter Title");
            assert_eq!(mail.html_content, "<p>Newsletter as html</p>");
            assert_eq!(mail.text_content, "Newsletter as plain text");
        },
        _ => panic!("expected the issue to be sent"),
    }
    assert!(matches!(
        continue_publication(state, PublishEvent::Completed),
        (PublishState::Done, PublishAction::Respond(Ok(())))
    ));
}

#[test]
fn an_event_that_answers_nothing_asked_for_ends_the_publishing() {
    let confused = vec!["Unexpected event".to_string()];
    assert_eq!(
        unexpected(continue_publication(fetching("a", "b"), PublishEvent::Completed)),
        confused
    );
    assert_eq!(
        unexpected(continue_publication(verifying(None), PublishEvent::SubscribersLoaded(vec![]))),
        confused
    );
    assert_eq!(
        unexpected(continue_publication(loading(), PublishEvent::PasswordChecked(Ok(())))),
        confused
    );
    assert_eq!(unexpected(continue_publication(PublishState::Done, PublishEvent::Completed)), confused);
    let stray = PublishState::Delivering { issue: issue(), subscribers: vec![], next: 0 };
    assert_eq!(unexpected(continue_publication(stray, PublishEvent::Failed(cause()))), confused);
    let stray = PublishState::Delivering { issue: issue(), subscribers: vec![], next: 3 };
    assert_eq!(unexpected(continue_publication(stray, PublishEvent::Failed(cause()))), confused);
    let stray = PublishState::Delivering { issue: issue(), subscribers: vec![], next: 3 };
    assert!(matches!(
        continue_publication(stray, PublishEvent::Completed),
        (PublishState::Done, PublishAction::Respond(Ok(())))
    ));
}

#[test]
fn a_stored_address_is_read_as_a_confirmed_subscriber() {
    let subscriber = confirmed_subscriber("bruce@wayne.com".to_string()).unwrap();
    assert_eq!(subscriber.email.as_ref(), "bruce@wayne.com");
    assert_eq!(
        confirmed_subscriber("bruce".to_string()).unwrap_err(),
        "bruce is not a valid subscriber email"
    );
}

#[test]
fn a_header_is_text_where_the_http_server_reads_it_as_text() {
    for byte in 0..=255u8 {
        let mut value = b"Basic QWxhZGRpbjpvcGVuIHNlc2FtZQ==".to_vec();
        value.push(byte);
        let as_text = match HeaderValue::from_bytes(&value) {
            Ok(header) => header.to_str().is_ok(),
            // the server lets no such byte into a header value
            Err(_) => false,
        };
        let turned_down_as_no_text =
            missing(Some(&value)) == vec!["'Authorization' header was not a valid utf-8 string".to_string()];
        assert_eq!(!turned_down_as_no_text, as_text, "byte {}", byte);
    }
}

#[test]
fn the_credentials_are_those_that_an_http_client_sends() {
    // what `curl -u 'admin:everythinghastostartsomewhere'` puts into the header
    assert_eq!(
        present(b"Basic YWRtaW46ZXZlcnl0aGluZ2hhc3Rvc3RhcnRzb21ld2hlcmU="),
        pair("admin", "everythinghastostartsomewhere")
    );
}
