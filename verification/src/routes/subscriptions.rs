//! Intake of a new subscriber: validation, the subscriber and its
//! confirmation token stored in one transaction, and the confirmation mail.

use crate::domain::new_subscriber::{NewSubscriber, NewSubscriberView};
use crate::domain::subscriber_email::{email_grammar_accepts, email_rejection, SubscriberEmail};
use crate::domain::subscriber_name::{is_valid_name, name_rejection, SubscriberName};
use crate::email_client::{Email, EmailView};
use crate::persistence::{
    SubscriberRecord, SubscriberRow, SubscriptionStatus, TokenRecord, TokenRow,
};
use crate::routes::error_chain::{error_chain_fmt, error_chain_text, texts, with_context};
use crate::startup::ApplicationBaseUrl;
use crate::text::{join3, push_char};
use rand::distributions::Alphanumeric;
use rand::rngs::ThreadRng;
use rand::Rng;
use uuid::Uuid;
use vstd::prelude::*;
use vstd::std_specs::convert::FromSpecImpl;

verus! {

/// What the subscription form carries.
#[derive(Debug)]
pub struct FormData {
    pub name: String,
    pub email: String,
}

/// The mathematical content of `FormData`.
pub struct FormDataView {
    pub name: Seq<char>,
    pub email: Seq<char>,
}

impl View for FormData {
    type V = FormDataView;

    open spec fn view(&self) -> FormDataView {
        FormDataView { name: self.name@, email: self.email@ }
    }
}

/// Whether both parts of a form pass validation.
pub open spec fn form_is_valid(form: FormDataView) -> bool {
    is_valid_name(form.name) && email_grammar_accepts(form.email)
}

/// The reason for turning a form down: what is wrong with the name, or, if
/// the name is in order, what is wrong with the address.
pub open spec fn form_rejection(form: FormDataView) -> Seq<char> {
    if !is_valid_name(form.name) {
        name_rejection(form.name)
    } else {
        email_rejection(form.email)
    }
}

impl NewSubscriber {
    /// Validates the two parts of a form, the name first.
    pub fn try_from(value: FormData) -> (r: Result<NewSubscriber, String>)
        ensures
            match r {
                Ok(subscriber) => form_is_valid(value@) && subscriber@ == (NewSubscriberView {
                    email: value@.email,
                    name: value@.name,
                }),
                Err(reason) => !form_is_valid(value@) && reason@ == form_rejection(value@),
            },
    {
        match SubscriberName::parse(value.name) {
            Err(reason) => Err(reason),
            Ok(name) => match SubscriberEmail::parse(value.email) {
                Err(reason) => Err(reason),
                Ok(email) => Ok(NewSubscriber { email, name }),
            },
        }
    }
}

/// Storage failed while the confirmation token was being saved. Holds the
/// messages of the storage error and of its sources, the nearest first.
#[derive(Debug)]
pub struct SaveTokenError(pub Vec<String>);

pub open spec fn save_token_error_text() -> Seq<char> {
    "A database error encountered while trying to save token"@
}

impl SaveTokenError {
    pub fn to_string(&self) -> (r: String)
        ensures
            r@ == save_token_error_text(),
    {
        "A database error encountered while trying to save token".to_string()
    }

    /// The messages of what caused this error.
    pub fn source(&self) -> (r: &Vec<String>)
        ensures
            r == &self.0,
    {
        &self.0
    }

    /// The error with the chain of its sources, for diagnostics.
    pub fn error_chain(&self) -> (r: String)
        ensures
            r@ == error_chain_text(save_token_error_text(), texts(self.0@)),
    {
        error_chain_fmt("A database error encountered while trying to save token", &self.0)
    }
}

/// Why a subscription did not go through.
#[derive(Debug)]
pub enum SubscribeError {
    /// The form was turned down, for the reason given.
    ValidationError(String),
    /// Something outside failed. Holds the messages of the failure and of its
    /// sources, the nearest first, and then what was being attempted.
    UnexpectedError(Vec<String>, String),
}

/// The mathematical content of a `SubscribeError`.
pub enum SubscribeErrorView {
    ValidationError(Seq<char>),
    UnexpectedError(Seq<Seq<char>>, Seq<char>),
}

impl View for SubscribeError {
    type V = SubscribeErrorView;

    open spec fn view(&self) -> SubscribeErrorView {
        match self {
            SubscribeError::ValidationError(reason) => SubscribeErrorView::ValidationError(
                reason@,
            ),
            SubscribeError::UnexpectedError(sources, context) => {
                SubscribeErrorView::UnexpectedError(texts(sources@), context@)
            },
        }
    }
}

impl SubscribeErrorView {
    /// The HTTP status that answers a request that ended in this error.
    pub open spec fn status_code(self) -> u16 {
        match self {
            SubscribeErrorView::ValidationError(_) => 400,
            SubscribeErrorView::UnexpectedError(_, _) => 500,
        }
    }

    /// What the caller is told: the reason for a rejection, or what was being
    /// attempted when something failed. The sources of a failure are not
    /// part of it.
    pub open spec fn message(self) -> Seq<char> {
        match self {
            SubscribeErrorView::ValidationError(reason) => reason,
            SubscribeErrorView::UnexpectedError(_, context) => context,
        }
    }

    pub open spec fn sources(self) -> Seq<Seq<char>> {
        match self {
            SubscribeErrorView::ValidationError(_) => Seq::empty(),
            SubscribeErrorView::UnexpectedError(sources, _) => sources,
        }
    }
}

impl From<String> for SubscribeError {
    fn from(e: String) -> (r: Self) {
        SubscribeError::ValidationError(e)
    }
}

impl FromSpecImpl<String> for SubscribeError {
    open spec fn obeys_from_spec() -> bool {
        true
    }

    open spec fn from_spec(e: String) -> Self {
        SubscribeError::ValidationError(e)
    }
}

impl SubscribeError {
    pub fn status_code(&self) -> (r: u16)
        ensures
            r == self@.status_code(),
    {
        match self {
            SubscribeError::ValidationError(_) => 400,
            SubscribeError::UnexpectedError(_, _) => 500,
        }
    }

    pub fn to_string(&self) -> (r: String)
        ensures
            r@ == self@.message(),
    {
        match self {
            SubscribeError::ValidationError(reason) => reason.clone(),
            SubscribeError::UnexpectedError(_, context) => context.clone(),
        }
    }

    /// The error with the chain of its sources, for diagnostics.
    pub fn error_chain(&self) -> (r: String)
        ensures
            r@ == error_chain_text(self@.message(), self@.sources()),
    {
        match self {
            SubscribeError::ValidationError(reason) => {
                let none: Vec<String> = Vec::new();
                proof {
                    assert(texts(none@) =~= Seq::<Seq<char>>::empty());
                }
                error_chain_fmt(reason.as_str(), &none)
            },
            SubscribeError::UnexpectedError(sources, context) => error_chain_fmt(
                context.as_str(),
                sources,
            ),
        }
    }
}

/// The HTTP status that answers a subscription: 200 where it went through.
pub open spec fn subscription_status(result: Result<(), SubscribeErrorView>) -> u16 {
    match result {
        Ok(_) => 200,
        Err(e) => e.status_code(),
    }
}

pub fn response_status(result: &Result<(), SubscribeError>) -> (r: u16)
    ensures
        r == subscription_status(
            match result {
                Ok(_) => Ok(()),
                Err(e) => Err(e@),
            },
        ),
{
    match result {
        Ok(_) => 200,
        Err(e) => e.status_code(),
    }
}

/// The number of characters of a confirmation token.
pub const TOKEN_LENGTH: usize = 25;

/// The 62 characters that a confirmation token is made of.
pub open spec fn is_alphanumeric(c: char) -> bool {
    ('a' <= c && c <= 'z') || ('A' <= c && c <= 'Z') || ('0' <= c && c <= '9')
}

pub open spec fn is_subscription_token(token: Seq<char>) -> bool {
    &&& token.len() == TOKEN_LENGTH
    &&& forall|i: int| 0 <= i < token.len() ==> is_alphanumeric(#[trigger] token[i])
}

/// `rand::rngs::ThreadRng`, a handle to the calling thread's random number
/// generator. Nothing is known of its state.
#[verifier::external_type_specification]
#[verifier::external_body]
pub struct ExThreadRng(ThreadRng);

/// `rand::thread_rng` hands out the calling thread's random number generator,
/// which the operating system has seeded. Nothing is claimed of it. (It
/// panics where the operating system gives no randomness.)
pub assume_specification[ rand::thread_rng ]() -> (rng: ThreadRng);

/// `Rng::sample` with the distribution `rand::distributions::Alphanumeric`
/// draws one byte, uniformly from the ASCII letters and digits. Only the
/// range is claimed.
#[verifier::external_body]
fn sample_alphanumeric(rng: &mut ThreadRng) -> (b: u8)
    ensures
        is_alphanumeric(b as char),
{
    rng.sample(Alphanumeric)
}

/// A new confirmation token: `TOKEN_LENGTH` characters, each drawn at random
/// from the letters and digits.
pub fn generate_subscription_token() -> (token: String)
    ensures
        is_subscription_token(token@),
{
    let mut rng = rand::thread_rng();
    let mut token = String::new();
    let mut n: usize = 0;
    while n < TOKEN_LENGTH
        invariant
            n <= TOKEN_LENGTH,
            token@.len() == n,
            forall|i: int| 0 <= i < token@.len() ==> is_alphanumeric(#[trigger] token@[i]),
        decreases TOKEN_LENGTH - n,
    {
        let b = sample_alphanumeric(&mut rng);
        push_char(&mut token, b as char);
        n = n + 1;
    }
    token
}

/// `Uuid::new_v4` makes an identifier out of 122 random bits; `Uuid::as_u128`
/// gives it as a number. Nothing is claimed of the number.
#[verifier::external_body]
fn random_uuid() -> (id: u128) {
    Uuid::new_v4().as_u128()
}

/// The path and query under which a subscription is confirmed, up to the token.
pub open spec fn confirmation_path() -> Seq<char> {
    "/subscriptions/confirm?subscription_token="@
}

/// The link that confirms the subscription that `token` was made for.
pub open spec fn confirmation_link(base_url: Seq<char>, token: Seq<char>) -> Seq<char> {
    base_url + confirmation_path() + token
}

pub fn generate_confirmation_link(base_url: &str, token: &str) -> (link: String)
    ensures
        link@ == confirmation_link(base_url@, token@),
{
    join3(base_url, "/subscriptions/confirm?subscription_token=", token)
}

/// The row that is stored for a new subscriber: pending confirmation.
pub open spec fn pending_row(subscriber: NewSubscriberView, id: u128) -> SubscriberRecord {
    SubscriberRecord {
        id,
        email: subscriber.email,
        name: subscriber.name,
        status: SubscriptionStatus::PendingConfirmation,
    }
}

/// The row to insert into the subscriber table for `new_subscriber`.
pub fn insert_subscriber(new_subscriber: &NewSubscriber, subscriber_id: u128) -> (row:
    SubscriberRow)
    ensures
        row@ == pending_row(new_subscriber@, subscriber_id),
{
    SubscriberRow {
        id: subscriber_id,
        email: new_subscriber.email.as_ref().to_string(),
        name: new_subscriber.name.as_ref().to_string(),
        status: SubscriptionStatus::PendingConfirmation,
    }
}

/// The row to insert into the token table so that `subscription_token`
/// confirms the subscriber `subscriber_id`.
pub fn save_token(subscriber_id: u128, subscription_token: &str) -> (row: TokenRow)
    ensures
        row@ == (TokenRecord { subscription_token: subscription_token@, subscriber_id }),
{
    TokenRow { subscription_token: subscription_token.to_string(), subscriber_id }
}

/// The mail that welcomes a new subscriber and carries the confirmation
/// link, once for readers of HTML and once for readers of plain text.
pub open spec fn confirmation_email(recipient: Seq<char>, link: Seq<char>) -> EmailView {
    EmailView {
        recipient,
        subject: "Welcome!"@,
        html_content: "Welcome to our newsletter!<br/> Click <a href=\""@ + link
            + "\">here</a> to confirm your subscription"@,
        text_content: "Welcome to our newsletter!\\nVisit "@ + link
            + " to confirm your subscription"@,
    }
}

pub fn send_confirmation_link(email: SubscriberEmail, confirmation_link: &str) -> (mail: Email)
    ensures
        mail@ == confirmation_email(email@, confirmation_link@),
{
    Email {
        recipient: email,
        subject: "Welcome!".to_string(),
        html_content: join3(
            "Welcome to our newsletter!<br/> Click <a href=\"",
            confirmation_link,
            "\">here</a> to confirm your subscription",
        ),
        text_content: join3(
            "Welcome to our newsletter!\\nVisit ",
            confirmation_link,
            " to confirm your subscription",
        ),
    }
}

/// What a subscription in progress carries from step to step.
pub struct Intake {
    pub subscriber: NewSubscriber,
    pub subscription_token: String,
    pub subscriber_id: u128,
    pub base_url: String,
}

/// The mathematical content of an `Intake`.
pub struct IntakeView {
    pub subscriber: NewSubscriberView,
    pub subscription_token: Seq<char>,
    pub subscriber_id: u128,
    pub base_url: Seq<char>,
}

impl View for Intake {
    type V = IntakeView;

    open spec fn view(&self) -> IntakeView {
        IntakeView {
            subscriber: self.subscriber@,
            subscription_token: self.subscription_token@,
            subscriber_id: self.subscriber_id,
            base_url: self.base_url@,
        }
    }
}

/// Where a subscription stands: which outside operation it is waiting for.
pub enum SubscribeState {
    OpeningTransaction(Intake),
    InsertingSubscriber(Intake),
    SavingToken(Intake),
    Committing(Intake),
    SendingConfirmation,
    Done,
}

/// The mathematical content of a `SubscribeState`.
pub enum SubscribeStateView {
    OpeningTransaction(IntakeView),
    InsertingSubscriber(IntakeView),
    SavingToken(IntakeView),
    Committing(IntakeView),
    SendingConfirmation,
    Done,
}

impl View for SubscribeState {
    type V = SubscribeStateView;

    open spec fn view(&self) -> SubscribeStateView {
        match self {
            SubscribeState::OpeningTransaction(intake) => SubscribeStateView::OpeningTransaction(
                intake@,
            ),
            SubscribeState::InsertingSubscriber(intake) => {
                SubscribeStateView::InsertingSubscriber(intake@)
            },
            SubscribeState::SavingToken(intake) => SubscribeStateView::SavingToken(intake@),
            SubscribeState::Committing(intake) => SubscribeStateView::Committing(intake@),
            SubscribeState::SendingConfirmation => SubscribeStateView::SendingConfirmation,
            SubscribeState::Done => SubscribeStateView::Done,
        }
    }
}

/// How the outside operation that was asked for last has ended.
#[derive(Debug)]
pub enum SubscribeEvent {
    Completed,
    /// It failed. Holds the messages of the failure and of its sources, the
    /// nearest first.
    Failed(Vec<String>),
}

/// The mathematical content of a `SubscribeEvent`.
pub enum SubscribeEventView {
    Completed,
    Failed(Seq<Seq<char>>),
}

impl View for SubscribeEvent {
    type V = SubscribeEventView;

    open spec fn view(&self) -> SubscribeEventView {
        match self {
            SubscribeEvent::Completed => SubscribeEventView::Completed,
            SubscribeEvent::Failed(sources) => SubscribeEventView::Failed(texts(sources@)),
        }
    }
}

/// What is to be done next for a subscription.
pub enum SubscribeAction {
    /// Open a transaction on storage.
    BeginTransaction,
    /// Insert the row into the subscriber table, inside the transaction.
    InsertSubscriber(SubscriberRow),
    /// Insert the row into the token table, inside the transaction.
    SaveToken(TokenRow),
    /// Commit the transaction.
    Commit,
    /// Hand the message to the mail provider.
    SendEmail(Email),
    /// Answer the request and drop whatever transaction is still open.
    Respond(Result<(), SubscribeError>),
}

/// The mathematical content of a `SubscribeAction`.
pub enum SubscribeActionView {
    BeginTransaction,
    InsertSubscriber(SubscriberRecord),
    SaveToken(TokenRecord),
    Commit,
    SendEmail(EmailView),
    Respond(Result<(), SubscribeErrorView>),
}

impl View for SubscribeAction {
    type V = SubscribeActionView;

    open spec fn view(&self) -> SubscribeActionView {
        match self {
            SubscribeAction::BeginTransaction => SubscribeActionView::BeginTransaction,
            SubscribeAction::InsertSubscriber(row) => SubscribeActionView::InsertSubscriber(row@),
            SubscribeAction::SaveToken(row) => SubscribeActionView::SaveToken(row@),
            SubscribeAction::Commit => SubscribeActionView::Commit,
            SubscribeAction::SendEmail(mail) => SubscribeActionView::SendEmail(mail@),
            SubscribeAction::Respond(result) => SubscribeActionView::Respond(
                match result {
                    Ok(_) => Ok(()),
                    Err(e) => Err(e@),
                },
            ),
        }
    }
}

/// The subscription ends with an answer that reports a failure.
pub open spec fn subscription_failed(sources: Seq<Seq<char>>, context: Seq<char>) -> (
    SubscribeStateView,
    SubscribeActionView,
) {
    (
        SubscribeStateView::Done,
        SubscribeActionView::Respond(Err(SubscribeErrorView::UnexpectedError(sources, context))),
    )
}

/// How a subscription begins, given the token and the subscriber id that
/// were drawn for it: a form that does not pass validation is answered at
/// once, and for any other a transaction is opened.
pub open spec fn subscription_start(
    form: FormDataView,
    base_url: Seq<char>,
    token: Seq<char>,
    subscriber_id: u128,
) -> (SubscribeStateView, SubscribeActionView) {
    if form_is_valid(form) {
        (
            SubscribeStateView::OpeningTransaction(
                IntakeView {
                    subscriber: NewSubscriberView { email: form.email, name: form.name },
                    subscription_token: token,
                    subscriber_id,
                    base_url,
                },
            ),
            SubscribeActionView::BeginTransaction,
        )
    } else {
        (
            SubscribeStateView::Done,
            SubscribeActionView::Respond(
                Err(SubscribeErrorView::ValidationError(form_rejection(form))),
            ),
        )
    }
}

/// How a subscription goes on once the operation it was waiting for has
/// ended. While all goes well: the subscriber row, then the token row, then
/// the commit, then the confirmation mail, then the answer. The first
/// failure ends it with an answer that says what was being attempted.
pub open spec fn subscription_step(state: SubscribeStateView, event: SubscribeEventView) -> (
    SubscribeStateView,
    SubscribeActionView,
) {
    match state {
        SubscribeStateView::OpeningTransaction(intake) => match event {
            SubscribeEventView::Completed => (
                SubscribeStateView::InsertingSubscriber(intake),
                SubscribeActionView::InsertSubscriber(
                    pending_row(intake.subscriber, intake.subscriber_id),
                ),
            ),
            SubscribeEventView::Failed(sources) => subscription_failed(
                sources,
                "Failed to aquire transaction"@,
            ),
        },
        SubscribeStateView::InsertingSubscriber(intake) => match event {
            SubscribeEventView::Completed => (
                SubscribeStateView::SavingToken(intake),
                SubscribeActionView::SaveToken(
                    TokenRecord {
                        subscription_token: intake.subscription_token,
                        subscriber_id: intake.subscriber_id,
                    },
                ),
            ),
            SubscribeEventView::Failed(sources) => subscription_failed(
                sources,
                "Failed to insert subscriber"@,
            ),
        },
        SubscribeStateView::SavingToken(intake) => match event {
            SubscribeEventView::Completed => (
                SubscribeStateView::Committing(intake),
                SubscribeActionView::Commit,
            ),
            SubscribeEventView::Failed(sources) => subscription_failed(
                seq![save_token_error_text()] + sources,
                "Failed to save token"@,
            ),
        },
        SubscribeStateView::Committing(intake) => match event {
            SubscribeEventView::Completed => (
                SubscribeStateView::SendingConfirmation,
                SubscribeActionView::SendEmail(
                    confirmation_email(
                        intake.subscriber.email,
                        confirmation_link(intake.base_url, intake.subscription_token),
                    ),
                ),
            ),
            SubscribeEventView::Failed(sources) => subscription_failed(
                sources,
                "Failed to commit transaction"@,
            ),
        },
        SubscribeStateView::SendingConfirmation => match event {
            SubscribeEventView::Completed => (
                SubscribeStateView::Done,
                SubscribeActionView::Respond(Ok(())),
            ),
            SubscribeEventView::Failed(sources) => subscription_failed(
                sources,
                "Failed to send confirmation link"@,
            ),
        },
        SubscribeStateView::Done => subscription_failed(
            Seq::empty(),
            "No operation is pending"@,
        ),
    }
}

fn fail(sources: Vec<String>, context: &str) -> (r: (SubscribeState, SubscribeAction))
    ensures
        (r.0@, r.1@) == subscription_failed(texts(sources@), context@),
{
    (
        SubscribeState::Done,
        SubscribeAction::Respond(
            Err(SubscribeError::UnexpectedError(sources, context.to_string())),
        ),
    )
}

/// Begins a subscription with the token and the subscriber id that were
/// drawn for it.
pub fn start_subscription(
    form: FormData,
    base_url: &ApplicationBaseUrl,
    subscription_token: String,
    subscriber_id: u128,
) -> (r: (SubscribeState, SubscribeAction))
    ensures
        (r.0@, r.1@) == subscription_start(form@, base_url@, subscription_token@, subscriber_id),
{
    match NewSubscriber::try_from(form) {
        Err(reason) => (
            SubscribeState::Done,
            SubscribeAction::Respond(Err(SubscribeError::from(reason))),
        ),
        Ok(subscriber) => (
            SubscribeState::OpeningTransaction(
                Intake {
                    subscriber,
                    subscription_token,
                    subscriber_id,
                    base_url: base_url.0.clone(),
                },
            ),
            SubscribeAction::BeginTransaction,
        ),
    }
}

/// Takes in a subscription form. A form that passes validation gets a fresh
/// confirmation token and a fresh subscriber id, and the first operation
/// asked for is to open a transaction; any other form is answered at once
/// with the reason.
pub fn subscribe(form: FormData, base_url: &ApplicationBaseUrl) -> (r: (
    SubscribeState,
    SubscribeAction,
))
    ensures
        exists|token: Seq<char>, subscriber_id: u128|
            is_subscription_token(token) && (r.0@, r.1@) == #[trigger] subscription_start(
                form@,
                base_url@,
                token,
                subscriber_id,
            ),
{
    let ghost form_view = form@;
    let token = generate_subscription_token();
    let subscriber_id = random_uuid();
    let ghost token_view = token@;
    let r = start_subscription(form, base_url, token, subscriber_id);
    proof {
        assert((r.0@, r.1@) == subscription_start(
            form_view,
            base_url@,
            token_view,
            subscriber_id,
        ));
    }
    r
}

/// Takes a subscription one step further, from the end of the operation that
/// it was waiting for to the next operation, or to the answer.
pub fn continue_subscription(state: SubscribeState, event: SubscribeEvent) -> (r: (
    SubscribeState,
    SubscribeAction,
))
    ensures
        (r.0@, r.1@) == subscription_step(state@, event@),
{
    match state {
        SubscribeState::OpeningTransaction(intake) => match event {
            SubscribeEvent::Completed => {
                let row = insert_subscriber(&intake.subscriber, intake.subscriber_id);
                (SubscribeState::InsertingSubscriber(intake), SubscribeAction::InsertSubscriber(row))
            },
            SubscribeEvent::Failed(sources) => fail(sources, "Failed to aquire transaction"),
        },
        SubscribeState::InsertingSubscriber(intake) => match event {
            SubscribeEvent::Completed => {
                let row = save_token(intake.subscriber_id, intake.subscription_token.as_str());
                (SubscribeState::SavingToken(intake), SubscribeAction::SaveToken(row))
            },
            SubscribeEvent::Failed(sources) => fail(sources, "Failed to insert subscriber"),
        },
        SubscribeState::SavingToken(intake) => match event {
            SubscribeEvent::Completed => (
                SubscribeState::Committing(intake),
                SubscribeAction::Commit,
            ),
            SubscribeEvent::Failed(sources) => {
                let error = SaveTokenError(sources);
                let message = error.to_string();
                fail(with_context(message.as_str(), error.0), "Failed to save token")
            },
        },
        SubscribeState::Committing(intake) => match event {
            SubscribeEvent::Completed => {
                let link = generate_confirmation_link(
                    intake.base_url.as_str(),
                    intake.subscription_token.as_str(),
                );
                let mail = send_confirmation_link(intake.subscriber.email, link.as_str());
                (SubscribeState::SendingConfirmation, SubscribeAction::SendEmail(mail))
            },
            SubscribeEvent::Failed(sources) => fail(sources, "Failed to commit transaction"),
        },
        SubscribeState::SendingConfirmation => match event {
            SubscribeEvent::Completed => (SubscribeState::Done, SubscribeAction::Respond(Ok(()))),
            SubscribeEvent::Failed(sources) => fail(sources, "Failed to send confirmation link"),
        },
        SubscribeState::Done => {
            let none: Vec<String> = Vec::new();
            proof {
                assert(texts(none@) =~= Seq::<Seq<char>>::empty());
            }
            fail(none, "No operation is pending")
        },
    }
}

} // verus!
