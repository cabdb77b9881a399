//! Publishing a newsletter issue: who may publish, and to whom it goes.

use crate::domain::subscriber_email::{email_grammar_accepts, email_rejection, SubscriberEmail};
use crate::routes::error_chain::{
    chain_of, copy_chain_from, error_chain_fmt, error_chain_text, texts, with_context,
};
use crate::email_client::{Email, EmailView};
use crate::persistence::{StoredCredentials, StoredCredentialsView};
use argon2::{Argon2, PasswordHash, PasswordVerifier};
use base64::Engine;
use vstd::prelude::*;
use vstd::slice::slice_subrange;
use vstd::utf8::{decode_utf8, encode_utf8, valid_utf8};

verus! {

/// A newsletter issue as it is handed in for publishing.
#[derive(Debug)]
pub struct PublishNLBody {
    pub title: String,
    pub content: PublishContent,
}

/// The two renderings of an issue.
#[derive(Debug)]
pub struct PublishContent {
    pub html: String,
    pub text: String,
}

/// The mathematical content of a `PublishNLBody`.
pub struct IssueView {
    pub title: Seq<char>,
    pub html: Seq<char>,
    pub text: Seq<char>,
}

impl View for PublishNLBody {
    type V = IssueView;

    open spec fn view(&self) -> IssueView {
        IssueView { title: self.title@, html: self.content.html@, text: self.content.text@ }
    }
}

/// A username and a password as a caller presents them.
pub struct Credentials {
    pub username: String,
    pub password: String,
}

/// The mathematical content of `Credentials`.
pub struct CredentialsView {
    pub username: Seq<char>,
    pub password: Seq<char>,
}

impl View for Credentials {
    type V = CredentialsView;

    open spec fn view(&self) -> CredentialsView {
        CredentialsView { username: self.username@, password: self.password@ }
    }
}

/// Why publishing did not go through.
#[derive(Debug)]
pub enum PublishError {
    /// The caller did not prove to be a publisher. Holds what went wrong and
    /// the sources of that, the nearest first.
    AuthError(Vec<String>),
    /// Something outside failed. Holds what was being attempted and then the
    /// messages of the failure and of its sources, the nearest first.
    UnexpectedError(Vec<String>),
}

/// The mathematical content of a `PublishError`.
pub enum PublishErrorView {
    AuthError(Seq<Seq<char>>),
    UnexpectedError(Seq<Seq<char>>),
}

impl View for PublishError {
    type V = PublishErrorView;

    open spec fn view(&self) -> PublishErrorView {
        match self {
            PublishError::AuthError(sources) => PublishErrorView::AuthError(texts(sources@)),
            PublishError::UnexpectedError(chain) => PublishErrorView::UnexpectedError(
                texts(chain@),
            ),
        }
    }
}

/// What answers a request: a status and, with the status 401, the challenge
/// that tells the caller how to authenticate.
#[derive(Debug)]
pub struct Response {
    pub status: u16,
    pub www_authenticate: Option<String>,
}

/// The mathematical content of a `Response`.
pub struct ResponseView {
    pub status: u16,
    pub www_authenticate: Option<Seq<char>>,
}

impl View for Response {
    type V = ResponseView;

    open spec fn view(&self) -> ResponseView {
        ResponseView {
            status: self.status,
            www_authenticate: match self.www_authenticate {
                Some(challenge) => Some(challenge@),
                None => None,
            },
        }
    }
}

/// The challenge sent with every refusal to authenticate.
pub open spec fn challenge() -> Seq<char> {
    "Basic realm=\"publish\""@
}

impl PublishErrorView {
    pub open spec fn status_code(self) -> u16 {
        match self {
            PublishErrorView::AuthError(_) => 401,
            PublishErrorView::UnexpectedError(_) => 500,
        }
    }

    /// The answer to the caller. It depends on the kind of error alone.
    pub open spec fn error_response(self) -> ResponseView {
        match self {
            PublishErrorView::AuthError(_) => ResponseView {
                status: 401,
                www_authenticate: Some(challenge()),
            },
            PublishErrorView::UnexpectedError(_) => ResponseView {
                status: 500,
                www_authenticate: None,
            },
        }
    }

    /// The error's own message.
    pub open spec fn message(self) -> Seq<char> {
        match self {
            PublishErrorView::AuthError(_) => "Authentication Failed"@,
            PublishErrorView::UnexpectedError(chain) => if chain.len() > 0 {
                chain[0]
            } else {
                Seq::empty()
            },
        }
    }

    /// The messages of what caused the error, the nearest first.
    pub open spec fn sources(self) -> Seq<Seq<char>> {
        match self {
            PublishErrorView::AuthError(sources) => sources,
            PublishErrorView::UnexpectedError(chain) => if chain.len() > 0 {
                chain.skip(1)
            } else {
                Seq::empty()
            },
        }
    }

    /// The error's own message and then those of its sources.
    pub open spec fn chain(self) -> Seq<Seq<char>> {
        seq![self.message()] + self.sources()
    }
}

impl PublishError {
    pub fn status_code(&self) -> (r: u16)
        ensures
            r == self@.status_code(),
    {
        match self {
            PublishError::UnexpectedError(_) => 500,
            PublishError::AuthError(_) => 401,
        }
    }

    pub fn error_response(&self) -> (r: Response)
        ensures
            r@ == self@.error_response(),
            r@.status == self@.status_code(),
    {
        match self {
            PublishError::AuthError(_) => Response {
                status: 401,
                www_authenticate: Some("Basic realm=\"publish\"".to_string()),
            },
            PublishError::UnexpectedError(_) => Response {
                status: 500,
                www_authenticate: None,
            },
        }
    }

    pub fn to_string(&self) -> (r: String)
        ensures
            r@ == self@.message(),
    {
        match self {
            PublishError::AuthError(_) => "Authentication Failed".to_string(),
            PublishError::UnexpectedError(chain) => if chain.len() > 0 {
                chain[0].clone()
            } else {
                String::new()
            },
        }
    }

    /// The messages of what caused the error, the nearest first.
    pub fn sources(&self) -> (r: Vec<String>)
        ensures
            texts(r@) == self@.sources(),
    {
        match self {
            PublishError::AuthError(sources) => copy_chain_from(sources, 0),
            PublishError::UnexpectedError(chain) => if chain.len() > 0 {
                copy_chain_from(chain, 1)
            } else {
                let none: Vec<String> = Vec::new();
                proof {
                    assert(texts(none@) =~= Seq::<Seq<char>>::empty());
                }
                none
            },
        }
    }

    /// The error with the chain of its sources, for diagnostics.
    pub fn error_chain(&self) -> (r: String)
        ensures
            r@ == error_chain_text(self@.message(), self@.sources()),
    {
        let message = self.to_string();
        let sources = self.sources();
        error_chain_fmt(message.as_str(), &sources)
    }
}

/// The answer to a request to publish: the status 200 where the issue went
/// out, else the answer that the error asks for.
pub open spec fn publication_response(result: Result<(), PublishErrorView>) -> ResponseView {
    match result {
        Ok(_) => ResponseView { status: 200, www_authenticate: None },
        Err(e) => e.error_response(),
    }
}

pub fn response(result: &Result<(), PublishError>) -> (r: Response)
    ensures
        r@ == publication_response(
            match result {
                Ok(_) => Ok(()),
                Err(e) => Err(e@),
            },
        ),
{
    match result {
        Ok(_) => Response { status: 200, www_authenticate: None },
        Err(e) => e.error_response(),
    }
}

/// The bytes that may occur in a header value that is read as text: the
/// printable characters of ASCII, the space and the tab.
pub open spec fn is_visible_ascii(b: u8) -> bool {
    (32 <= b && b < 127) || b == 9
}

pub open spec fn all_visible_ascii(value: Seq<u8>) -> bool {
    forall|i: int| 0 <= i < value.len() ==> is_visible_ascii(#[trigger] value[i])
}

/// The name of the scheme and the space after it, in ASCII: `Basic `.
pub open spec fn basic_scheme() -> Seq<u8> {
    seq![66u8, 97u8, 115u8, 105u8, 99u8, 32u8]
}

pub open spec fn has_basic_scheme(value: Seq<u8>) -> bool {
    value.len() >= 6 && value.take(6) == basic_scheme()
}

/// What the base64 text `encoded` stands for, in the standard alphabet and
/// with canonical padding required; `None` where it is no such encoding.
pub uninterp spec fn base64_decoded(encoded: Seq<u8>) -> Option<Seq<u8>>;

/// `i` is where the first colon of `text` stands.
pub open spec fn is_first_colon(text: Seq<char>, i: int) -> bool {
    &&& 0 <= i < text.len()
    &&& text[i] == ':'
    &&& forall|j: int| 0 <= j < i ==> text[j] != ':'
}

pub open spec fn first_colon(text: Seq<char>) -> int {
    choose|i: int| is_first_colon(text, i)
}

/// The username is what stands before the first colon and the password is
/// all that stands after it. Without a colon there is no password.
pub open spec fn split_at_colon(text: Seq<char>) -> Option<CredentialsView> {
    if exists|i: int| is_first_colon(text, i) {
        Some(
            CredentialsView {
                username: text.take(first_colon(text)),
                password: text.skip(first_colon(text) + 1),
            },
        )
    } else {
        None
    }
}

/// The credentials that the decoded bytes hold, or what is wrong with them.
pub open spec fn decoded_credentials(decoded: Seq<u8>) -> Result<CredentialsView, Seq<char>> {
    if !valid_utf8(decoded) {
        Err("The decoded credentials is not valid utf-8"@)
    } else {
        match split_at_colon(decode_utf8(decoded)) {
            Some(credentials) => Ok(credentials),
            None => Err("Password must be provided"@),
        }
    }
}

/// The credentials that an `Authorization` header presents under the scheme
/// `Basic`, or what is wrong with it. `None` stands for a request without the
/// header.
pub open spec fn basic_credentials(authorization: Option<Seq<u8>>) -> Result<
    CredentialsView,
    Seq<char>,
> {
    match authorization {
        None => Err("'Authorization' header missing"@),
        Some(value) => if !all_visible_ascii(value) {
            Err("'Authorization' header was not a valid utf-8 string"@)
        } else if !has_basic_scheme(value) {
            Err("The Authorization scheme was not Basic"@)
        } else {
            match base64_decoded(value.skip(6)) {
                None => Err("Failed to decode base64 credentials"@),
                Some(decoded) => decoded_credentials(decoded),
            }
        },
    }
}

/// `base64::DecodeError`, which says why some text is no base64. Nothing is
/// read from it.
#[verifier::external_type_specification]
#[verifier::external_body]
pub struct ExDecodeError(base64::DecodeError);

/// `std::string::FromUtf8Error`, which says why some bytes are no UTF-8.
/// Nothing is read from it.
#[verifier::external_type_specification]
#[verifier::external_body]
pub struct ExFromUtf8Error(std::string::FromUtf8Error);

/// `Engine::decode` of `base64::engine::general_purpose::STANDARD`: decodes
/// base64 in the standard alphabet, and refuses input whose padding is
/// missing or not canonical.
#[verifier::external_body]
fn decode_base64(encoded: &[u8]) -> (r: Result<Vec<u8>, base64::DecodeError>)
    ensures
        match r {
            Ok(decoded) => base64_decoded(encoded@) == Some(decoded@),
            Err(_) => base64_decoded(encoded@) is None,
        },
{
    base64::engine::general_purpose::STANDARD.decode(encoded)
}

/// `String::from_utf8` turns bytes into the text that they encode, and fails
/// if and only if they are not UTF-8.
pub assume_specification[ String::from_utf8 ](vec: Vec<u8>) -> (r: Result<
    String,
    std::string::FromUtf8Error,
>)
    ensures
        match r {
            Ok(text) => valid_utf8(vec@) && text@ == decode_utf8(vec@),
            Err(_) => !valid_utf8(vec@),
        },
;

/// If `text` has a first colon at all, it is at one place only.
pub proof fn lemma_first_colon_is_unique(text: Seq<char>, i: int)
    requires
        is_first_colon(text, i),
    ensures
        first_colon(text) == i,
{
    let j = first_colon(text);
    assert(is_first_colon(text, j));
    if j < i {
        assert(text[j] != ':');
    } else if i < j {
        assert(text[i] != ':');
    }
}

/// What is split at the first colon is the username, the colon and the
/// password, one after another, and the username holds no colon.
pub proof fn lemma_split_parts(text: Seq<char>)
    requires
        split_at_colon(text) is Some,
    ensures
        ({
            let credentials = split_at_colon(text)->Some_0;
            &&& text == credentials.username + seq![':'] + credentials.password
            &&& !credentials.username.contains(':')
        }),
{
    let i = first_colon(text);
    let credentials = split_at_colon(text)->Some_0;
    assert(text =~= text.take(i) + seq![':'] + text.skip(i + 1));
    if credentials.username.contains(':') {
        let j = choose|j: int| 0 <= j < credentials.username.len() && credentials.username[j] == ':';
        assert(text[j] == ':');
    }
}

/// A username without a colon, a colon and a password, put together, are
/// split into that username and that password again. Text without any colon
/// is not split.
pub proof fn lemma_split_restores_credentials(username: Seq<char>, password: Seq<char>)
    requires
        !username.contains(':'),
    ensures
        split_at_colon(username + seq![':'] + password) == Some(
            CredentialsView { username, password },
        ),
        split_at_colon(username) is None,
{
    let text = username + seq![':'] + password;
    let at = username.len() as int;
    assert(text[at] == ':');
    assert forall|j: int| 0 <= j < at implies text[j] != ':' by {
        assert(text[j] == username[j]);
        assert(username.contains(username[j]));
    }
    assert(is_first_colon(text, at));
    lemma_first_colon_is_unique(text, at);
    assert(text.take(at) =~= username);
    assert(text.skip(at + 1) =~= password);
    assert forall|i: int| !is_first_colon(username, i) by {
        if 0 <= i < username.len() {
            assert(username.contains(username[i]));
        }
    }
}

/// Splits `username:password` at the first colon.
pub fn split_credentials(text: &str) -> (r: Option<Credentials>)
    ensures
        match r {
            Some(credentials) => split_at_colon(text@) == Some(credentials@),
            None => split_at_colon(text@) is None,
        },
{
    let length = text.unicode_len();
    let mut at: Option<usize> = None;
    let mut n: usize = 0;
    for c in it: text.chars()
        invariant
            it.seq() == text@,
            length == text@.len(),
            n == it.index(),
            match at {
                Some(i) => is_first_colon(text@, i as int),
                None => forall|j: int| 0 <= j < it.index() ==> text@[j] != ':',
            },
    {
        if at.is_none() && c == ':' {
            at = Some(n);
        }
        n = n + 1;
    }
    match at {
        None => {
            proof {
                assert forall|i: int| !is_first_colon(text@, i) by {}
            }
            None
        },
        Some(i) => {
            proof {
                lemma_first_colon_is_unique(text@, i as int);
            }
            let username = text.substring_char(0, i).to_string();
            let password = text.substring_char(i + 1, length).to_string();
            Some(Credentials { username, password })
        },
    }
}

/// The credentials that the decoded bytes of an `Authorization` header hold:
/// the bytes must be UTF-8, and a colon must part the username from the
/// password.
pub fn credentials_from_decoded(decoded: Vec<u8>) -> (r: Result<Credentials, Vec<String>>)
    ensures
        match r {
            Ok(credentials) => decoded_credentials(decoded@) == Ok::<CredentialsView, Seq<char>>(
                credentials@,
            ),
            Err(chain) => decoded_credentials(decoded@) is Err && texts(chain@) == seq![
                decoded_credentials(decoded@)->Err_0,
            ],
        },
{
    match String::from_utf8(decoded) {
        Err(_) => Err(chain_of("The decoded credentials is not valid utf-8")),
        Ok(text) => match split_credentials(text.as_str()) {
            None => Err(chain_of("Password must be provided")),
            Some(credentials) => Ok(credentials),
        },
    }
}

/// What a header value is made of, if there is a header.
pub open spec fn header_bytes(authorization: Option<&[u8]>) -> Option<Seq<u8>> {
    match authorization {
        Some(value) => Some(value@),
        None => None,
    }
}

/// Reads the credentials out of the value of the `Authorization` header,
/// which must be visible ASCII, start with `Basic ` and go on with the base64
/// encoding of `username:password`. Says what is wrong where it is not.
pub fn basic_authentication(authorization: Option<&[u8]>) -> (r: Result<
    Credentials,
    Vec<String>,
>)
    ensures
        match r {
            Ok(credentials) => basic_credentials(header_bytes(authorization)) == Ok::<
                CredentialsView,
                Seq<char>,
            >(credentials@),
            Err(chain) => basic_credentials(header_bytes(authorization)) is Err && texts(chain@)
                == seq![basic_credentials(header_bytes(authorization))->Err_0],
        },
{
    let value = match authorization {
        None => {
            return Err(chain_of("'Authorization' header missing"));
        },
        Some(value) => value,
    };
    let mut i: usize = 0;
    while i < value.len()
        invariant
            i <= value.len(),
            authorization == Some(value),
            forall|j: int| 0 <= j < i ==> is_visible_ascii(#[trigger] value@[j]),
        decreases value.len() - i,
    {
        let b = value[i];
        if !((32 <= b && b < 127) || b == 9) {
            proof {
                assert(!is_visible_ascii(value@[i as int]));
            }
            return Err(chain_of("'Authorization' header was not a valid utf-8 string"));
        }
        i = i + 1;
    }
    if !(value.len() >= 6 && value[0] == 66 && value[1] == 97 && value[2] == 115 && value[3] == 105
        && value[4] == 99 && value[5] == 32) {
        proof {
            if value@.len() >= 6 {
                let scheme = value@.take(6);
                assert(scheme[0] == value@[0] && scheme[1] == value@[1] && scheme[2] == value@[2]
                    && scheme[3] == value@[3] && scheme[4] == value@[4] && scheme[5] == value@[5]);
            }
        }
        return Err(chain_of("The Authorization scheme was not Basic"));
    }
    proof {
        assert(value@.take(6) =~= basic_scheme());
        assert(value@.subrange(6, value@.len() as int) =~= value@.skip(6));
    }
    let encoded = slice_subrange(value, 6, value.len());
    match decode_base64(encoded) {
        Err(_) => Err(chain_of("Failed to decode base64 credentials")),
        Ok(decoded) => credentials_from_decoded(decoded),
    }
}

/// Whether `text` is a password hash in the PHC string format: the fields
/// `$id[$v=version][$params][$salt[$hash]]`, each well-formed.
pub uninterp spec fn is_phc_string(text: Seq<char>) -> bool;

/// Whether Argon2 accepts `password` for the PHC string `hash`: the hash
/// names one of the Argon2 algorithms, and that algorithm, run on the
/// password with the salt and the parameters that the string gives, yields
/// the digest that the string holds.
pub uninterp spec fn argon2_accepts(hash: Seq<char>, password: Seq<u8>) -> bool;

/// `password_hash::Error`, which says why a password hash could not be read
/// or used. Nothing is read from it.
#[verifier::external_type_specification]
#[verifier::external_body]
pub struct ExPasswordHashError(argon2::password_hash::Error);

/// Parses `expected` with `PasswordHash::new`, which fails if and only if it
/// is no PHC string, and then has `Argon2::default()` check `candidate`
/// against it with `PasswordVerifier::verify_password`, which succeeds if
/// and only if the password gives the hash.
#[verifier::external_body]
fn argon2_verify(expected: &str, candidate: &[u8]) -> (r: Result<
    bool,
    argon2::password_hash::Error,
>)
    ensures
        match r {
            Ok(accepted) => is_phc_string(expected@) && accepted == argon2_accepts(
                expected@,
                candidate@,
            ),
            Err(_) => !is_phc_string(expected@),
        },
{
    let parsed = PasswordHash::new(expected)?;
    Ok(Argon2::default().verify_password(candidate, &parsed).is_ok())
}

/// The mathematical content of the result of a step that may fail.
pub open spec fn result_view(result: Result<(), PublishError>) -> Result<(), PublishErrorView> {
    match result {
        Ok(_) => Ok(()),
        Err(e) => Err(e@),
    }
}

/// What a check of a password against a stored hash comes to, given whether
/// the hash could be read (`None` if not) and, if so, whether it accepts the
/// password.
pub open spec fn check_outcome(accepted: Option<bool>) -> Result<(), PublishErrorView> {
    match accepted {
        None => Err(
            PublishErrorView::UnexpectedError(seq!["Failed to parse hash in PHC string format."@]),
        ),
        Some(false) => Err(PublishErrorView::AuthError(seq!["Invalid Password."@])),
        Some(true) => Ok(()),
    }
}

/// What the check of the password `candidate` against the stored hash
/// `expected` comes to.
pub open spec fn password_check(expected: Seq<char>, candidate: Seq<char>) -> Result<
    (),
    PublishErrorView,
> {
    check_outcome(
        if is_phc_string(expected) {
            Some(argon2_accepts(expected, encode_utf8(candidate)))
        } else {
            None
        },
    )
}

/// Whether the hash was read and, if so, whether it accepted the password.
pub open spec fn accepted_of(checked: Result<bool, argon2::password_hash::Error>) -> Option<
    bool,
> {
    match checked {
        Ok(accepted) => Some(accepted),
        Err(_) => None,
    }
}

/// Turns what Argon2 reported into the outcome of the check: a hash that
/// could not be read is an unexpected error, a password that the hash does
/// not accept is a failure to authenticate.
pub fn password_check_outcome(checked: Result<bool, argon2::password_hash::Error>) -> (r: Result<
    (),
    PublishError,
>)
    ensures
        result_view(r) == check_outcome(accepted_of(checked)),
{
    match checked {
        Err(_) => Err(
            PublishError::UnexpectedError(chain_of("Failed to parse hash in PHC string format.")),
        ),
        Ok(false) => Err(PublishError::AuthError(chain_of("Invalid Password."))),
        Ok(true) => Ok(()),
    }
}

/// Checks a password against a stored hash. This computes the hash of the
/// candidate and is slow by design: run it where it holds up nothing else.
pub fn verify_password_hash(expected_password_hash: String, password_candidate: String) -> (r:
    Result<(), PublishError>)
    ensures
        result_view(r) == password_check(expected_password_hash@, password_candidate@),
{
    let checked = argon2_verify(
        expected_password_hash.as_str(),
        password_candidate.as_str().as_bytes(),
    );
    password_check_outcome(checked)
}

/// A subscriber that the issue goes to.
#[derive(Debug)]
pub struct ConfirmedSubscriber {
    pub email: SubscriberEmail,
}

/// Reads one address out of the subscriber table as a confirmed subscriber,
/// or says why the address is not one to send to.
pub fn confirmed_subscriber(address: String) -> (r: Result<ConfirmedSubscriber, String>)
    ensures
        match r {
            Ok(subscriber) => email_grammar_accepts(address@) && subscriber.email@ == address@,
            Err(reason) => !email_grammar_accepts(address@) && reason@ == email_rejection(address@),
        },
{
    match SubscriberEmail::parse(address) {
        Ok(email) => Ok(ConfirmedSubscriber { email }),
        Err(reason) => Err(reason),
    }
}

/// A password hash that belongs to nobody. A caller who names an unknown
/// user has the password checked against it, so that the answer takes as
/// long to come as for a known user with a wrong password.
pub open spec fn dummy_password_hash() -> Seq<char> {
    "$argon2id$v=19$m=15000,t=2,p=1$gZiV/M1gPc22ElAH/Jh1Hw$CWOrkoo7oJBQ/iyh7uJ0LO2aLEfrHwTWllSAxT0zRno"@
}

/// The user that the credentials table knows under the username, if any.
pub open spec fn user_of(found: Option<StoredCredentialsView>) -> Option<u128> {
    match found {
        Some(stored) => Some(stored.user_id),
        None => None,
    }
}

/// The hash that the password is checked against: the one stored for the
/// username, or the dummy hash where the username is unknown.
pub open spec fn hash_to_check(found: Option<StoredCredentialsView>) -> Seq<char> {
    match found {
        Some(stored) => stored.password_hash,
        None => dummy_password_hash(),
    }
}

/// Whom the credentials identify, given the user found under the username
/// and the outcome of the password check: the user, if there is one and
/// the check passed, and nobody else.
pub open spec fn validated_user(
    user_id: Option<u128>,
    checked: Result<(), PublishErrorView>,
) -> Result<u128, PublishErrorView> {
    match user_id {
        None => Err(PublishErrorView::AuthError(seq!["Unknown username"@])),
        Some(id) => match checked {
            Ok(_) => Ok(id),
            Err(e) => Err(PublishErrorView::AuthError(seq!["Invalid password."@] + e.chain())),
        },
    }
}

/// The content of what the credentials table holds for a username, if
/// anything.
pub open spec fn found_view(found: Option<StoredCredentials>) -> Option<StoredCredentialsView> {
    match found {
        Some(stored) => Some(stored@),
        None => None,
    }
}

/// Picks the hash to check the password against, so that a check is made
/// whether or not the username is known.
pub fn expected_hash(found: Option<StoredCredentials>) -> (r: (Option<u128>, String))
    ensures
        r.0 == user_of(found_view(found)),
        r.1@ == hash_to_check(found_view(found)),
{
    match found {
        Some(stored) => (Some(stored.user_id), stored.password_hash),
        None => (
            None,
            "$argon2id$v=19$m=15000,t=2,p=1$gZiV/M1gPc22ElAH/Jh1Hw$CWOrkoo7oJBQ/iyh7uJ0LO2aLEfrHwTWllSAxT0zRno".to_string(),
        ),
    }
}

/// Decides whom the presented credentials identify, once the password has
/// been checked. A caller under an unknown username is turned away whatever
/// the check against the dummy hash gave.
pub fn validate_credentials(user_id: Option<u128>, checked: Result<(), PublishError>) -> (r: Result<
    u128,
    PublishError,
>)
    ensures
        match r {
            Ok(id) => validated_user(user_id, result_view(checked)) == Ok::<u128, PublishErrorView>(
                id,
            ),
            Err(e) => validated_user(user_id, result_view(checked)) == Err::<
                u128,
                PublishErrorView,
            >(e@),
        },
{
    match user_id {
        None => Err(PublishError::AuthError(chain_of("Unknown username"))),
        Some(id) => match checked {
            Ok(_) => Ok(id),
            Err(e) => {
                let message = e.to_string();
                let chain = with_context(message.as_str(), e.sources());
                Err(PublishError::AuthError(with_context("Invalid password.", chain)))
            },
        },
    }
}

/// Where the publishing of an issue stands: which outside operation it is
/// waiting for.
pub enum PublishState {
    FetchingCredentials { password: String, issue: PublishNLBody },
    /// `user_id` is `None` where the username is unknown and the password is
    /// being checked against the dummy hash.
    VerifyingPassword { user_id: Option<u128>, issue: PublishNLBody },
    LoadingSubscribers { issue: PublishNLBody },
    /// `subscribers` holds the addresses of the confirmed subscribers as they
    /// are stored; those before `next` have been dealt with, the last of
    /// them by the operation that is awaited.
    Delivering { issue: PublishNLBody, subscribers: Vec<String>, next: usize },
    Done,
}

/// The mathematical content of a `PublishState`.
pub enum PublishStateView {
    FetchingCredentials { password: Seq<char>, issue: IssueView },
    VerifyingPassword { user_id: Option<u128>, issue: IssueView },
    LoadingSubscribers { issue: IssueView },
    Delivering { issue: IssueView, subscribers: Seq<Seq<char>>, next: nat },
    Done,
}

impl View for PublishState {
    type V = PublishStateView;

    open spec fn view(&self) -> PublishStateView {
        match self {
            PublishState::FetchingCredentials { password, issue } => {
                PublishStateView::FetchingCredentials { password: password@, issue: issue@ }
            },
            PublishState::VerifyingPassword { user_id, issue } => {
                PublishStateView::VerifyingPassword { user_id: *user_id, issue: issue@ }
            },
            PublishState::LoadingSubscribers { issue } => PublishStateView::LoadingSubscribers {
                issue: issue@,
            },
            PublishState::Delivering { issue, subscribers, next } => PublishStateView::Delivering {
                issue: issue@,
                subscribers: texts(subscribers@),
                next: *next as nat,
            },
            PublishState::Done => PublishStateView::Done,
        }
    }
}

/// How the outside operation that was asked for last has ended.
pub enum PublishEvent {
    /// A message was handed to the mail provider, or a warning was recorded.
    Completed,
    /// The credentials table was read: what it holds for the username.
    CredentialsFetched(Option<StoredCredentials>),
    /// `verify_password_hash` has run and returned this.
    PasswordChecked(Result<(), PublishError>),
    /// The subscriber table was read: the addresses of the confirmed
    /// subscribers, as they are stored.
    SubscribersLoaded(Vec<String>),
    /// It failed. Holds the messages of the failure and of its sources, the
    /// nearest first.
    Failed(Vec<String>),
}

/// The mathematical content of a `PublishEvent`.
pub enum PublishEventView {
    Completed,
    CredentialsFetched(Option<StoredCredentialsView>),
    PasswordChecked(Result<(), PublishErrorView>),
    SubscribersLoaded(Seq<Seq<char>>),
    Failed(Seq<Seq<char>>),
}

impl View for PublishEvent {
    type V = PublishEventView;

    open spec fn view(&self) -> PublishEventView {
        match self {
            PublishEvent::Completed => PublishEventView::Completed,
            PublishEvent::CredentialsFetched(found) => PublishEventView::CredentialsFetched(
                found_view(*found),
            ),
            PublishEvent::PasswordChecked(result) => PublishEventView::PasswordChecked(
                result_view(*result),
            ),
            PublishEvent::SubscribersLoaded(addresses) => PublishEventView::SubscribersLoaded(
                texts(addresses@),
            ),
            PublishEvent::Failed(sources) => PublishEventView::Failed(texts(sources@)),
        }
    }
}

/// What is to be done next for the publishing of an issue.
pub enum PublishAction {
    /// Read what the credentials table holds for the username.
    GetStoredCredentials(String),
    /// Run `verify_password_hash` on the two, on a worker that may be kept
    /// busy, and report what it returns.
    VerifyPasswordHash { expected_password_hash: String, password_candidate: String },
    /// Read the addresses of all subscribers whose status is confirmed.
    GetConfirmedSubscribers,
    /// Hand the message to the mail provider.
    SendEmail(Email),
    /// Record a warning: a confirmed subscriber is passed over, for the
    /// reason given.
    Warn { message: String, reason: String },
    /// Answer the request.
    Respond(Result<(), PublishError>),
}

/// The mathematical content of a `PublishAction`.
pub enum PublishActionView {
    GetStoredCredentials(Seq<char>),
    VerifyPasswordHash { expected_password_hash: Seq<char>, password_candidate: Seq<char> },
    GetConfirmedSubscribers,
    SendEmail(EmailView),
    Warn { message: Seq<char>, reason: Seq<char> },
    Respond(Result<(), PublishErrorView>),
}

impl View for PublishAction {
    type V = PublishActionView;

    open spec fn view(&self) -> PublishActionView {
        match self {
            PublishAction::GetStoredCredentials(username) => {
                PublishActionView::GetStoredCredentials(username@)
            },
            PublishAction::VerifyPasswordHash { expected_password_hash, password_candidate } => {
                PublishActionView::VerifyPasswordHash {
                    expected_password_hash: expected_password_hash@,
                    password_candidate: password_candidate@,
                }
            },
            PublishAction::GetConfirmedSubscribers => PublishActionView::GetConfirmedSubscribers,
            PublishAction::SendEmail(mail) => PublishActionView::SendEmail(mail@),
            PublishAction::Warn { message, reason } => PublishActionView::Warn {
                message: message@,
                reason: reason@,
            },
            PublishAction::Respond(result) => PublishActionView::Respond(result_view(*result)),
        }
    }
}

/// The publishing ends with the given answer.
pub open spec fn publication_ends(result: Result<(), PublishErrorView>) -> (
    PublishStateView,
    PublishActionView,
) {
    (PublishStateView::Done, PublishActionView::Respond(result))
}

/// The publishing ends because something outside failed.
pub open spec fn publication_failed(context: Seq<char>, sources: Seq<Seq<char>>) -> (
    PublishStateView,
    PublishActionView,
) {
    publication_ends(Err(PublishErrorView::UnexpectedError(seq![context] + sources)))
}

/// The publishing ends because the caller did not prove to be a publisher.
pub open spec fn publication_refused(context: Seq<char>, sources: Seq<Seq<char>>) -> (
    PublishStateView,
    PublishActionView,
) {
    publication_ends(Err(PublishErrorView::AuthError(seq![context] + sources)))
}

/// The publishing ends because what was reported back is not the end of the
/// operation that was asked for.
pub open spec fn publication_confused() -> (PublishStateView, PublishActionView) {
    publication_failed("Unexpected event"@, Seq::empty())
}

/// The issue as a message for one recipient.
pub open spec fn newsletter(issue: IssueView, recipient: Seq<char>) -> EmailView {
    EmailView {
        recipient,
        subject: issue.title,
        html_content: issue.html,
        text_content: issue.text,
    }
}

pub open spec fn skip_warning() -> Seq<char> {
    "Skipping Confirmed Subscriber. Invalid data stored"@
}

/// What is done about the subscriber at `next`: the issue is sent to an
/// address that passes validation, and a warning is recorded about any
/// other. Past the last subscriber the answer is success.
pub open spec fn delivery_from(issue: IssueView, subscribers: Seq<Seq<char>>, next: nat) -> (
    PublishStateView,
    PublishActionView,
) {
    if next >= subscribers.len() {
        publication_ends(Ok(()))
    } else {
        (
            PublishStateView::Delivering { issue, subscribers, next: next + 1 },
            if email_grammar_accepts(subscribers[next as int]) {
                PublishActionView::SendEmail(newsletter(issue, subscribers[next as int]))
            } else {
                PublishActionView::Warn {
                    message: skip_warning(),
                    reason: email_rejection(subscribers[next as int]),
                }
            },
        )
    }
}

/// How the publishing of `issue` begins, given the value of the request's
/// `Authorization` header: without well-formed credentials it is refused at
/// once, and with them the credentials table is asked about the username.
pub open spec fn publication_start(issue: IssueView, authorization: Option<Seq<u8>>) -> (
    PublishStateView,
    PublishActionView,
) {
    match basic_credentials(authorization) {
        Err(reason) => publication_refused(reason, Seq::empty()),
        Ok(credentials) => (
            PublishStateView::FetchingCredentials { password: credentials.password, issue },
            PublishActionView::GetStoredCredentials(credentials.username),
        ),
    }
}

/// How the publishing of an issue goes on once the operation it was waiting
/// for has ended.
///
/// The password is checked against the hash stored for the username, or
/// against the dummy hash where the username is unknown. Only a known user
/// whose password the hash accepts goes on; everyone else is refused.
/// Then the confirmed subscribers are read and dealt with one by one, in the
/// order in which they came. The first failure outside ends the publishing
/// with an answer that says what was being attempted.
pub open spec fn publication_step(state: PublishStateView, event: PublishEventView) -> (
    PublishStateView,
    PublishActionView,
) {
    match state {
        PublishStateView::FetchingCredentials { password, issue } => match event {
            PublishEventView::CredentialsFetched(found) => (
                PublishStateView::VerifyingPassword { user_id: user_of(found), issue },
                PublishActionView::VerifyPasswordHash {
                    expected_password_hash: hash_to_check(found),
                    password_candidate: password,
                },
            ),
            PublishEventView::Failed(sources) => publication_failed(
                "Failed to fetch credentials from database"@,
                sources,
            ),
            _ => publication_confused(),
        },
        PublishStateView::VerifyingPassword { user_id, issue } => match event {
            PublishEventView::PasswordChecked(checked) => match validated_user(user_id, checked) {
                Ok(_) => (
                    PublishStateView::LoadingSubscribers { issue },
                    PublishActionView::GetConfirmedSubscribers,
                ),
                Err(e) => publication_ends(Err(e)),
            },
            PublishEventView::Failed(sources) => publication_failed(
                "Failed to spawn blocking task."@,
                sources,
            ),
            _ => publication_confused(),
        },
        PublishStateView::LoadingSubscribers { issue } => match event {
            PublishEventView::SubscribersLoaded(subscribers) => delivery_from(
                issue,
                subscribers,
                0,
            ),
            PublishEventView::Failed(sources) => publication_failed(
                "Failed to get subscribers from db"@,
                sources,
            ),
            _ => publication_confused(),
        },
        PublishStateView::Delivering { issue, subscribers, next } => match event {
            PublishEventView::Completed => delivery_from(issue, subscribers, next),
            PublishEventView::Failed(sources) => if 1 <= next <= subscribers.len() {
                publication_failed(
                    "Failed to send newsletter: "@ + subscribers[next - 1],
                    sources,
                )
            } else {
                publication_confused()
            },
            _ => publication_confused(),
        },
        PublishStateView::Done => publication_confused(),
    }
}

fn ends_failed(context: &str, sources: Vec<String>) -> (r: (PublishState, PublishAction))
    ensures
        (r.0@, r.1@) == publication_failed(context@, texts(sources@)),
{
    (
        PublishState::Done,
        PublishAction::Respond(Err(PublishError::UnexpectedError(with_context(context, sources)))),
    )
}

fn ends_confused() -> (r: (PublishState, PublishAction))
    ensures
        (r.0@, r.1@) == publication_confused(),
{
    let none: Vec<String> = Vec::new();
    proof {
        assert(texts(none@) =~= Seq::<Seq<char>>::empty());
    }
    ends_failed("Unexpected event", none)
}

/// Deals with the subscriber at `next`, if there is one left.
fn deliver_from(issue: PublishNLBody, subscribers: Vec<String>, next: usize) -> (r: (
    PublishState,
    PublishAction,
))
    ensures
        (r.0@, r.1@) == delivery_from(issue@, texts(subscribers@), next as nat),
{
    if next >= subscribers.len() {
        return (PublishState::Done, PublishAction::Respond(Ok(())));
    }
    let action = match confirmed_subscriber(subscribers[next].clone()) {
        Ok(subscriber) => PublishAction::SendEmail(
            Email {
                recipient: subscriber.email,
                subject: issue.title.clone(),
                html_content: issue.content.html.clone(),
                text_content: issue.content.text.clone(),
            },
        ),
        Err(reason) => PublishAction::Warn {
            message: "Skipping Confirmed Subscriber. Invalid data stored".to_string(),
            reason,
        },
    };
    (PublishState::Delivering { issue, subscribers, next: next + 1 }, action)
}

/// Takes in a request to publish `body`, with the value of the request's
/// `Authorization` header, if it has one.
pub fn publish_newsletter(body: PublishNLBody, authorization: Option<&[u8]>) -> (r: (
    PublishState,
    PublishAction,
))
    ensures
        (r.0@, r.1@) == publication_start(body@, header_bytes(authorization)),
{
    match basic_authentication(authorization) {
        Err(reason) => (
            PublishState::Done,
            PublishAction::Respond(Err(PublishError::AuthError(reason))),
        ),
        Ok(credentials) => (
            PublishState::FetchingCredentials { password: credentials.password, issue: body },
            PublishAction::GetStoredCredentials(credentials.username),
        ),
    }
}

/// Takes the publishing of an issue one step further, from the end of the
/// operation that it was waiting for to the next operation, or to the answer.
pub fn continue_publication(state: PublishState, event: PublishEvent) -> (r: (
    PublishState,
    PublishAction,
))
    ensures
        (r.0@, r.1@) == publication_step(state@, event@),
{
    match state {
        PublishState::FetchingCredentials { password, issue } => match event {
            PublishEvent::CredentialsFetched(found) => {
                let (user_id, expected_password_hash) = expected_hash(found);
                (
                    PublishState::VerifyingPassword { user_id, issue },
                    PublishAction::VerifyPasswordHash {
                        expected_password_hash,
                        password_candidate: password,
                    },
                )
            },
            PublishEvent::Failed(sources) => ends_failed(
                "Failed to fetch credentials from database",
                sources,
            ),
            _ => ends_confused(),
        },
        PublishState::VerifyingPassword { user_id, issue } => match event {
            PublishEvent::PasswordChecked(checked) => match validate_credentials(user_id, checked) {
                Ok(_) => (
                    PublishState::LoadingSubscribers { issue },
                    PublishAction::GetConfirmedSubscribers,
                ),
                Err(e) => (PublishState::Done, PublishAction::Respond(Err(e))),
            },
            PublishEvent::Failed(sources) => ends_failed("Failed to spawn blocking task.", sources),
            _ => ends_confused(),
        },
        PublishState::LoadingSubscribers { issue } => match event {
            PublishEvent::SubscribersLoaded(subscribers) => deliver_from(issue, subscribers, 0),
            PublishEvent::Failed(sources) => ends_failed(
                "Failed to get subscribers from db",
                sources,
            ),
            _ => ends_confused(),
        },
        PublishState::Delivering { issue, subscribers, next } => match event {
            PublishEvent::Completed => deliver_from(issue, subscribers, next),
            PublishEvent::Failed(sources) => if 1 <= next && next <= subscribers.len() {
                let context = crate::text::join2(
                    "Failed to send newsletter: ",
                    subscribers[next - 1].as_str(),
                );
                ends_failed(context.as_str(), sources)
            } else {
                ends_confused()
            },
            _ => ends_confused(),
        },
        PublishState::Done => ends_confused(),
    }
}

} // verus!
