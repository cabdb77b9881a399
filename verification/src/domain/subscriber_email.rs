use crate::text::join2;
use validator::ValidateEmail;
use vstd::prelude::*;

verus! {

/// Whether `s` is an e-mail address by the grammar of the HTML standard's
/// "valid e-mail address", with the length limits of RFC 5321 on both parts
/// and with internationalised domain names admitted.
pub uninterp spec fn email_grammar_accepts(s: Seq<char>) -> bool;

/// The reason given when `s` is turned down as an e-mail address.
pub open spec fn email_rejection(s: Seq<char>) -> Seq<char> {
    s + " is not a valid subscriber email"@
}

/// A subscriber's e-mail address that has passed validation.
#[derive(Debug)]
pub struct SubscriberEmail(String);

impl View for SubscriberEmail {
    type V = Seq<char>;

    closed spec fn view(&self) -> Seq<char> {
        self.0@
    }
}

/// Calls `ValidateEmail::validate_email` on `s`. An address that it accepts is
/// not empty and holds an `@`.
#[verifier::external_body]
fn validate_email(s: &str) -> (accepted: bool)
    ensures
        accepted == email_grammar_accepts(s@),
        accepted ==> s@.len() > 0 && s@.contains('@'),
{
    ValidateEmail::validate_email(&s)
}

/// What becomes of the candidate address `s` once it is known whether the
/// grammar accepts it: the address itself, or the reason for turning it down.
pub fn email_outcome(s: String, accepted: bool) -> (r: Result<String, String>)
    ensures
        accepted ==> r == Ok::<String, String>(s),
        !accepted ==> r is Err && r->Err_0@ == email_rejection(s@),
{
    if accepted {
        Ok(s)
    } else {
        Err(join2(s.as_str(), " is not a valid subscriber email"))
    }
}

impl SubscriberEmail {
    #[verifier::type_invariant]
    spec fn valid(self) -> bool {
        email_grammar_accepts(self.0@)
    }

    /// Accepts `s` as an e-mail address, or says why not. An address that is
    /// accepted is not empty and holds an `@`.
    pub fn parse(s: String) -> (r: Result<SubscriberEmail, String>)
        ensures
            match r {
                Ok(email) => email_grammar_accepts(s@) && email@ == s@,
                Err(reason) => !email_grammar_accepts(s@) && reason@ == email_rejection(s@),
            },
            email_grammar_accepts(s@) ==> s@.len() > 0 && s@.contains('@'),
    {
        let accepted = validate_email(s.as_str());
        match email_outcome(s, accepted) {
            Ok(address) => Ok(SubscriberEmail(address)),
            Err(reason) => Err(reason),
        }
    }

    /// The address as text. Every address in existence is a valid one.
    pub fn as_ref(&self) -> (r: &str)
        ensures
            r@ == self@,
            email_grammar_accepts(self@),
    {
        proof {
            use_type_invariant(self);
        }
        self.0.as_str()
    }
}

} // verus!
