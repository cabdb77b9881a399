use crate::text::join2;
use unicode_segmentation::UnicodeSegmentation;
use vstd::prelude::*;

verus! {

/// The largest number of grapheme clusters a subscriber name may have.
pub const MAX_NAME_GRAPHEMES: usize = 256;

/// Characters that may not occur anywhere in a subscriber name.
pub open spec fn is_forbidden_char(c: char) -> bool {
    c == '/' || c == '(' || c == ')' || c == '"' || c == '<' || c == '>' || c == '\\' || c == '['
        || c == ']' || c == '{' || c == '}'
}

/// The characters with the Unicode property `White_Space`.
pub open spec fn is_whitespace_char(c: char) -> bool {
    ('\u{9}' <= c && c <= '\u{D}') || c == ' ' || c == '\u{85}' || c == '\u{A0}' || c
        == '\u{1680}' || ('\u{2000}' <= c && c <= '\u{200A}') || c == '\u{2028}' || c
        == '\u{2029}' || c == '\u{202F}' || c == '\u{205F}' || c == '\u{3000}'
}

/// Nothing is left of `s` once leading and trailing whitespace is removed.
pub open spec fn is_blank(s: Seq<char>) -> bool {
    forall|i: int| 0 <= i < s.len() ==> is_whitespace_char(#[trigger] s[i])
}

pub open spec fn has_forbidden_char(s: Seq<char>) -> bool {
    exists|i: int| 0 <= i < s.len() && is_forbidden_char(#[trigger] s[i])
}

/// The number of extended grapheme clusters that `s` is made of, as Unicode
/// Standard Annex #29 divides it.
pub uninterp spec fn grapheme_count(s: Seq<char>) -> nat;

/// Whether a name is accepted, given the number of grapheme clusters in it.
pub open spec fn name_is_acceptable(s: Seq<char>, graphemes: nat) -> bool {
    &&& !is_blank(s)
    &&& graphemes <= MAX_NAME_GRAPHEMES
    &&& !has_forbidden_char(s)
}

pub open spec fn is_valid_name(s: Seq<char>) -> bool {
    name_is_acceptable(s, grapheme_count(s))
}

/// The reason given when `s` is turned down as a name.
pub open spec fn name_rejection(s: Seq<char>) -> Seq<char> {
    s + " is not valid subscriber name"@
}

/// A subscriber's name that has passed validation.
#[derive(Debug)]
pub struct SubscriberName(String);

impl View for SubscriberName {
    type V = Seq<char>;

    closed spec fn view(&self) -> Seq<char> {
        self.0@
    }
}

pub fn forbidden_char(c: char) -> (r: bool)
    ensures
        r == is_forbidden_char(c),
{
    c == '/' || c == '(' || c == ')' || c == '"' || c == '<' || c == '>' || c == '\\' || c == '['
        || c == ']' || c == '{' || c == '}'
}

pub fn whitespace_char(c: char) -> (r: bool)
    ensures
        r == is_whitespace_char(c),
{
    ('\u{9}' <= c && c <= '\u{D}') || c == ' ' || c == '\u{85}' || c == '\u{A0}' || c
        == '\u{1680}' || ('\u{2000}' <= c && c <= '\u{200A}') || c == '\u{2028}' || c
        == '\u{2029}' || c == '\u{202F}' || c == '\u{205F}' || c == '\u{3000}'
}

/// Counts the items of `UnicodeSegmentation::graphemes(s, true)`, the extended
/// grapheme clusters of `s`. The clusters are non-empty pieces that `s` is cut
/// into, so there are no more of them than characters.
#[verifier::external_body]
fn count_graphemes(s: &str) -> (n: usize)
    ensures
        n == grapheme_count(s@),
        n <= s@.len(),
{
    s.graphemes(true).count()
}

/// Decides whether `s` is accepted as a name when it has `graphemes` grapheme
/// clusters: it must hold something other than whitespace, at most
/// `MAX_NAME_GRAPHEMES` clusters and no forbidden character.
pub fn acceptable_name(s: &str, graphemes: usize) -> (ok: bool)
    ensures
        ok == name_is_acceptable(s@, graphemes as nat),
{
    let mut blank = true;
    let mut forbidden = false;
    for c in it: s.chars()
        invariant
            it.seq() == s@,
            blank == is_blank(s@.take(it.index())),
            forbidden == has_forbidden_char(s@.take(it.index())),
    {
        proof {
            let before = s@.take(it.index());
            let after = s@.take(it.index() + 1);
            assert(after =~= before.push(c));
            if is_blank(before) && is_whitespace_char(c) {
                assert(is_blank(after));
            } else if !is_blank(before) {
                let k = choose|k: int| 0 <= k < before.len() && !is_whitespace_char(before[k]);
                assert(!is_whitespace_char(after[k]));
            } else {
                assert(!is_whitespace_char(after[it.index()]));
            }
            if has_forbidden_char(before) {
                let k = choose|k: int| 0 <= k < before.len() && is_forbidden_char(before[k]);
                assert(is_forbidden_char(after[k]));
            } else if is_forbidden_char(c) {
                assert(is_forbidden_char(after[it.index()]));
            } else {
                assert(!has_forbidden_char(after));
            }
        }
        if !whitespace_char(c) {
            blank = false;
        }
        if forbidden_char(c) {
            forbidden = true;
        }
    }
    proof {
        assert(s@.take(s@.len() as int) =~= s@);
    }
    !blank && graphemes <= MAX_NAME_GRAPHEMES && !forbidden
}

impl SubscriberName {
    #[verifier::type_invariant]
    spec fn valid(self) -> bool {
        is_valid_name(self.0@)
    }

    /// Accepts `s` as a name, or says why not. A name has no more grapheme
    /// clusters than characters.
    pub fn parse(s: String) -> (r: Result<SubscriberName, String>)
        ensures
            match r {
                Ok(name) => is_valid_name(s@) && name@ == s@,
                Err(reason) => !is_valid_name(s@) && reason@ == name_rejection(s@),
            },
            grapheme_count(s@) <= s@.len(),
    {
        let graphemes = count_graphemes(s.as_str());
        if acceptable_name(s.as_str(), graphemes) {
            Ok(SubscriberName(s))
        } else {
            Err(join2(s.as_str(), " is not valid subscriber name"))
        }
    }

    /// The name as text. Every name in existence is a valid one.
    pub fn as_ref(&self) -> (r: &str)
        ensures
            r@ == self@,
            is_valid_name(self@),
    {
        proof {
            use_type_invariant(self);
        }
        self.0.as_str()
    }
}

} // verus!
