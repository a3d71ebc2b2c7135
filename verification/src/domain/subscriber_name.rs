//! The display name of a subscriber.

use crate::text::{
    char_is_white_space,
    chars_of,
    is_blank,
    is_white_space,
    law_blank_means_trimmed_to_nothing,
    trim,
};
use unicode_segmentation::UnicodeSegmentation;
use vstd::prelude::*;
use vstd::string::*;

verus! {

/// The longest name accepted, in extended grapheme clusters.
pub const MAX_NAME_GRAPHEMES: usize = 256;

/// The characters that no name may hold.
pub open spec fn is_forbidden(c: char) -> bool {
    c == '/' || c == '(' || c == ')' || c == '"' || c == '<' || c == '>' || c == '\\' || c == '{'
        || c == '}'
}

/// Whether a forbidden character occurs anywhere in `s`.
pub open spec fn has_forbidden_char(s: Seq<char>) -> bool {
    exists|i: int| 0 <= i < s.len() && is_forbidden(#[trigger] s[i])
}

/// The number of extended grapheme clusters of a string (Unicode UAX #29), as
/// the `unicode_segmentation` crate counts them.
pub uninterp spec fn grapheme_count(s: Seq<char>) -> nat;

/// The rule for names, over the string and the number of its grapheme
/// clusters: not blank, at most 256 clusters, no forbidden character.
pub open spec fn name_is_acceptable(s: Seq<char>, graphemes: nat) -> bool {
    &&& !is_blank(s)
    &&& graphemes <= MAX_NAME_GRAPHEMES
    &&& !has_forbidden_char(s)
}

/// A string is a valid name when the rule accepts it with its own count.
pub open spec fn is_valid_name(s: Seq<char>) -> bool {
    name_is_acceptable(s, grapheme_count(s))
}

/// A name is valid exactly when something is left of it after trimming, it
/// has at most 256 grapheme clusters, and no forbidden character is in it.
pub proof fn law_valid_names(s: Seq<char>)
    ensures
        is_valid_name(s) <==> trim(s).len() > 0 && grapheme_count(s) <= 256 && !has_forbidden_char(
            s,
        ),
{
    law_blank_means_trimmed_to_nothing(s);
}

/// What `SubscriberName::parse` answers for a string it rejects.
pub open spec fn name_error(s: Seq<char>) -> Seq<char> {
    s + " is not a valid subscriber name."@
}

/// Counts the extended grapheme clusters of `s` by
/// `unicode_segmentation::UnicodeSegmentation::graphemes(s, true)`.
///
/// Trusted: the count is the crate's, named [`grapheme_count`]; nothing more
/// is claimed of it.
#[verifier::external_body]
fn count_graphemes(s: &str) -> (n: usize)
    ensures
        n == grapheme_count(s@),
{
    s.graphemes(true).count()
}

/// Whether no name may hold `c`.
fn char_is_forbidden(c: char) -> (b: bool)
    ensures
        b == is_forbidden(c),
{
    c == '/' || c == '(' || c == ')' || c == '"' || c == '<' || c == '>' || c == '\\' || c == '{'
        || c == '}'
}

/// Applies the rule for names to `s`, given the number of its grapheme clusters.
pub fn name_verdict(s: &str, graphemes: usize) -> (ok: bool)
    ensures
        ok == name_is_acceptable(s@, graphemes as nat),
{
    let chars = chars_of(s);
    let mut blank = true;
    let mut forbidden = false;
    let mut i: usize = 0;
    while i < chars.len()
        invariant
            i <= chars.len(),
            blank == is_blank(chars@.take(i as int)),
            forbidden == has_forbidden_char(chars@.take(i as int)),
        decreases chars.len() - i,
    {
        let c = chars[i];
        let ghost before = chars@.take(i as int);
        let ghost after = chars@.take(i + 1);
        proof {
            assert(after =~= before.push(c));
            assert(after[i as int] == c);
            if has_forbidden_char(before) {
                let j = choose|j: int| 0 <= j < before.len() && is_forbidden(#[trigger] before[j]);
                assert(is_forbidden(after[j]));
            }
            if has_forbidden_char(after) && !is_forbidden(c) {
                let j = choose|j: int| 0 <= j < after.len() && is_forbidden(#[trigger] after[j]);
                assert(is_forbidden(before[j]));
            }
            if is_blank(after) {
                assert forall|j: int| 0 <= j < before.len() implies is_white_space(
                    #[trigger] before[j],
                ) by {
                    assert(after[j] == before[j]);
                }
            }
        }
        if !char_is_white_space(c) {
            blank = false;
        }
        if char_is_forbidden(c) {
            forbidden = true;
        }
        i = i + 1;
    }
    assert(chars@.take(chars.len() as int) =~= s@);
    !blank && graphemes <= MAX_NAME_GRAPHEMES && !forbidden
}

/// The display name of a subscriber: not blank, at most 256 grapheme
/// clusters, free of the forbidden characters.
#[derive(Debug)]
pub struct SubscriberName(String);

impl View for SubscriberName {
    type V = Seq<char>;

    closed spec fn view(&self) -> Seq<char> {
        self.0@
    }
}

impl SubscriberName {
    #[verifier::type_invariant]
    spec fn valid(self) -> bool {
        is_valid_name(self.0@)
    }

    /// Gives the name up as a plain string.
    pub fn inner(self) -> (s: String)
        ensures
            s@ == self@,
            is_valid_name(s@),
    {
        proof {
            use_type_invariant(&self);
        }
        self.0
    }

    /// Accepts `s` if it is a valid name, and says why not otherwise.
    pub fn parse(s: String) -> (r: Result<SubscriberName, String>)
        ensures
            r is Ok <==> is_valid_name(s@),
            r matches Ok(name) ==> name@ == s@,
            r matches Err(msg) ==> msg@ == name_error(s@),
    {
        let graphemes = count_graphemes(s.as_str());
        SubscriberName::from_counted(s, graphemes)
    }

    /// Wraps `s` or turns it down, given the number of its grapheme clusters.
    pub fn from_counted(s: String, graphemes: usize) -> (r: Result<SubscriberName, String>)
        requires
            graphemes == grapheme_count(s@),
        ensures
            r is Ok <==> name_is_acceptable(s@, graphemes as nat),
            r matches Ok(name) ==> name@ == s@,
            r matches Err(msg) ==> msg@ == name_error(s@),
    {
        if name_verdict(s.as_str(), graphemes) {
            Ok(SubscriberName(s))
        } else {
            let mut msg = s;
            msg.append(" is not a valid subscriber name.");
            Err(msg)
        }
    }

    /// The name as text.
    pub fn as_ref(&self) -> (s: &str)
        ensures
            s@ == self@,
            is_valid_name(s@),
    {
        proof {
            use_type_invariant(self);
        }
        self.0.as_str()
    }
}

} // verus!
