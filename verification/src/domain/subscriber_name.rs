//! The name under which somebody subscribes.

use unicode_segmentation::UnicodeSegmentation;
use vstd::prelude::*;
use vstd::string::*;

verus! {

broadcast use vstd::string::group_string_axioms;

/// The most grapheme clusters that a name may have.
pub const MAX_GRAPHEMES: usize = 256;

/// Whether `c` may not occur in a name.
pub open spec fn is_forbidden(c: char) -> bool {
    c == '/' || c == '(' || c == ')' || c == '"' || c == '<' || c == '>' || c == '\\' || c == '{'
        || c == '}'
}

/// Whether some character of `s` is forbidden in a name.
pub open spec fn has_forbidden_character(s: Seq<char>) -> bool {
    exists|i: int| 0 <= i < s.len() && is_forbidden(#[trigger] s[i])
}

/// Whether `c` is white space: one of the 25 characters with the Unicode
/// property White_Space.
pub open spec fn is_white_space(c: char) -> bool {
    ('\u{9}' <= c && c <= '\u{d}') || c == ' ' || c == '\u{85}' || c == '\u{a0}' || c
        == '\u{1680}' || ('\u{2000}' <= c && c <= '\u{200a}') || c == '\u{2028}' || c
        == '\u{2029}' || c == '\u{202f}' || c == '\u{205f}' || c == '\u{3000}'
}

/// Whether a string holds nothing but white space.
pub open spec fn is_blank(s: Seq<char>) -> bool {
    forall|i: int| 0 <= i < s.len() ==> is_white_space(#[trigger] s[i])
}

/// A string without the white space at its start.
pub open spec fn trim_start(s: Seq<char>) -> Seq<char>
    decreases s.len(),
{
    if s.len() > 0 && is_white_space(s[0]) {
        trim_start(s.drop_first())
    } else {
        s
    }
}

/// A string without the white space at its end.
pub open spec fn trim_end(s: Seq<char>) -> Seq<char>
    decreases s.len(),
{
    if s.len() > 0 && is_white_space(s.last()) {
        trim_end(s.drop_last())
    } else {
        s
    }
}

/// A string without the white space at both its ends.
pub open spec fn trimmed(s: Seq<char>) -> Seq<char> {
    trim_end(trim_start(s))
}

/// Nothing is left of a string without its leading white space exactly when
/// the string is blank; what is left begins with a character that is no
/// white space.
pub proof fn lemma_trim_start(s: Seq<char>)
    ensures
        trim_start(s).len() == 0 <==> is_blank(s),
        trim_start(s).len() > 0 ==> !is_white_space(trim_start(s)[0]),
    decreases s.len(),
{
    if s.len() > 0 && is_white_space(s[0]) {
        let rest = s.drop_first();
        lemma_trim_start(rest);
        if is_blank(rest) {
            assert forall|i: int| 0 <= i < s.len() implies is_white_space(#[trigger] s[i]) by {
                if i > 0 {
                    assert(s[i] == rest[i - 1]);
                }
            }
        }
        if is_blank(s) {
            assert forall|i: int| 0 <= i < rest.len() implies is_white_space(
                #[trigger] rest[i],
            ) by {
                assert(rest[i] == s[i + 1]);
            }
        }
    } else if s.len() > 0 {
        assert(!is_white_space(s[0]));
    }
}

/// Nothing is left of a string without its trailing white space exactly when
/// the string is blank.
pub proof fn lemma_trim_end(s: Seq<char>)
    ensures
        trim_end(s).len() == 0 <==> is_blank(s),
    decreases s.len(),
{
    if s.len() > 0 && is_white_space(s.last()) {
        let rest = s.drop_last();
        lemma_trim_end(rest);
        if is_blank(rest) {
            assert forall|i: int| 0 <= i < s.len() implies is_white_space(#[trigger] s[i]) by {
                if i < rest.len() {
                    assert(s[i] == rest[i]);
                }
            }
        }
        if is_blank(s) {
            assert forall|i: int| 0 <= i < rest.len() implies is_white_space(
                #[trigger] rest[i],
            ) by {
                assert(rest[i] == s[i]);
            }
        }
    } else if s.len() > 0 {
        assert(!is_white_space(s[s.len() - 1]));
    }
}

/// Trimming leaves nothing exactly of a blank string: one that is empty or
/// holds white space only.
pub proof fn lemma_trimmed_is_empty_iff_blank(s: Seq<char>)
    ensures
        trimmed(s).len() == 0 <==> is_blank(s),
{
    lemma_trim_start(s);
    lemma_trim_end(trim_start(s));
    let rest = trim_start(s);
    if rest.len() > 0 {
        assert(!is_white_space(rest[0]));
    }
}

/// A blank name is refused.
pub proof fn lemma_blank_name_is_invalid(s: Seq<char>)
    requires
        is_blank(s),
    ensures
        !is_valid_name(s),
{
    lemma_trimmed_is_empty_iff_blank(s);
}

/// The number of extended grapheme clusters into which
/// `unicode_segmentation` splits a string.
pub uninterp spec fn extended_grapheme_count(s: Seq<char>) -> nat;

/// Whether `s` is accepted as a subscriber's name: not empty or white space
/// only, at most 256 grapheme clusters, and free of forbidden characters.
pub open spec fn is_valid_name(s: Seq<char>) -> bool {
    &&& trimmed(s).len() > 0
    &&& extended_grapheme_count(s) <= MAX_GRAPHEMES
    &&& !has_forbidden_character(s)
}

/// The text of the error for a name that is refused.
pub open spec fn invalid_name_message(s: Seq<char>) -> Seq<char> {
    s + " is not a valid subscriber name"@
}

/// Calls `str::trim`: the result is the string without the leading and the
/// trailing characters that have the Unicode property White_Space.
#[verifier::external_body]
fn trim(s: &str) -> (rest: &str)
    ensures
        rest@ == trimmed(s@),
{
    s.trim()
}

/// Calls `UnicodeSegmentation::graphemes` for extended grapheme clusters and
/// counts what it yields.
#[verifier::external_body]
fn count_graphemes(s: &str) -> (count: usize)
    ensures
        count == extended_grapheme_count(s@),
{
    s.graphemes(true).count()
}

/// Whether `c` is one of the characters that a name may not hold.
pub fn is_forbidden_character(c: char) -> (forbidden: bool)
    ensures
        forbidden == is_forbidden(c),
{
    c == '/' || c == '(' || c == ')' || c == '"' || c == '<' || c == '>' || c == '\\' || c == '{'
        || c == '}'
}

/// Whether `s` holds a character that a name may not hold.
pub fn contains_forbidden_character(s: &str) -> (found: bool)
    ensures
        found == has_forbidden_character(s@),
{
    let mut rest = s.chars();
    let ghost mut seen: int = 0;
    loop
        invariant
            0 <= seen <= s@.len(),
            vstd::std_specs::iter::IteratorSpec::remaining(&rest) == s@.skip(seen),
            forall|i: int| 0 <= i < seen ==> !is_forbidden(#[trigger] s@[i]),
        decreases s@.len() - seen,
    {
        match rest.next() {
            Some(c) => {
                assert(c == s@.skip(seen)[0]);
                if is_forbidden_character(c) {
                    assert(is_forbidden(s@[seen]));
                    return true;
                }
                proof {
                    assert(s@.skip(seen).drop_first() =~= s@.skip(seen + 1));
                    seen = seen + 1;
                }
            },
            None => {
                assert(s@.skip(seen).len() == 0);
                return false;
            },
        }
    }
}

/// A subscriber's name that has passed validation.
#[derive(Debug)]
pub struct SubscriberName(String);

impl View for SubscriberName {
    type V = Seq<char>;

    closed spec fn view(&self) -> Seq<char> {
        self.0@
    }
}

impl Clone for SubscriberName {
    fn clone(&self) -> (copy: Self)
        ensures
            copy@ == self@,
    {
        proof {
            use_type_invariant(self);
        }
        SubscriberName(self.0.clone())
    }
}

impl SubscriberName {
    #[verifier::type_invariant]
    spec fn well_formed(self) -> bool {
        is_valid_name(self.0@)
    }

    /// Validates `value` as a name.
    ///
    /// Refused are a name that is empty or white space only, one of more
    /// than 256 grapheme clusters, and one that holds any of
    /// `/ ( ) " < > \ { }`. The error is the name followed by
    /// `" is not a valid subscriber name"`.
    pub fn parse(value: String) -> (parsed: Result<SubscriberName, String>)
        ensures
            match parsed {
                Ok(name) => is_valid_name(value@) && name@ == value@,
                Err(message) => !is_valid_name(value@) && message@ == invalid_name_message(value@),
            },
    {
        let is_empty_or_whitespace = trim(value.as_str()).is_empty();
        let is_too_long = count_graphemes(value.as_str()) > MAX_GRAPHEMES;
        let contains_forbidden_characters = contains_forbidden_character(value.as_str());
        if is_empty_or_whitespace || is_too_long || contains_forbidden_characters {
            Err(value.concat(" is not a valid subscriber name"))
        } else {
            Ok(SubscriberName(value))
        }
    }

    /// The name's characters.
    pub fn as_ref(&self) -> (s: &str)
        ensures
            s@ == self@,
            is_valid_name(s@),
    {
        proof {
            use_type_invariant(self);
        }
        self.0.as_str()
    }
}

} // verus!
