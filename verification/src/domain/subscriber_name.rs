//! The name a subscriber registers under.

use unicode_segmentation::UnicodeSegmentation;
use vstd::prelude::*;

verus! {

/// A name may span at most this many grapheme clusters.
pub const MAX_NAME_GRAPHEMES: usize = 256;

/// The number of extended grapheme clusters that `text` splits into.
pub uninterp spec fn grapheme_count(text: Seq<char>) -> nat;

/// Whether `c` carries the Unicode property `White_Space`.
pub uninterp spec fn is_white_space(c: char) -> bool;

/// `UnicodeSegmentation::graphemes` in its extended mode splits a string into
/// grapheme clusters by tables that are part of the crate, so the number of
/// clusters depends on the text alone; `grapheme_count` stands for that number.
#[verifier::external_body]
fn count_graphemes(text: &str) -> (count: usize)
    ensures
        count == grapheme_count(text@),
{
    text.graphemes(true).count()
}

/// `char::is_whitespace` tells whether a character has the property
/// `White_Space`; `is_white_space` stands for its answer.
pub assume_specification[ char::is_whitespace ](c: char) -> (b: bool)
    ensures
        b == is_white_space(c),
;

/// The characters that no name may contain.
pub open spec fn is_forbidden(c: char) -> bool {
    ||| c == '/'
    ||| c == '('
    ||| c == ')'
    ||| c == '"'
    ||| c == '<'
    ||| c == '>'
    ||| c == '\\'
    ||| c == '{'
    ||| c == '}'
    ||| c == '|'
}

/// `text` is empty or consists of white space only.
pub open spec fn is_blank(text: Seq<char>) -> bool {
    forall|i: int| 0 <= i < text.len() ==> is_white_space(#[trigger] text[i])
}

/// Some character of `text` is forbidden in names.
pub open spec fn has_forbidden(text: Seq<char>) -> bool {
    exists|i: int| 0 <= i < text.len() && is_forbidden(#[trigger] text[i])
}

/// What makes a text a subscriber name, given the number of grapheme
/// clusters it spans.
pub open spec fn is_acceptable(text: Seq<char>, graphemes: nat) -> bool {
    &&& !is_blank(text)
    &&& graphemes <= MAX_NAME_GRAPHEMES
    &&& !has_forbidden(text)
}

/// The texts that are subscriber names.
pub open spec fn is_valid_name(text: Seq<char>) -> bool {
    is_acceptable(text, grapheme_count(text))
}

/// The message that reports `text` as rejected.
pub open spec fn name_rejection(text: Seq<char>) -> Seq<char> {
    "The value is not a valid subscriber name. value = "@ + text
}

/// A subscriber's name: never blank, never longer than
/// [`MAX_NAME_GRAPHEMES`] grapheme clusters, free of forbidden characters.
#[derive(Debug)]
pub struct SubscriberName(String);

impl View for SubscriberName {
    type V = Seq<char>;

    closed spec fn view(&self) -> Seq<char> {
        self.0@
    }
}

impl PartialEq for SubscriberName {
    fn eq(&self, other: &Self) -> (equal: bool) {
        self.0 == other.0
    }
}

impl vstd::std_specs::cmp::PartialEqSpecImpl for SubscriberName {
    open spec fn obeys_eq_spec() -> bool {
        true
    }

    open spec fn eq_spec(&self, other: &Self) -> bool {
        self@ == other@
    }
}

impl SubscriberName {
    #[verifier::type_invariant]
    spec fn holds_a_valid_name(&self) -> bool {
        is_valid_name(self.0@)
    }

    /// Accepts `value` as a name if and only if it is one, and otherwise
    /// reports it.
    pub fn parse(value: String) -> (r: Result<SubscriberName, String>)
        ensures
            r is Ok <==> is_valid_name(value@),
            r matches Ok(name) ==> name@ == value@,
            r matches Err(message) ==> message@ == name_rejection(value@),
    {
        let graphemes = count_graphemes(value.as_str());
        if Self::is_acceptable(value.as_str(), graphemes) {
            Ok(SubscriberName(value))
        } else {
            Err(Self::rejection(value.as_str()))
        }
    }

    /// Decides whether `value`, which spans `graphemes` grapheme clusters,
    /// can be a name.
    pub fn is_acceptable(value: &str, graphemes: usize) -> (ok: bool)
        ensures
            ok == is_acceptable(value@, graphemes as nat),
    {
        let mut blank: bool = true;
        let mut forbidden: bool = false;
        for c in chars: value.chars()
            invariant
                chars.seq() == value@,
                blank == is_blank(value@.take(chars.index())),
                forbidden == has_forbidden(value@.take(chars.index())),
        {
            proof {
                lemma_scan_step(value@, chars.index());
            }
            blank = blank && c.is_whitespace();
            forbidden = forbidden || is_forbidden_character(c);
        }
        assert(value@.take(value@.len() as int) == value@);
        !blank && graphemes <= MAX_NAME_GRAPHEMES && !forbidden
    }

    /// The message that reports `value` as rejected.
    pub fn rejection(value: &str) -> (message: String)
        ensures
            message@ == name_rejection(value@),
    {
        let mut message = "The value is not a valid subscriber name. value = ".to_owned();
        message.append(value);
        message
    }

    /// The name as text.
    pub fn as_ref(&self) -> (text: &str)
        ensures
            text@ == self@,
            is_valid_name(text@),
    {
        proof {
            use_type_invariant(self);
        }
        self.0.as_str()
    }
}

/// A text of at most [`MAX_NAME_GRAPHEMES`] grapheme clusters is a name,
/// unless it is blank or holds a forbidden character.
pub proof fn lemma_name_within_limit_is_accepted(text: Seq<char>)
    requires
        grapheme_count(text) <= MAX_NAME_GRAPHEMES,
        !is_blank(text),
        !has_forbidden(text),
    ensures
        is_valid_name(text),
{
}

/// A text of more than [`MAX_NAME_GRAPHEMES`] grapheme clusters is no name.
pub proof fn lemma_name_over_limit_is_rejected(text: Seq<char>)
    requires
        grapheme_count(text) > MAX_NAME_GRAPHEMES,
    ensures
        !is_valid_name(text),
{
}

/// A text that holds a forbidden character, wherever, is no name.
pub proof fn lemma_name_with_forbidden_character_is_rejected(text: Seq<char>, position: int)
    requires
        0 <= position < text.len(),
        is_forbidden(text[position]),
    ensures
        !is_valid_name(text),
{
}

/// A text of white space only, the empty text among them, is no name.
pub proof fn lemma_blank_name_is_rejected(text: Seq<char>)
    requires
        forall|i: int| 0 <= i < text.len() ==> is_white_space(#[trigger] text[i]),
    ensures
        !is_valid_name(text),
{
}

/// Looking at one more character of `text` extends what is known of the
/// first `seen` characters to the first `seen + 1`.
proof fn lemma_scan_step(text: Seq<char>, seen: int)
    requires
        0 <= seen < text.len(),
    ensures
        is_blank(text.take(seen + 1)) == (is_blank(text.take(seen)) && is_white_space(text[seen])),
        has_forbidden(text.take(seen + 1)) == (has_forbidden(text.take(seen)) || is_forbidden(
            text[seen],
        )),
{
    let shorter = text.take(seen);
    let longer = text.take(seen + 1);
    assert(longer[seen] == text[seen]);
    assert(forall|i: int| 0 <= i < seen ==> longer[i] == shorter[i]);
    if has_forbidden(shorter) {
        let i = choose|i: int| 0 <= i < shorter.len() && is_forbidden(#[trigger] shorter[i]);
        assert(is_forbidden(longer[i]));
    }
    if has_forbidden(longer) {
        let i = choose|i: int| 0 <= i < longer.len() && is_forbidden(#[trigger] longer[i]);
        if i < seen {
            assert(is_forbidden(shorter[i]));
        }
    }
    if is_blank(shorter) && is_white_space(text[seen]) {
        assert forall|i: int| 0 <= i < longer.len() implies is_white_space(
            #[trigger] longer[i],
        ) by {
            if i < seen {
                assert(is_white_space(shorter[i]));
            }
        }
    }
    if is_blank(longer) {
        assert(is_white_space(longer[seen]));
        assert forall|i: int| 0 <= i < shorter.len() implies is_white_space(
            #[trigger] shorter[i],
        ) by {
            assert(is_white_space(longer[i]));
        }
    }
}

/// Decides whether `c` is one of the characters that no name may contain.
pub fn is_forbidden_character(c: char) -> (forbidden: bool)
    ensures
        forbidden == is_forbidden(c),
{
    c == '/' || c == '(' || c == ')' || c == '"' || c == '<' || c == '>' || c == '\\' || c == '{'
        || c == '}' || c == '|'
}

} // verus!
