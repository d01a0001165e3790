use unicode_segmentation::UnicodeSegmentation;
use vstd::prelude::*;
use vstd::string::StringExecFns;

verus! {

/// The largest number of grapheme clusters a subscriber name may have.
pub const MAX_NAME_GRAPHEMES: usize = 256;

/// The characters with the Unicode property `White_Space`.
pub open spec fn is_white_space(c: char) -> bool {
    let u = c as u32;
    ||| 0x09 <= u <= 0x0d
    ||| u == 0x20
    ||| u == 0x85
    ||| u == 0xa0
    ||| u == 0x1680
    ||| 0x2000 <= u <= 0x200a
    ||| u == 0x2028
    ||| u == 0x2029
    ||| u == 0x202f
    ||| u == 0x205f
    ||| u == 0x3000
}

/// The characters that no subscriber name may hold.
pub open spec fn is_forbidden_character(c: char) -> bool {
    c == '/' || c == '(' || c == ')' || c == '"' || c == '<' || c == '>' || c == '\\' || c == '{'
        || c == '}'
}

/// A text is blank when nothing is left of it once white space is trimmed off
/// both ends, that is when it holds white space only.
pub open spec fn is_blank(s: Seq<char>) -> bool {
    forall|i: int| 0 <= i < s.len() ==> is_white_space(#[trigger] s[i])
}

/// Whether a text holds one of the forbidden characters.
pub open spec fn has_forbidden_character(s: Seq<char>) -> bool {
    exists|i: int| 0 <= i < s.len() && is_forbidden_character(#[trigger] s[i])
}

/// The number of extended grapheme clusters of a text, as Unicode's text
/// segmentation rules count them.
pub uninterp spec fn grapheme_count(s: Seq<char>) -> nat;

/// A text of `graphemes` grapheme clusters is accepted as a name when it is
/// not blank, has at most [`MAX_NAME_GRAPHEMES`] clusters and holds no
/// forbidden character. Each of the three checks alone rejects the name.
pub open spec fn is_acceptable(s: Seq<char>, graphemes: nat) -> bool {
    &&& !is_blank(s)
    &&& graphemes <= MAX_NAME_GRAPHEMES
    &&& !has_forbidden_character(s)
}

/// The names that are accepted.
pub open spec fn is_valid_name(s: Seq<char>) -> bool {
    is_acceptable(s, grapheme_count(s))
}

/// The message that goes with a rejected name.
pub open spec fn invalid_name_message(value: Seq<char>) -> Seq<char> {
    value + " is not a valid subscriber name"@
}

/// Counts the extended grapheme clusters of `value` with
/// `UnicodeSegmentation::graphemes`.
///
/// Trusted: the count is [`grapheme_count`] of the text.
#[verifier::external_body]
fn count_graphemes(value: &str) -> (count: usize)
    ensures
        count == grapheme_count(value@),
{
    value.graphemes(true).count()
}

/// Whether `c` is white space.
pub fn char_is_white_space(c: char) -> (r: bool)
    ensures
        r == is_white_space(c),
{
    let u: u32 = c as u32;
    (0x09 <= u && u <= 0x0d) || u == 0x20 || u == 0x85 || u == 0xa0 || u == 0x1680 || (0x2000 <= u
        && u <= 0x200a) || u == 0x2028 || u == 0x2029 || u == 0x202f || u == 0x205f || u == 0x3000
}

/// Whether `c` is one of the forbidden characters.
pub fn char_is_forbidden(c: char) -> (r: bool)
    ensures
        r == is_forbidden_character(c),
{
    c == '/' || c == '(' || c == ')' || c == '"' || c == '<' || c == '>' || c == '\\' || c == '{'
        || c == '}'
}

/// Whether `value` holds white space only.
pub fn is_empty_or_whitespace(value: &str) -> (r: bool)
    ensures
        r == is_blank(value@),
{
    let mut blank = true;
    for c in it: value.chars()
        invariant
            it.seq() == value@,
            blank == (forall|i: int| 0 <= i < it.index() ==> is_white_space(#[trigger] value@[i])),
    {
        if !char_is_white_space(c) {
            blank = false;
        }
    }
    blank
}

/// Whether `value` holds one of the forbidden characters.
pub fn contains_forbidden_characters(value: &str) -> (r: bool)
    ensures
        r == has_forbidden_character(value@),
{
    let mut found = false;
    for c in it: value.chars()
        invariant
            it.seq() == value@,
            found == (exists|i: int|
                0 <= i < it.index() && is_forbidden_character(#[trigger] value@[i])),
    {
        if char_is_forbidden(c) {
            found = true;
        }
    }
    found
}

/// Decides on a name from its text and the number of its grapheme clusters.
pub fn name_is_acceptable(value: &str, graphemes: usize) -> (r: bool)
    ensures
        r == is_acceptable(value@, graphemes as nat),
{
    let is_empty_or_whitespace = is_empty_or_whitespace(value);
    let is_too_long = graphemes > MAX_NAME_GRAPHEMES;
    let contains_forbidden_characters = contains_forbidden_characters(value);

    !(is_empty_or_whitespace || is_too_long || contains_forbidden_characters)
}

/// The name of a subscriber. A value of this type always holds a valid name.
#[derive(Debug)]
pub struct SubscriberName(String);

impl View for SubscriberName {
    type V = Seq<char>;

    closed spec fn view(&self) -> Seq<char> {
        self.0@
    }
}

impl SubscriberName {
    #[verifier::type_invariant]
    spec fn holds_valid_name(&self) -> bool {
        is_valid_name(self.0@)
    }

    /// Turns raw input into a name, or says why not: the name is rejected when
    /// it is blank, or too long, or holds a forbidden character.
    pub fn parse(value: String) -> (r: Result<SubscriberName, String>)
        ensures
            match r {
                Ok(name) => is_valid_name(value@) && name@ == value@,
                Err(message) => !is_valid_name(value@) && message@ == invalid_name_message(
                    value@,
                ),
            },
    {
        let graphemes = count_graphemes(value.as_str());

        if name_is_acceptable(value.as_str(), graphemes) {
            Ok(SubscriberName(value))
        } else {
            Err(value.concat(" is not a valid subscriber name"))
        }
    }

    /// The name as a text.
    pub fn as_ref(&self) -> (r: &str)
        ensures
            r@ == self@,
            is_valid_name(r@),
    {
        proof {
            use_type_invariant(self);
        }
        self.0.as_str()
    }

    /// A copy of this name.
    pub fn duplicate(&self) -> (r: SubscriberName)
        ensures
            r@ == self@,
    {
        proof {
            use_type_invariant(self);
        }
        SubscriberName(self.0.clone())
    }
}

} // verus!
