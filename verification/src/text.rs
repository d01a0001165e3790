//! Small operations on texts that the rest of the crate is built from.

use vstd::prelude::*;
use vstd::string::StrSliceExecFns;

verus! {

/// Appends `c` to `text` with `String::push`.
///
/// Trusted: afterwards the text is the old one followed by `c`.
#[verifier::external_body]
pub(crate) fn push_char(text: &mut String, c: char)
    ensures
        final(text)@ == old(text)@.push(c),
{
    text.push(c)
}

/// Whether two texts hold the same characters.
pub fn same_text(a: &str, b: &str) -> (r: bool)
    ensures
        r == (a@ == b@),
{
    let left = a.to_owned();
    let right = b.to_owned();
    left == right
}

/// Finds the first occurrence of `c` in `text`, counted in characters.
pub fn find_char(text: &str, c: char) -> (r: Option<usize>)
    ensures
        match r {
            Some(at) => at < text@.len() && text@[at as int] == c && forall|i: int|
                0 <= i < at ==> text@[i] != c,
            None => !text@.contains(c),
        },
{
    let length = text.unicode_len();
    let mut found: Option<usize> = None;
    let mut at: usize = 0;
    for x in it: text.chars()
        invariant
            it.seq() == text@,
            at == it.index(),
            length == text@.len(),
            match found {
                Some(f) => f < at && text@[f as int] == c && forall|i: int|
                    0 <= i < f ==> text@[i] != c,
                None => forall|i: int| 0 <= i < at ==> text@[i] != c,
            },
            at <= length,
    {
        if found.is_none() && x == c {
            found = Some(at);
        }
        at = at + 1;
    }
    found
}

/// The text that follows `prefix` in `text`, if `text` begins with `prefix`.
pub fn strip_prefix<'a>(text: &'a str, prefix: &str) -> (r: Option<&'a str>)
    ensures
        match r {
            Some(rest) => text@ == prefix@ + rest@,
            None => !prefix@.is_prefix_of(text@),
        },
{
    let length = text.unicode_len();
    let prefix_length = prefix.unicode_len();
    if prefix_length > length {
        return None;
    }
    let head = text.substring_char(0, prefix_length);
    if same_text(head, prefix) {
        let rest = text.substring_char(prefix_length, length);
        Some(rest)
    } else {
        None
    }
}

} // verus!
