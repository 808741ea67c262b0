use crate::text::{text_chars, text_of};
use vstd::prelude::*;

verus! {

/// Whether `c` has the Unicode property `White_Space`: the characters from
/// the tab to the carriage return, the space, the next-line character, the
/// no-break spaces, the Ogham space mark, the spaces of fixed width, the line
/// and the paragraph separator, the medium mathematical space and the
/// ideographic space.
pub open spec fn is_whitespace(c: char) -> bool {
    let code = c as u32;
    ||| 0x09 <= code <= 0x0d
    ||| code == 0x20
    ||| code == 0x85
    ||| code == 0xa0
    ||| code == 0x1680
    ||| 0x2000 <= code <= 0x200a
    ||| code == 0x2028
    ||| code == 0x2029
    ||| code == 0x202f
    ||| code == 0x205f
    ||| code == 0x3000
}

/// Calls `char::is_whitespace`. Claims what it is documented to tell: whether
/// the character has the Unicode property `White_Space`.
#[verifier::external_body]
pub(crate) fn char_is_whitespace(c: char) -> (b: bool)
    ensures
        b == is_whitespace(c),
{
    c.is_whitespace()
}

/// Whether `c` is a wildcard of a `LIKE` pattern.
pub open spec fn is_wildcard(c: char) -> bool {
    c == '%' || c == '_'
}

/// `text` without the wildcards `%` and `_`.
pub open spec fn without_wildcards(text: Seq<char>) -> Seq<char>
    decreases text.len(),
{
    if text.len() == 0 {
        Seq::empty()
    } else if is_wildcard(text.last()) {
        without_wildcards(text.drop_last())
    } else {
        without_wildcards(text.drop_last()).push(text.last())
    }
}

/// The index of the first character of `text` at or after `from` that is no
/// whitespace, or the length of `text` where all are.
pub open spec fn first_visible(text: Seq<char>, from: int) -> int
    decreases text.len() - from,
{
    if from < 0 || from >= text.len() {
        text.len() as int
    } else if !is_whitespace(text[from]) {
        from
    } else {
        first_visible(text, from + 1)
    }
}

/// `text` without the whitespace that leads it.
pub open spec fn without_leading_whitespace(text: Seq<char>) -> Seq<char> {
    text.subrange(first_visible(text, 0), text.len() as int)
}

/// No wildcard is left after they were taken out, and what holds none
/// is left as it is.
pub proof fn wildcards_are_gone(text: Seq<char>)
    ensures
        forall|i: int|
            0 <= i < without_wildcards(text).len() ==> !is_wildcard(
                #[trigger] without_wildcards(text)[i],
            ),
        without_wildcards(text).len() <= text.len(),
        (forall|i: int| 0 <= i < text.len() ==> !is_wildcard(text[i])) ==> without_wildcards(text)
            == text,
    decreases text.len(),
{
    if text.len() > 0 {
        wildcards_are_gone(text.drop_last());
        if forall|i: int| 0 <= i < text.len() ==> !is_wildcard(text[i]) {
            assert forall|i: int| 0 <= i < text.drop_last().len() implies !is_wildcard(
                text.drop_last()[i],
            ) by {
                assert(text.drop_last()[i] == text[i]);
            }
            assert(text.drop_last().push(text.last()) == text);
        }
    }
}

fn strip_wildcards(chars: &Vec<char>, from: usize) -> (kept: Vec<char>)
    requires
        from <= chars@.len(),
    ensures
        kept@ == without_wildcards(chars@.subrange(from as int, chars@.len() as int)),
{
    let mut kept: Vec<char> = Vec::new();
    let mut at: usize = from;
    while at < chars.len()
        invariant
            from <= at <= chars@.len(),
            kept@ == without_wildcards(chars@.subrange(from as int, at as int)),
        decreases chars@.len() - at,
    {
        let c = chars[at];
        proof {
            assert(chars@.subrange(from as int, at + 1).drop_last() == chars@.subrange(
                from as int,
                at as int,
            ));
        }
        if c != '%' && c != '_' {
            kept.push(c);
        }
        at += 1;
    }
    kept
}

/// A user-provided string that is safe in a `LIKE` clause: leading whitespace
/// and the wildcards `%` and `_` are taken out, so that a search cannot ask
/// the store for more than a prefix.
#[derive(Debug)]
pub struct SanitisedString(String);

impl View for SanitisedString {
    type V = Seq<char>;

    closed spec fn view(&self) -> Seq<char> {
        self.0@
    }
}

impl SanitisedString {
    /// The sanitised form of `string`.
    pub fn new(string: &str) -> (sanitised: SanitisedString)
        ensures
            sanitised@ == without_wildcards(without_leading_whitespace(string@)),
            forall|i: int| 0 <= i < sanitised@.len() ==> !is_wildcard(#[trigger] sanitised@[i]),
    {
        proof {
            wildcards_are_gone(without_leading_whitespace(string@));
        }
        let chars = text_chars(string);
        let mut from: usize = 0;
        while from < chars.len() && char_is_whitespace(chars[from])
            invariant
                0 <= from <= chars@.len(),
                first_visible(chars@, 0) == first_visible(chars@, from as int),
            decreases chars@.len() - from,
        {
            from += 1;
        }
        let kept = strip_wildcards(&chars, from);
        SanitisedString(text_of(&kept))
    }

    /// The sanitised text.
    pub fn as_str(&self) -> (text: &str)
        ensures
            text@ == self@,
    {
        self.0.as_str()
    }

    /// Whether nothing is left of the text.
    pub fn is_empty(&self) -> (empty: bool)
        ensures
            empty == (self@.len() == 0),
    {
        self.0.as_str().is_empty()
    }
}

/// A user-provided string without the wildcards `%` and `_`.
#[derive(Debug)]
pub struct SanitisedLikeString(String);

impl View for SanitisedLikeString {
    type V = Seq<char>;

    closed spec fn view(&self) -> Seq<char> {
        self.0@
    }
}

impl SanitisedLikeString {
    /// The sanitised form of `string`.
    pub fn new(string: String) -> (sanitised: SanitisedLikeString)
        ensures
            sanitised@ == without_wildcards(string@),
            forall|i: int| 0 <= i < sanitised@.len() ==> !is_wildcard(#[trigger] sanitised@[i]),
    {
        proof {
            wildcards_are_gone(string@);
        }
        let chars = text_chars(string.as_str());
        let kept = strip_wildcards(&chars, 0);
        proof {
            assert(chars@.subrange(0, chars@.len() as int) == chars@);
        }
        SanitisedLikeString(text_of(&kept))
    }

    /// The sanitised text.
    pub fn as_str(&self) -> (text: &str)
        ensures
            text@ == self@,
    {
        self.0.as_str()
    }

    /// Whether nothing is left of the text.
    pub fn is_empty(&self) -> (empty: bool)
        ensures
            empty == (self@.len() == 0),
    {
        self.0.as_str().is_empty()
    }
}

} // verus!
