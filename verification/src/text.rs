//! Text as sequences of characters, and its change of case.

use smallvec::SmallVec;
use vstd::prelude::*;

verus! {

/// `String::push` appends one character.
pub assume_specification[ String::push ](s: &mut String, c: char)
    ensures
        final(s)@ == old(s)@.push(c),
;

/// `str::eq`: two string slices are equal when they hold the same
/// characters.
#[verifier::external_body]
pub(crate) fn same_text(a: &str, b: &str) -> (same: bool)
    ensures
        same == (a@ == b@),
{
    a == b
}

/// The characters of an optional string slice.
pub open spec fn text_view(s: Option<&str>) -> Option<Seq<char>> {
    match s {
        Some(t) => Some(t@),
        None => None,
    }
}

/// The characters of `s`, in order.
pub fn chars_of(s: &str) -> (chars: Vec<char>)
    ensures
        chars@ == s@,
{
    let mut chars: Vec<char> = Vec::new();
    for c in it: s.chars()
        invariant
            it.seq() == s@,
            chars@ == s@.take(it.index() as int),
    {
        chars.push(c);
        assert(s@.take(it.index() + 1) == s@.take(it.index() as int).push(s@[it.index() as int]));
    }
    assert(s@.take(s@.len() as int) == s@);
    chars
}

/// The characters of `chars` from `from` up to `to`, as a string.
pub fn string_of(chars: &[char], from: usize, to: usize) -> (s: String)
    requires
        from <= to <= chars@.len(),
    ensures
        s@ == chars@.subrange(from as int, to as int),
{
    let mut s = String::new();
    let mut i: usize = from;
    while i < to
        invariant
            from <= i <= to <= chars@.len(),
            s@ == chars@.subrange(from as int, i as int),
        decreases to - i,
    {
        s.push(chars[i]);
        i += 1;
        assert(chars@.subrange(from as int, i as int) == chars@.subrange(from as int, i - 1).push(
            chars@[i - 1],
        ));
    }
    s
}

/// The text in upper case: what `str::to_uppercase` makes of it.
pub uninterp spec fn uppercase(text: Seq<char>) -> Seq<char>;

/// The text in lower case: what `str::to_lowercase` makes of it.
pub uninterp spec fn lowercase(text: Seq<char>) -> Seq<char>;

/// One character in upper case, which may be more than one character: what
/// `char::to_uppercase` yields.
pub uninterp spec fn char_uppercase(c: char) -> Seq<char>;

/// `str::to_uppercase`.
#[verifier::external_body]
pub(crate) fn to_uppercase(text: &str) -> (upper: String)
    ensures
        upper@ == uppercase(text@),
{
    text.to_uppercase()
}

/// `str::to_lowercase`.
#[verifier::external_body]
pub(crate) fn to_lowercase(text: &str) -> (lower: String)
    ensures
        lower@ == lowercase(text@),
{
    text.to_lowercase()
}

/// The few characters that one character becomes in upper case. A
/// `SmallVec` holds them, in place while they are no more than two.
#[verifier::external_body]
pub struct Expansion {
    chars: SmallVec<[char; 2]>,
}

/// The characters that an [`Expansion`] holds, in order.
pub uninterp spec fn expansion_chars(expansion: Expansion) -> Seq<char>;

/// `char::to_uppercase`, gathered by `SmallVec`'s `FromIterator`, which
/// keeps every item in the order in which the iterator yields them.
#[verifier::external_body]
pub(crate) fn uppercase_expansion(c: char) -> (expansion: Expansion)
    ensures
        expansion_chars(expansion) == char_uppercase(c),
{
    Expansion { chars: c.to_uppercase().collect() }
}

/// `SmallVec::as_slice`: all the items, in order.
#[verifier::external_body]
pub(crate) fn expansion_slice(expansion: &Expansion) -> (chars: &[char])
    ensures
        chars@ == expansion_chars(*expansion),
{
    expansion.chars.as_slice()
}

/// `text` with `head` in place of its first character; an empty text stays
/// empty.
pub open spec fn with_head(text: Seq<char>, head: Seq<char>) -> Seq<char> {
    if text.len() == 0 {
        text
    } else {
        head + text.skip(1)
    }
}

/// `text` with its first character in upper case and the rest as it is.
pub open spec fn capitalized(text: Seq<char>) -> Seq<char> {
    if text.len() == 0 {
        text
    } else {
        with_head(text, char_uppercase(text[0]))
    }
}

/// `text` with `head` in place of its first character.
pub fn replace_head(text: &[char], head: &[char]) -> (replaced: String)
    ensures
        replaced@ == with_head(text@, head@),
{
    if text.len() == 0 {
        let empty = String::new();
        assert(empty@ =~= text@);
        return empty;
    }
    let mut replaced = string_of(head, 0, head.len());
    assert(head@.subrange(0, head@.len() as int) == head@);
    let mut i: usize = 1;
    while i < text.len()
        invariant
            1 <= i <= text@.len(),
            replaced@ == head@ + text@.subrange(1, i as int),
        decreases text@.len() - i,
    {
        replaced.push(text[i]);
        i += 1;
        assert(text@.subrange(1, i as int) == text@.subrange(1, i - 1).push(text@[i - 1]));
        assert(replaced@ == head@ + text@.subrange(1, i as int));
    }
    assert(text@.subrange(1, i as int) == text@.skip(1));
    replaced
}

/// `text` with its first character in upper case and the rest as it is.
pub fn capitalize(text: &str) -> (capital: String)
    ensures
        capital@ == capitalized(text@),
{
    let chars = chars_of(text);
    if chars.len() == 0 {
        return String::new();
    }
    let head = uppercase_expansion(chars[0]);
    replace_head(chars.as_slice(), expansion_slice(&head))
}

} // verus!
