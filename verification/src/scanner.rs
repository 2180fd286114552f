//! Where a macro ends.
//!
//! A macro is a span of text in braces. Braces may nest, and a brace inside
//! a quoted string is a character like any other.

use vstd::prelude::*;

verus! {

/// What the scan of a macro knows after the characters it has read.
pub struct ScanState {
    /// How many braces are open.
    pub depth: int,
    /// Whether the scan is inside a quoted string.
    pub quoted: bool,
    /// Whether the last character, inside a quoted string, was a backslash
    /// that escapes the next one.
    pub escaped: bool,
}

impl ScanState {
    /// The state before the first character.
    pub open spec fn start() -> ScanState {
        ScanState { depth: 0, quoted: false, escaped: false }
    }

    /// The state after `c`.
    ///
    /// Outside a quoted string a brace opens or closes a level and a quote
    /// begins a string. Inside one, a backslash turns the escape on or off,
    /// a quote that is not escaped ends the string, and every other
    /// character, a brace too, only clears the escape.
    pub open spec fn step(self, c: char) -> ScanState {
        if c == '{' && !self.quoted {
            ScanState { depth: self.depth + 1, ..self }
        } else if c == '}' && !self.quoted {
            ScanState { depth: self.depth - 1, ..self }
        } else if c == '\\' && self.quoted {
            ScanState { escaped: !self.escaped, ..self }
        } else if c == '"' && !self.quoted {
            ScanState { quoted: true, ..self }
        } else if c == '"' && !self.escaped {
            ScanState { quoted: false, ..self }
        } else {
            ScanState { escaped: false, ..self }
        }
    }
}

/// How many characters of `text` the scan reads from `state` on: up to and
/// with the character after which no brace is open, or all of them where
/// that never happens.
pub open spec fn scan_len(text: Seq<char>, state: ScanState) -> nat
    decreases text.len(),
{
    if text.len() == 0 {
        0
    } else if state.step(text[0]).depth == 0 {
        1
    } else {
        1 + scan_len(text.skip(1), state.step(text[0]))
    }
}

/// The length of the macro with which `text` begins.
pub open spec fn macro_span_len(text: Seq<char>) -> nat {
    scan_len(text, ScanState::start())
}

/// A scan reads no more than there is, and at least one character of a text
/// that is not empty.
pub proof fn lemma_scan_len_bounds(text: Seq<char>, state: ScanState)
    ensures
        scan_len(text, state) <= text.len(),
        text.len() > 0 ==> scan_len(text, state) >= 1,
    decreases text.len(),
{
    if text.len() > 0 && state.step(text[0]).depth != 0 {
        lemma_scan_len_bounds(text.skip(1), state.step(text[0]));
    }
}

/// The state after the first `n` characters of `text`, from `state` on.
pub open spec fn state_after(text: Seq<char>, n: nat, state: ScanState) -> ScanState
    decreases n,
{
    if n == 0 || text.len() == 0 {
        state
    } else {
        state_after(text.skip(1), (n - 1) as nat, state.step(text[0]))
    }
}

/// A scan ends with the first character after which no brace is open: a
/// brace is open after each character before the last that it reads, and
/// where it stops before the end of the text, none is open there.
pub proof fn lemma_scan_ends_at_depth_zero(text: Seq<char>, state: ScanState)
    ensures
        forall|k: nat|
            0 < k < scan_len(text, state) ==> (#[trigger] state_after(text, k, state)).depth != 0,
        scan_len(text, state) < text.len() ==> state_after(
            text,
            scan_len(text, state),
            state,
        ).depth == 0,
    decreases text.len(),
{
    if text.len() > 0 {
        let next = state.step(text[0]);
        let rest = text.skip(1);
        assert(state_after(rest, 0, next) == next);
        if next.depth != 0 {
            lemma_scan_ends_at_depth_zero(rest, next);
            assert forall|k: nat| 0 < k < scan_len(text, state) implies (#[trigger] state_after(
                text,
                k,
                state,
            )).depth != 0 by {
                if k > 1 {
                    assert(state_after(rest, (k - 1) as nat, next).depth != 0);
                }
            }
        }
    }
}

/// Inside a quoted string a brace is a character like any other: it opens
/// and closes no level, and the string goes on.
pub proof fn lemma_quoted_brace(state: ScanState, c: char)
    requires
        state.quoted,
        c == '{' || c == '}',
    ensures
        state.step(c).depth == state.depth,
        state.step(c).quoted,
{
}

/// Whether `body` can stand between the quotes of a string: every
/// backslash has a character behind it, which it escapes, and no quote
/// stands in it but an escaped one. Braces may stand in it as they like.
pub open spec fn string_body(body: Seq<char>) -> bool
    decreases body.len(),
{
    if body.len() == 0 {
        true
    } else if body[0] == '\\' {
        body.len() >= 2 && string_body(body.skip(2))
    } else if body[0] == '"' {
        false
    } else {
        string_body(body.skip(1))
    }
}

/// The body of a quoted string is read through without a change of depth,
/// whatever braces it holds: the macro does not end in it, and behind it the
/// scan is where it was before it, still inside the string.
pub proof fn lemma_string_body_keeps_depth(body: Seq<char>, rest: Seq<char>, state: ScanState)
    requires
        state.quoted,
        !state.escaped,
        state.depth != 0,
        string_body(body),
    ensures
        scan_len(body + rest, state) == body.len() + scan_len(rest, state),
    decreases body.len(),
{
    let text = body + rest;
    if body.len() == 0 {
        assert(text == rest);
    } else if body[0] == '\\' {
        let escaping = state.step(body[0]);
        assert(text[0] == body[0]);
        assert(text.skip(1)[0] == body[1]);
        assert(escaping.step(body[1]) == state);
        assert(text.skip(1).skip(1) == body.skip(2) + rest);
        assert(scan_len(text, state) == 1 + scan_len(text.skip(1), escaping));
        assert(scan_len(text.skip(1), escaping) == 1 + scan_len(text.skip(1).skip(1), state));
        lemma_string_body_keeps_depth(body.skip(2), rest, state);
    } else {
        assert(text[0] == body[0]);
        assert(state.step(body[0]) == state);
        assert(text.skip(1) == body.skip(1) + rest);
        lemma_string_body_keeps_depth(body.skip(1), rest, state);
    }
}

/// A quoted string inside a macro is passed over as a whole: behind its
/// closing quote as many braces are open as before its opening quote.
pub proof fn lemma_quoted_string_is_passed_over(
    body: Seq<char>,
    rest: Seq<char>,
    state: ScanState,
)
    requires
        !state.quoted,
        !state.escaped,
        state.depth != 0,
        string_body(body),
    ensures
        scan_len(seq!['"'] + body + seq!['"'] + rest, state) == body.len() + 2 + scan_len(
            rest,
            state,
        ),
{
    let text = seq!['"'] + body + seq!['"'] + rest;
    let closing = seq!['"'] + rest;
    let inside = ScanState { quoted: true, ..state };
    assert(text[0] == '"');
    assert(state.step('"') == inside);
    assert(text.skip(1) == body + closing);
    lemma_string_body_keeps_depth(body, closing, inside);
    assert(closing[0] == '"');
    assert(inside.step('"') == state);
    assert(closing.skip(1) == rest);
}

/// The length of the macro that begins at `from`.
pub fn span_length(text: &[char], from: usize) -> (n: usize)
    requires
        from < text@.len(),
        text@[from as int] == '{',
    ensures
        n == macro_span_len(text@.skip(from as int)),
        1 <= n <= text@.len() - from,
{
    let ghost rest = text@.skip(from as int);
    let mut depth: usize = 0;
    let mut quoted = false;
    let mut escaped = false;
    let mut at: usize = from;
    assert(rest.skip(0) == rest);
    while at < text.len()
        invariant
            from <= at <= text@.len(),
            rest == text@.skip(from as int),
            text@[from as int] == '{',
            at == from ==> depth == 0 && !quoted && !escaped,
            at > from ==> depth >= 1,
            depth <= at - from,
            macro_span_len(rest) == (at - from) + scan_len(
                rest.skip(at - from),
                ScanState { depth: depth as int, quoted, escaped },
            ),
        decreases text@.len() - at,
    {
        let c = text[at];
        let ghost before = ScanState { depth: depth as int, quoted, escaped };
        assert(rest.skip(at - from)[0] == c);
        assert(rest.skip(at - from).skip(1) == rest.skip(at - from + 1));
        if c == '{' && !quoted {
            depth += 1;
        } else if c == '}' && !quoted {
            depth -= 1;
        } else if c == '\\' && quoted {
            escaped = !escaped;
        } else if c == '"' && !quoted {
            quoted = true;
        } else if c == '"' && !escaped {
            quoted = false;
        } else {
            escaped = false;
        }
        assert(before.step(c) == ScanState { depth: depth as int, quoted, escaped });
        at += 1;
        if depth == 0 {
            return at - from;
        }
    }
    at - from
}

} // verus!
