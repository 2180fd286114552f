//! The compiler: from a dialog with macros to the text that is shown.

use crate::character::{CharacterCast, CharacterView, GrammaticalCharacter, Title};
use crate::dialog_macro::{decoded, DialogMacro, DialogMacroMod, DialogMacroType, MacroView};
use crate::error::{outcome, Error, ErrorKind};
use crate::json::{parse, parsed};
use crate::scanner::{lemma_scan_len_bounds, macro_span_len, span_length, ScanState};
use crate::text::{
    capitalize, capitalized, chars_of, lowercase, string_of, to_lowercase, to_uppercase, uppercase,
};
use crate::verbs::{conjugation, Dictionary, VerbView};
use vstd::prelude::*;
use vstd::string::{StrSliceExecFns, StringExecFns};

verus! {

/// `text` after one change of case.
pub open spec fn modified(text: Seq<char>, modifier: DialogMacroMod) -> Seq<char> {
    match modifier {
        DialogMacroMod::Capitalized => capitalized(text),
        DialogMacroMod::UpperCase => uppercase(text),
        DialogMacroMod::LowerCase => lowercase(text),
    }
}

/// `text` after the changes of case in `mods`, made from the first to the
/// last.
pub open spec fn with_mods(text: Seq<char>, mods: Seq<DialogMacroMod>) -> Seq<char>
    decreases mods.len(),
{
    if mods.len() == 0 {
        text
    } else {
        with_mods(modified(text, mods[0]), mods.skip(1))
    }
}

/// What a macro stands for before any change of case, for the character
/// `person` that it speaks of.
pub open spec fn raw_text(
    descriptor: MacroView,
    person: CharacterView,
    dictionary: Map<Seq<char>, VerbView>,
) -> Result<Seq<char>, ErrorKind> {
    match descriptor.kind {
        DialogMacroType::VerbConjugate => match descriptor.data {
            Some(key) => conjugation(dictionary, key, person.conjugate_case()),
            None => Err(ErrorKind::MissingMacroData),
        },
        DialogMacroType::Name => Ok(person.name),
        DialogMacroType::TitlePlusName => Ok(person.title_plus_name()),
        DialogMacroType::SubjectivePronoun => Ok(person.subjective()),
        DialogMacroType::ObjectivePronoun => Ok(person.objective()),
        DialogMacroType::PossessiveDeterminer => Ok(person.possessive_determiner()),
        DialogMacroType::PossessivePronoun => Ok(person.possessive()),
        DialogMacroType::ReflexivePronoun => Ok(person.reflexive()),
        DialogMacroType::PersonDescriptor => Ok(person.descriptor()),
    }
}

/// The text that a macro stands for. A character that the cast does not
/// have is an error, whatever the macro asks of them.
pub open spec fn resolved(
    descriptor: MacroView,
    cast: Map<Seq<char>, CharacterView>,
    dictionary: Map<Seq<char>, VerbView>,
) -> Result<Seq<char>, ErrorKind> {
    if !cast.contains_key(descriptor.character_id) {
        Err(ErrorKind::UnknownCharacterIdentifier)
    } else {
        match raw_text(descriptor, cast[descriptor.character_id], dictionary) {
            Ok(text) => Ok(with_mods(text, descriptor.mods)),
            Err(e) => Err(e),
        }
    }
}

/// The text that the span of a macro stands for: the span is read as JSON,
/// the document as a macro, and the macro is resolved.
pub open spec fn expansion(
    span: Seq<char>,
    cast: Map<Seq<char>, CharacterView>,
    dictionary: Map<Seq<char>, VerbView>,
) -> Result<Seq<char>, ErrorKind> {
    match parsed(span) {
        Ok(doc) => match decoded(doc) {
            Some(descriptor) => resolved(descriptor, cast, dictionary),
            None => Err(ErrorKind::MalformedMacro),
        },
        Err(e) => Err(e),
    }
}

/// `rest` behind `prefix`: the two texts joined, or the error of `rest`.
pub open spec fn after(prefix: Seq<char>, rest: Result<Seq<char>, ErrorKind>) -> Result<
    Seq<char>,
    ErrorKind,
> {
    match rest {
        Ok(text) => Ok(prefix + text),
        Err(e) => Err(e),
    }
}

/// The compiled form of `src`, read from left to right.
///
/// A doubled brace stands for one brace. A single opening brace begins a
/// macro, which is replaced by its expansion. A single closing brace
/// outside a macro is an error. Every other character stands for itself.
/// The first error ends the compilation.
pub open spec fn compiled(
    src: Seq<char>,
    cast: Map<Seq<char>, CharacterView>,
    dictionary: Map<Seq<char>, VerbView>,
) -> Result<Seq<char>, ErrorKind>
    decreases src.len(),
{
    if src.len() == 0 {
        Ok(Seq::empty())
    } else if src[0] == '{' {
        if src.len() > 1 && src[1] == '{' {
            after(seq!['{'], compiled(src.skip(2), cast, dictionary))
        } else {
            let n = macro_span_len(src) as int;
            proof {
                lemma_scan_len_bounds(src, ScanState::start());
            }
            match expansion(src.take(n), cast, dictionary) {
                Ok(text) => after(text, compiled(src.skip(n), cast, dictionary)),
                Err(e) => Err(e),
            }
        }
    } else if src[0] == '}' {
        if src.len() > 1 && src[1] == '}' {
            after(seq!['}'], compiled(src.skip(2), cast, dictionary))
        } else {
            Err(ErrorKind::UnmatchedClosingBrace)
        }
    } else {
        after(seq![src[0]], compiled(src.skip(1), cast, dictionary))
    }
}

/// Whether `text` holds no brace.
pub open spec fn plain(text: Seq<char>) -> bool {
    forall|i: int| 0 <= i < text.len() ==> text[i] != '{' && text[i] != '}'
}

/// Text without braces before anything else stands for itself: what
/// follows it is compiled as if it stood alone.
pub proof fn lemma_plain_prefix(
    prefix: Seq<char>,
    rest: Seq<char>,
    cast: Map<Seq<char>, CharacterView>,
    dictionary: Map<Seq<char>, VerbView>,
)
    requires
        plain(prefix),
    ensures
        compiled(prefix + rest, cast, dictionary) == after(
            prefix,
            compiled(rest, cast, dictionary),
        ),
    decreases prefix.len(),
{
    let tail = compiled(rest, cast, dictionary);
    if prefix.len() == 0 {
        assert(prefix + rest == rest);
        if let Ok(text) = tail {
            assert(prefix + text == text);
        }
    } else {
        let whole = prefix + rest;
        assert(whole[0] == prefix[0]);
        assert(whole.skip(1) == prefix.skip(1) + rest);
        lemma_plain_prefix(prefix.skip(1), rest, cast, dictionary);
        if let Ok(text) = tail {
            assert(seq![prefix[0]] + (prefix.skip(1) + text) == prefix + text);
        }
    }
}

/// A text without braces compiles to itself.
pub proof fn lemma_plain_text_unchanged(
    text: Seq<char>,
    cast: Map<Seq<char>, CharacterView>,
    dictionary: Map<Seq<char>, VerbView>,
)
    requires
        plain(text),
    ensures
        compiled(text, cast, dictionary) == Ok::<Seq<char>, ErrorKind>(text),
{
    let nothing = Seq::<char>::empty();
    lemma_plain_prefix(text, nothing, cast, dictionary);
    assert(text + nothing == text);
}

/// Outside a macro, a body without braces between doubled braces compiles
/// to the body between single braces; what follows is compiled as if it
/// stood alone.
pub proof fn lemma_escaped_braces_before(
    body: Seq<char>,
    rest: Seq<char>,
    cast: Map<Seq<char>, CharacterView>,
    dictionary: Map<Seq<char>, VerbView>,
)
    requires
        plain(body),
    ensures
        compiled(seq!['{', '{'] + body + seq!['}', '}'] + rest, cast, dictionary) == after(
            seq!['{'] + body + seq!['}'],
            compiled(rest, cast, dictionary),
        ),
{
    let src = seq!['{', '{'] + body + seq!['}', '}'] + rest;
    let closing = seq!['}', '}'] + rest;
    let tail = compiled(rest, cast, dictionary);
    assert(src[0] == '{' && src[1] == '{');
    assert(src.skip(2) == body + closing);
    lemma_plain_prefix(body, closing, cast, dictionary);
    assert(closing[0] == '}' && closing[1] == '}');
    assert(closing.skip(2) == rest);
    if let Ok(text) = tail {
        assert(seq!['{'] + (body + (seq!['}'] + text)) == seq!['{'] + body + seq!['}'] + text);
    }
}

/// A body without braces between doubled braces compiles to the body
/// between single braces.
pub proof fn lemma_escaped_braces(
    body: Seq<char>,
    cast: Map<Seq<char>, CharacterView>,
    dictionary: Map<Seq<char>, VerbView>,
)
    requires
        plain(body),
    ensures
        compiled(seq!['{', '{'] + body + seq!['}', '}'], cast, dictionary) == Ok::<
            Seq<char>,
            ErrorKind,
        >(seq!['{'] + body + seq!['}']),
{
    let nothing = Seq::<char>::empty();
    lemma_escaped_braces_before(body, nothing, cast, dictionary);
    assert(seq!['{', '{'] + body + seq!['}', '}'] + nothing == seq!['{', '{'] + body + seq!['}', '}']);
    assert(seq!['{'] + body + seq!['}'] + nothing == seq!['{'] + body + seq!['}']);
}

/// A macro that names a character whom the cast does not have resolves to
/// that error, whatever else the macro holds.
pub proof fn lemma_unknown_character(
    descriptor: MacroView,
    cast: Map<Seq<char>, CharacterView>,
    dictionary: Map<Seq<char>, VerbView>,
)
    requires
        !cast.contains_key(descriptor.character_id),
    ensures
        resolved(descriptor, cast, dictionary) == Err::<Seq<char>, ErrorKind>(
            ErrorKind::UnknownCharacterIdentifier,
        ),
{
}

/// Changes of case are made one list after the other as they are made in
/// one list that holds both.
pub proof fn lemma_mods_in_sequence(
    text: Seq<char>,
    first: Seq<DialogMacroMod>,
    then: Seq<DialogMacroMod>,
)
    ensures
        with_mods(text, first + then) == with_mods(with_mods(text, first), then),
    decreases first.len(),
{
    if first.len() == 0 {
        assert(first + then == then);
    } else {
        assert((first + then)[0] == first[0]);
        assert((first + then).skip(1) == first.skip(1) + then);
        lemma_mods_in_sequence(modified(text, first[0]), first.skip(1), then);
    }
}

/// Makes the changes of case in `mods` to `input`, from the first to the
/// last.
pub fn apply_mods(input: String, mods: &[DialogMacroMod]) -> (text: String)
    ensures
        text@ == with_mods(input@, mods@),
{
    let mut text = input;
    let mut i: usize = 0;
    assert(mods@.skip(0) == mods@);
    while i < mods.len()
        invariant
            i <= mods@.len(),
            with_mods(input@, mods@) == with_mods(text@, mods@.skip(i as int)),
        decreases mods@.len() - i,
    {
        assert(mods@.skip(i as int)[0] == mods@[i as int]);
        assert(mods@.skip(i as int).skip(1) == mods@.skip(i + 1));
        text = match mods[i] {
            DialogMacroMod::Capitalized => capitalize(text.as_str()),
            DialogMacroMod::UpperCase => to_uppercase(text.as_str()),
            DialogMacroMod::LowerCase => to_lowercase(text.as_str()),
        };
        i += 1;
    }
    text
}

/// The title, a space and the name; the name alone where the character has
/// no title.
fn title_plus_name(person: &GrammaticalCharacter) -> (text: String)
    ensures
        text@ == person@.title_plus_name(),
{
    match person.title() {
        Some(Title::NoTitle) | None => String::from_str(person.name()),
        Some(title) => {
            let mut text = String::from_str(title.str());
            text.append(" ");
            text.append(person.name());
            text
        },
    }
}

/// The cast and the dictionary that a [`DialogMacroCompiler`] holds.
pub struct CompilerView {
    pub cast: Map<Seq<char>, CharacterView>,
    pub dictionary: Map<Seq<char>, VerbView>,
}

/// Compiles dialogs against a cast of characters and a dictionary of verbs.
pub struct DialogMacroCompiler<'a> {
    cast: CharacterCast,
    dictionary: Dictionary<'a>,
}

impl<'a> View for DialogMacroCompiler<'a> {
    type V = CompilerView;

    closed spec fn view(&self) -> CompilerView {
        CompilerView { cast: self.cast@, dictionary: self.dictionary@ }
    }
}

impl<'a> DialogMacroCompiler<'a> {
    /// A compiler for the given cast and dictionary.
    pub fn new(cast: CharacterCast, dict: Dictionary<'a>) -> (compiler: Self)
        ensures
            compiler@ == (CompilerView { cast: cast@, dictionary: dict@ }),
    {
        Self { cast, dictionary: dict }
    }

    /// Compiles `src`: every macro is replaced by the text it stands for,
    /// and every doubled brace by one brace.
    pub fn parse_and_compile(&self, src: &str) -> (r: Result<String, Error>)
        ensures
            outcome(r) == compiled(src@, self@.cast, self@.dictionary),
    {
        let chars = chars_of(src);
        let mut output = String::new();
        let mut at: usize = 0;
        assert(chars@.skip(0) == chars@);
        assert(Seq::<char>::empty() + chars@ == chars@);
        while at < chars.len()
            invariant
                at <= chars@.len(),
                chars@ == src@,
                compiled(src@, self@.cast, self@.dictionary) == after(
                    output@,
                    compiled(chars@.skip(at as int), self@.cast, self@.dictionary),
                ),
            decreases chars@.len() - at,
        {
            let c = chars[at];
            let ghost rest = chars@.skip(at as int);
            let ghost before = output@;
            assert(rest.len() > 0 && rest[0] == c);
            if c == '{' || c == '}' {
                if at + 1 < chars.len() && chars[at + 1] == c {
                    assert(rest[1] == c);
                    assert(rest.skip(2) == chars@.skip(at + 2));
                    output.push(c);
                    at += 2;
                    assert(forall|tail: Seq<char>| before.push(c) + tail == before + (seq![c] + tail));
                } else if c == '}' {
                    return Err(Error::UnmatchedClosingBrace);
                } else {
                    let n = span_length(chars.as_slice(), at);
                    let span = string_of(chars.as_slice(), at, at + n);
                    assert(span@ == rest.take(n as int));
                    assert(rest.skip(n as int) == chars@.skip(at + n));
                    let doc = match parse(span.as_str()) {
                        Ok(doc) => doc,
                        Err(e) => {
                            return Err(e);
                        },
                    };
                    let descriptor = match DialogMacro::from_json(&doc) {
                        Ok(descriptor) => descriptor,
                        Err(e) => {
                            return Err(e);
                        },
                    };
                    let value = match self.compile(descriptor) {
                        Ok(value) => value,
                        Err(e) => {
                            return Err(e);
                        },
                    };
                    output.append(value.as_str());
                    at += n;
                    assert(forall|tail: Seq<char>| (before + value@) + tail == before + (value@ + tail));
                }
            } else {
                assert(rest.skip(1) == chars@.skip(at + 1));
                output.push(c);
                at += 1;
                assert(forall|tail: Seq<char>| before.push(c) + tail == before + (seq![c] + tail));
            }
        }
        assert(output@ + Seq::<char>::empty() == output@);
        Ok(output)
    }

    /// The macro with which `src` begins: the text up to and with the brace
    /// that closes the first one, or all of `src` where none does.
    pub fn delimit_macro<'b>(&self, src: &'b str) -> (span: &'b str)
        requires
            src@.len() > 0,
            src@[0] == '{',
        ensures
            span@ == src@.take(macro_span_len(src@) as int),
    {
        let chars = chars_of(src);
        assert(chars@.skip(0) == chars@);
        let n = span_length(chars.as_slice(), 0);
        src.substring_char(0, n)
    }

    /// The text that `macr` stands for, with its changes of case made. A
    /// macro that names a character whom the cast does not have is an
    /// error.
    pub fn compile(&self, macr: DialogMacro<'a>) -> (r: Result<String, Error>)
        ensures
            outcome(r) == resolved(macr@, self@.cast, self@.dictionary),
            !self@.cast.contains_key(macr@.character_id) ==> outcome(r) == Err::<
                Seq<char>,
                ErrorKind,
            >(ErrorKind::UnknownCharacterIdentifier),
    {
        let Some(person) = self.cast.get(macr.character_id()) else {
            return Err(Error::UnknownCharacterIdentifier);
        };
        let raw = match macr.kind() {
            DialogMacroType::VerbConjugate => {
                let Some(key) = macr.data() else {
                    return Err(Error::MissingMacroData);
                };
                match self.dictionary.conjugate(key, person.conjugate_case()) {
                    Ok(form) => form,
                    Err(e) => {
                        return Err(e);
                    },
                }
            },
            DialogMacroType::Name => String::from_str(person.name()),
            DialogMacroType::TitlePlusName => title_plus_name(person),
            DialogMacroType::SubjectivePronoun => person.subjective_pronoun(),
            DialogMacroType::ObjectivePronoun => person.objective_pronoun(),
            DialogMacroType::PossessiveDeterminer => person.possessive_determiner(),
            DialogMacroType::PossessivePronoun => person.possessive_pronoun(),
            DialogMacroType::ReflexivePronoun => person.reflexive_pronoun(),
            DialogMacroType::PersonDescriptor => match person.person_descriptor() {
                Some(descriptor) => descriptor.clone(),
                None => String::from_str("person"),
            },
        };
        Ok(apply_mods(raw, macr.mods()))
    }
}

} // verus!
