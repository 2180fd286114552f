//! The ways in which compiling a dialog fails.

use serde_json::Error as JsonError;
use vstd::prelude::*;
use vstd::string::StringExecFns;

verus! {

/// `serde_json::Error`. The library carries it and never looks inside.
#[verifier::external_type_specification]
#[verifier::external_body]
pub struct ExJsonError(JsonError);

/// Why a dialog could not be compiled.
#[derive(Debug)]
pub enum Error {
    /// A macro is not a JSON document, or the document does not describe a
    /// macro: the character id is missing or null, or the kind or a modifier
    /// is none of the known tags. The JSON error says what was wrong.
    Serde(JsonError),
    /// The dictionary has no verb under the key that the macro names.
    UnknownVerbKey,
    /// The verb has no form for the character's person and number.
    UndefinedVerbCase,
    /// A verb macro names no verb.
    MissingMacroData,
    /// The cast has no character under the id that the macro names.
    UnknownCharacterIdentifier,
    /// A closing brace in literal text that is neither doubled nor the end
    /// of a macro.
    UnmatchedClosingBrace,
}

/// The kind of an [`Error`], without the JSON error that a malformed macro
/// carries.
#[derive(Debug, Clone, Copy, PartialEq, Eq, Hash, Structural)]
pub enum ErrorKind {
    MalformedMacro,
    UnknownVerbKey,
    UndefinedVerbCase,
    MissingMacroData,
    UnknownCharacterIdentifier,
    UnmatchedClosingBrace,
}

impl View for Error {
    type V = ErrorKind;

    open spec fn view(&self) -> ErrorKind {
        match self {
            Error::Serde(_) => ErrorKind::MalformedMacro,
            Error::UnknownVerbKey => ErrorKind::UnknownVerbKey,
            Error::UndefinedVerbCase => ErrorKind::UndefinedVerbCase,
            Error::MissingMacroData => ErrorKind::MissingMacroData,
            Error::UnknownCharacterIdentifier => ErrorKind::UnknownCharacterIdentifier,
            Error::UnmatchedClosingBrace => ErrorKind::UnmatchedClosingBrace,
        }
    }
}

/// A result of compilation in mathematical terms: the text as a sequence of
/// characters, or the kind of the error.
pub open spec fn outcome(r: Result<String, Error>) -> Result<Seq<char>, ErrorKind> {
    match r {
        Ok(text) => Ok(text@),
        Err(e) => Err(e@),
    }
}

/// The message of a JSON error: what its `Display` writes, which is the
/// message itself and, where the error has a line, the line and the column
/// behind it.
pub uninterp spec fn json_error_message(e: JsonError) -> Seq<char>;

/// Whether `pattern` stands somewhere in `text`.
pub open spec fn mentions(text: Seq<char>, pattern: Seq<char>) -> bool {
    exists|i: int|
        0 <= i <= text.len() - pattern.len() && #[trigger] text.subrange(i, i + pattern.len())
            == pattern
}

/// `ToString` of `serde_json::Error`, which writes what its `Display`
/// writes.
#[verifier::external_body]
fn json_error_text(e: &JsonError) -> (text: String)
    ensures
        text@ == json_error_message(*e),
{
    e.to_string()
}

/// `serde::de::Error::custom` of `serde_json::Error`: a JSON error with
/// `message`, for a document that is read well and is yet no macro.
///
/// `serde_json` looks for a line and a column behind the words ` at line `
/// in the message and takes them out of it. A message without those words
/// is kept whole and has no line, so that it is all that `Display` writes.
#[verifier::external_body]
fn json_error(message: &str) -> (e: JsonError)
    ensures
        !mentions(message@, " at line "@) ==> json_error_message(e) == message@,
{
    serde::de::Error::custom(message)
}

impl Error {
    /// The message of the error: that of the JSON error for a malformed
    /// macro, and a fixed text for each other kind.
    pub open spec fn message_text(&self) -> Seq<char> {
        match self {
            Error::Serde(e) => json_error_message(*e),
            Error::UnknownVerbKey => "unknown verb key"@,
            Error::UndefinedVerbCase => "undefined verb case"@,
            Error::MissingMacroData => "macro misses data attribute"@,
            Error::UnknownCharacterIdentifier => "unknown character identifier"@,
            Error::UnmatchedClosingBrace => "unmatched closing brace"@,
        }
    }

    /// An error for a JSON document that describes no macro; `message` says
    /// why, and is the message of the error. Only a message that holds the
    /// words ` at line ` may come back changed: the JSON error reads its
    /// line and column from there.
    pub fn malformed(message: &str) -> (e: Error)
        ensures
            e@ == ErrorKind::MalformedMacro,
            !mentions(message@, " at line "@) ==> e.message_text() == message@,
    {
        Error::Serde(json_error(message))
    }

    /// The kind of this error.
    pub fn kind(&self) -> (k: ErrorKind)
        ensures
            k == self@,
    {
        match self {
            Error::Serde(_) => ErrorKind::MalformedMacro,
            Error::UnknownVerbKey => ErrorKind::UnknownVerbKey,
            Error::UndefinedVerbCase => ErrorKind::UndefinedVerbCase,
            Error::MissingMacroData => ErrorKind::MissingMacroData,
            Error::UnknownCharacterIdentifier => ErrorKind::UnknownCharacterIdentifier,
            Error::UnmatchedClosingBrace => ErrorKind::UnmatchedClosingBrace,
        }
    }

    /// The message for a reader: the JSON error's own for a malformed
    /// macro, and a fixed text for each other kind.
    pub fn message(&self) -> (text: String)
        ensures
            text@ == self.message_text(),
    {
        match self {
            Error::Serde(e) => json_error_text(e),
            Error::UnknownVerbKey => String::from_str("unknown verb key"),
            Error::UndefinedVerbCase => String::from_str("undefined verb case"),
            Error::MissingMacroData => String::from_str("macro misses data attribute"),
            Error::UnknownCharacterIdentifier => String::from_str("unknown character identifier"),
            Error::UnmatchedClosingBrace => String::from_str("unmatched closing brace"),
        }
    }
}

impl From<JsonError> for Error {
    fn from(source: JsonError) -> (e: Error) {
        Error::Serde(source)
    }
}

impl vstd::std_specs::convert::FromSpecImpl<JsonError> for Error {
    open spec fn obeys_from_spec() -> bool {
        true
    }

    open spec fn from_spec(source: JsonError) -> Error {
        Error::Serde(source)
    }
}

} // verus!
