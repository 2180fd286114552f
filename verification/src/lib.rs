//! Dialog text for characters whose names, pronouns, titles and verb forms
//! are not known when the text is written.
//!
//! A dialog is plain text with macros in it. A macro is a JSON object in
//! braces that names a character of the cast and says what to put in its
//! place: the name, a pronoun, a conjugated verb. Braces that are meant as
//! text are doubled.
//!
//! ```text
//! Do you know {"character_id":"pidge","kind":"Name","data":null,"mods":[]}?
//! ```
//!
//! [`DialogMacroCompiler::parse_and_compile`] turns such a dialog into the
//! text that is shown. What it returns is stated by
//! [`dialog_parser::compiled`], and proved of it. The JSON inside a macro is
//! read by `serde_json`, and case is changed by the standard library: of
//! those two the proofs know only that the same input gives the same
//! output.

pub mod character;
pub mod dialog_macro;
pub mod dialog_parser;
pub mod error;
pub mod json;
pub mod scanner;
pub mod text;
pub mod verbs;

pub use character::{CharacterCast, GrammaticalCharacter, Pronouns, Title};
pub use dialog_macro::{DialogMacro, DialogMacroMod, DialogMacroType};
pub use dialog_parser::DialogMacroCompiler;
pub use error::{Error, ErrorKind};
pub use json::Json;
pub use verbs::{ConjugatePerson, Dictionary, Verb};
