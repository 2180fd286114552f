//! Verbs, their conjugated forms, and the dictionary that holds them.

use crate::error::{outcome, Error, ErrorKind};
use crate::text::text_view;
use vstd::hash_map::StringHashMap;
use vstd::prelude::*;
use vstd::string::StringExecFns;

verus! {

/// Grammatical person and number, by which a verb's forms are indexed.
#[derive(Debug, Clone, Copy, PartialEq, Eq, Hash, Structural)]
pub enum ConjugatePerson {
    FirstSingular,
    SecondSingular,
    ThirdSingular,
    FirstPlural,
    SecondPlural,
    ThirdPlural,
}

/// A verb: a label for diagnostics, the infinitive, and one form for each
/// person and number. Each form may be missing, whatever the others are.
#[derive(Debug, Clone, Copy)]
pub struct Verb<'a> {
    debug_ident: &'a str,
    infinitive: Option<&'a str>,
    singular1: Option<&'a str>,
    singular2: Option<&'a str>,
    singular3: Option<&'a str>,
    plural1: Option<&'a str>,
    plural2: Option<&'a str>,
    plural3: Option<&'a str>,
}

/// The mathematical value of a [`Verb`].
pub struct VerbView {
    pub debug_ident: Seq<char>,
    pub infinitive: Option<Seq<char>>,
    pub singular1: Option<Seq<char>>,
    pub singular2: Option<Seq<char>>,
    pub singular3: Option<Seq<char>>,
    pub plural1: Option<Seq<char>>,
    pub plural2: Option<Seq<char>>,
    pub plural3: Option<Seq<char>>,
}

/// The form itself, or `N/A` where it is missing.
pub open spec fn or_not_available(form: Option<Seq<char>>) -> Seq<char> {
    match form {
        Some(t) => t,
        None => "N/A"@,
    }
}

impl VerbView {
    /// The form for `person`, if the verb has one.
    pub open spec fn form(self, person: ConjugatePerson) -> Option<Seq<char>> {
        match person {
            ConjugatePerson::FirstSingular => self.singular1,
            ConjugatePerson::SecondSingular => self.singular2,
            ConjugatePerson::ThirdSingular => self.singular3,
            ConjugatePerson::FirstPlural => self.plural1,
            ConjugatePerson::SecondPlural => self.plural2,
            ConjugatePerson::ThirdPlural => self.plural3,
        }
    }

    /// The verb as a table for a reader: the label and the infinitive, then
    /// one line for each person and number.
    pub open spec fn description(self) -> Seq<char> {
        "\""@ + self.debug_ident + "\" -- to "@ + or_not_available(self.infinitive) + ":\n  I "@
            + or_not_available(self.singular1) + ".\n  You "@ + or_not_available(self.singular2)
            + ".\n  He/she/it "@ + or_not_available(self.singular3) + ".\n  We "@
            + or_not_available(self.plural1) + ".\n  You "@ + or_not_available(self.plural2)
            + ".\n  They "@ + or_not_available(self.plural3) + ".\n"@
    }
}

impl<'a> View for Verb<'a> {
    type V = VerbView;

    closed spec fn view(&self) -> VerbView {
        VerbView {
            debug_ident: self.debug_ident@,
            infinitive: text_view(self.infinitive),
            singular1: text_view(self.singular1),
            singular2: text_view(self.singular2),
            singular3: text_view(self.singular3),
            plural1: text_view(self.plural1),
            plural2: text_view(self.plural2),
            plural3: text_view(self.plural3),
        }
    }
}

/// Appends the form, or `N/A` where it is missing.
fn append_form(out: &mut String, form: Option<&str>)
    ensures
        final(out)@ == old(out)@ + or_not_available(text_view(form)),
{
    match form {
        Some(t) => out.append(t),
        None => out.append("N/A"),
    }
}

impl<'a> Verb<'a> {
    /// The form for `person`, if the verb has one.
    pub fn get(&self, person: ConjugatePerson) -> (form: Option<&'a str>)
        ensures
            text_view(form) == self@.form(person),
    {
        match person {
            ConjugatePerson::FirstSingular => self.singular1,
            ConjugatePerson::SecondSingular => self.singular2,
            ConjugatePerson::ThirdSingular => self.singular3,
            ConjugatePerson::FirstPlural => self.plural1,
            ConjugatePerson::SecondPlural => self.plural2,
            ConjugatePerson::ThirdPlural => self.plural3,
        }
    }

    /// A verb with the given label, infinitive and forms.
    pub fn new(
        debug_ident: &'a str,
        infinitive: Option<&'a str>,
        singular1: Option<&'a str>,
        singular2: Option<&'a str>,
        singular3: Option<&'a str>,
        plural1: Option<&'a str>,
        plural2: Option<&'a str>,
        plural3: Option<&'a str>,
    ) -> (verb: Self)
        ensures
            verb@ == (VerbView {
                debug_ident: debug_ident@,
                infinitive: text_view(infinitive),
                singular1: text_view(singular1),
                singular2: text_view(singular2),
                singular3: text_view(singular3),
                plural1: text_view(plural1),
                plural2: text_view(plural2),
                plural3: text_view(plural3),
            }),
    {
        Self {
            debug_ident,
            infinitive,
            singular1,
            singular2,
            singular3,
            plural1,
            plural2,
            plural3,
        }
    }

    /// The label by which the verb is told apart in diagnostics.
    pub fn debug_ident(&self) -> (label: &'a str)
        ensures
            label@ == self@.debug_ident,
    {
        self.debug_ident
    }

    /// The infinitive, if the verb has one.
    pub fn infinitive(&self) -> (infinitive: Option<&'a str>)
        ensures
            text_view(infinitive) == self@.infinitive,
    {
        self.infinitive
    }

    /// The verb as a table for a reader.
    pub fn describe(&self) -> (text: String)
        ensures
            text@ == self@.description(),
    {
        let mut out = String::from_str("\"");
        out.append(self.debug_ident);
        out.append("\" -- to ");
        append_form(&mut out, self.infinitive);
        out.append(":\n  I ");
        append_form(&mut out, self.singular1);
        out.append(".\n  You ");
        append_form(&mut out, self.singular2);
        out.append(".\n  He/she/it ");
        append_form(&mut out, self.singular3);
        out.append(".\n  We ");
        append_form(&mut out, self.plural1);
        out.append(".\n  You ");
        append_form(&mut out, self.plural2);
        out.append(".\n  They ");
        append_form(&mut out, self.plural3);
        out.append(".\n");
        out
    }
}

/// The verbs that macros may name, each under its key.
pub struct Dictionary<'a> {
    map: StringHashMap<Verb<'a>>,
}

impl<'a> View for Dictionary<'a> {
    type V = Map<Seq<char>, VerbView>;

    closed spec fn view(&self) -> Map<Seq<char>, VerbView> {
        self.map@.map_values(|verb: Verb<'a>| verb@)
    }
}

/// The form of the verb under `key` for `person`: the first step that fails
/// decides the error.
pub open spec fn conjugation(
    dictionary: Map<Seq<char>, VerbView>,
    key: Seq<char>,
    person: ConjugatePerson,
) -> Result<Seq<char>, ErrorKind> {
    if !dictionary.contains_key(key) {
        Err(ErrorKind::UnknownVerbKey)
    } else {
        match dictionary[key].form(person) {
            Some(form) => Ok(form),
            None => Err(ErrorKind::UndefinedVerbCase),
        }
    }
}

impl<'a> Default for Dictionary<'a> {
    fn default() -> (dictionary: Self)
        ensures
            dictionary@ == Map::<Seq<char>, VerbView>::empty(),
    {
        let dictionary = Dictionary { map: StringHashMap::new() };
        assert(dictionary@ =~= Map::<Seq<char>, VerbView>::empty());
        dictionary
    }
}

impl<'a> Dictionary<'a> {
    /// Puts `verb` under `key` and returns the verb that was there before.
    pub fn insert(&mut self, key: String, verb: Verb<'a>) -> (before: Option<Verb>)
        ensures
            final(self)@ == old(self)@.insert(key@, verb@),
            match before {
                Some(v) => old(self)@.contains_key(key@) && v@ == old(self)@[key@],
                None => !old(self)@.contains_key(key@),
            },
    {
        let before = match self.map.get(key.as_str()) {
            Some(v) => Some(*v),
            None => None,
        };
        let ghost key_view = key@;
        self.map.insert(key, verb);
        assert(self@ =~= old(self)@.insert(key_view, verb@));
        before
    }

    /// Takes the verb under `key` out and returns it.
    pub fn remove(&mut self, key: &str) -> (before: Option<Verb>)
        ensures
            final(self)@ == old(self)@.remove(key@),
            match before {
                Some(v) => old(self)@.contains_key(key@) && v@ == old(self)@[key@],
                None => !old(self)@.contains_key(key@),
            },
    {
        let before = match self.map.get(key) {
            Some(v) => Some(*v),
            None => None,
        };
        self.map.remove(key);
        assert(self@ =~= old(self)@.remove(key@));
        before
    }

    /// The form of the verb under `key` for `person`.
    pub fn conjugate(&self, key: &str, person: ConjugatePerson) -> (r: Result<String, Error>)
        ensures
            outcome(r) == conjugation(self@, key@, person),
    {
        let Some(verb) = self.map.get(key) else {
            return Err(Error::UnknownVerbKey);
        };
        let Some(form) = verb.get(person) else {
            return Err(Error::UndefinedVerbCase);
        };
        Ok(String::from_str(form))
    }
}

} // verus!
