//! Characters, their pronouns and titles, and the cast that holds them.

use crate::verbs::ConjugatePerson;
use vstd::hash_map::StringHashMap;
use vstd::prelude::*;
use vstd::string::{StrSliceExecFns, StringExecFns};

verus! {

/// The pronouns of a character: one of the presets, or a set of the
/// character's own with its person and number.
#[derive(Debug, PartialEq, Eq, Hash)]
pub enum Pronouns {
    HeHim,
    SheHer,
    ItIts,
    TheyThem,
    /// The character's name stands in place of a pronoun.
    Name,
    XeXyr,
    Custom {
        subjective: String,
        objective: String,
        possessive_determiner: String,
        possessive: String,
        reflexive: String,
        conjugate_case: ConjugatePerson,
    },
}

/// The mathematical value of [`Pronouns`].
pub enum PronounsView {
    HeHim,
    SheHer,
    ItIts,
    TheyThem,
    Name,
    XeXyr,
    Custom {
        subjective: Seq<char>,
        objective: Seq<char>,
        possessive_determiner: Seq<char>,
        possessive: Seq<char>,
        reflexive: Seq<char>,
        conjugate_case: ConjugatePerson,
    },
}

impl View for Pronouns {
    type V = PronounsView;

    open spec fn view(&self) -> PronounsView {
        match self {
            Pronouns::HeHim => PronounsView::HeHim,
            Pronouns::SheHer => PronounsView::SheHer,
            Pronouns::ItIts => PronounsView::ItIts,
            Pronouns::TheyThem => PronounsView::TheyThem,
            Pronouns::Name => PronounsView::Name,
            Pronouns::XeXyr => PronounsView::XeXyr,
            Pronouns::Custom {
                subjective,
                objective,
                possessive_determiner,
                possessive,
                reflexive,
                conjugate_case,
            } => PronounsView::Custom {
                subjective: subjective@,
                objective: objective@,
                possessive_determiner: possessive_determiner@,
                possessive: possessive@,
                reflexive: reflexive@,
                conjugate_case: *conjugate_case,
            },
        }
    }
}

impl Clone for Pronouns {
    fn clone(&self) -> (copy: Self)
        ensures
            copy == *self,
    {
        match self {
            Pronouns::HeHim => Pronouns::HeHim,
            Pronouns::SheHer => Pronouns::SheHer,
            Pronouns::ItIts => Pronouns::ItIts,
            Pronouns::TheyThem => Pronouns::TheyThem,
            Pronouns::Name => Pronouns::Name,
            Pronouns::XeXyr => Pronouns::XeXyr,
            Pronouns::Custom {
                subjective,
                objective,
                possessive_determiner,
                possessive,
                reflexive,
                conjugate_case,
            } => Pronouns::Custom {
                subjective: subjective.clone(),
                objective: objective.clone(),
                possessive_determiner: possessive_determiner.clone(),
                possessive: possessive.clone(),
                reflexive: reflexive.clone(),
                conjugate_case: *conjugate_case,
            },
        }
    }
}

impl Default for Pronouns {
    fn default() -> (pronouns: Self)
        ensures
            pronouns == Pronouns::TheyThem,
    {
        Pronouns::TheyThem
    }
}

impl Pronouns {
    /// Pronouns of the character's own. Mind the order: the possessive
    /// pronoun comes before the possessive determiner.
    pub fn custom(
        subjective: String,
        objective: String,
        possessive: String,
        possessive_determiner: String,
        reflexive: String,
        conjugate_case: ConjugatePerson,
    ) -> (pronouns: Self)
        ensures
            pronouns == (Pronouns::Custom {
                subjective,
                objective,
                possessive_determiner,
                possessive,
                reflexive,
                conjugate_case,
            }),
    {
        Self::Custom {
            subjective,
            objective,
            possessive_determiner,
            possessive,
            reflexive,
            conjugate_case,
        }
    }
}

/// The title of a character.
#[derive(Debug, PartialEq, Eq, Hash)]
pub enum Title {
    Mr,
    Ms,
    Mrs,
    Mx,
    /// The character is addressed by name alone.
    NoTitle,
    Custom(String),
}

/// The mathematical value of a [`Title`].
pub enum TitleView {
    Mr,
    Ms,
    Mrs,
    Mx,
    NoTitle,
    Custom(Seq<char>),
}

impl TitleView {
    /// The title as it is written; nothing for `NoTitle`.
    pub open spec fn text(self) -> Seq<char> {
        match self {
            TitleView::Mr => "Mr."@,
            TitleView::Ms => "Ms."@,
            TitleView::Mrs => "Mrs."@,
            TitleView::Mx => "Mx."@,
            TitleView::NoTitle => Seq::empty(),
            TitleView::Custom(text) => text,
        }
    }
}

impl View for Title {
    type V = TitleView;

    open spec fn view(&self) -> TitleView {
        match self {
            Title::Mr => TitleView::Mr,
            Title::Ms => TitleView::Ms,
            Title::Mrs => TitleView::Mrs,
            Title::Mx => TitleView::Mx,
            Title::NoTitle => TitleView::NoTitle,
            Title::Custom(text) => TitleView::Custom(text@),
        }
    }
}

impl Clone for Title {
    fn clone(&self) -> (copy: Self)
        ensures
            copy == *self,
    {
        match self {
            Title::Mr => Title::Mr,
            Title::Ms => Title::Ms,
            Title::Mrs => Title::Mrs,
            Title::Mx => Title::Mx,
            Title::NoTitle => Title::NoTitle,
            Title::Custom(text) => Title::Custom(text.clone()),
        }
    }
}

impl Default for Title {
    fn default() -> (title: Self)
        ensures
            title == Title::Mx,
    {
        Title::Mx
    }
}

impl Title {
    /// A title of the character's own.
    pub fn custom(title: String) -> (custom: Self)
        ensures
            custom == Title::Custom(title),
    {
        Self::Custom(title)
    }

    /// The title as it is written; nothing for `NoTitle`.
    pub fn str(&self) -> (text: &str)
        ensures
            text@ == self@.text(),
    {
        match self {
            Title::Mr => "Mr.",
            Title::Ms => "Ms.",
            Title::Mrs => "Mrs.",
            Title::Mx => "Mx.",
            Title::NoTitle => {
                proof {
                    reveal_strlit("");
                    assert(""@ =~= Seq::<char>::empty());
                }
                ""
            },
            Title::Custom(value) => value.as_str(),
        }
    }

    /// The title as it is written, as a string of its own.
    pub fn to_string(&self) -> (text: String)
        ensures
            text@ == self@.text(),
    {
        String::from_str(self.str())
    }
}

/// Whether the last character of `name` is an `s` of either case.
pub open spec fn ends_in_s(name: Seq<char>) -> bool {
    name.len() > 0 && (name.last() == 's' || name.last() == 'S')
}

/// The possessive of a name: an apostrophe and an `s`, or the apostrophe
/// alone behind a name that ends in `s`.
pub open spec fn possessive_of_name(name: Seq<char>) -> Seq<char> {
    if ends_in_s(name) {
        name.push('\'')
    } else {
        name.push('\'').push('s')
    }
}

/// The possessive of a name is the name and `'`, where the name ends in an
/// `s` of either case, and the name and `'s` after any other last
/// character, and for the empty name.
pub proof fn lemma_possessive_of_name(name: Seq<char>)
    ensures
        ends_in_s(name) ==> possessive_of_name(name) == name + "'"@,
        !ends_in_s(name) ==> possessive_of_name(name) == name + "'s"@,
{
    reveal_strlit("'");
    reveal_strlit("'s");
    assert(name.push('\'') =~= name + "'"@);
    assert(name.push('\'').push('s') =~= name + "'s"@);
}

/// The mathematical value of a [`GrammaticalCharacter`].
pub struct CharacterView {
    pub name: Seq<char>,
    pub pronouns: PronounsView,
    pub title: Option<TitleView>,
    pub person_descriptor: Option<Seq<char>>,
}

impl CharacterView {
    /// The pronoun for the subject of a sentence.
    pub open spec fn subjective(self) -> Seq<char> {
        match self.pronouns {
            PronounsView::HeHim => "he"@,
            PronounsView::SheHer => "she"@,
            PronounsView::ItIts => "it"@,
            PronounsView::TheyThem => "they"@,
            PronounsView::Name => self.name,
            PronounsView::XeXyr => "xe"@,
            PronounsView::Custom { subjective, .. } => subjective,
        }
    }

    /// The pronoun for the object of a sentence.
    pub open spec fn objective(self) -> Seq<char> {
        match self.pronouns {
            PronounsView::HeHim => "him"@,
            PronounsView::SheHer => "her"@,
            PronounsView::ItIts => "it"@,
            PronounsView::TheyThem => "them"@,
            PronounsView::Name => self.name,
            PronounsView::XeXyr => "xem"@,
            PronounsView::Custom { objective, .. } => objective,
        }
    }

    /// The possessive that stands before a noun.
    pub open spec fn possessive_determiner(self) -> Seq<char> {
        match self.pronouns {
            PronounsView::HeHim => "his"@,
            PronounsView::SheHer => "her"@,
            PronounsView::ItIts => "its"@,
            PronounsView::TheyThem => "their"@,
            PronounsView::Name => possessive_of_name(self.name),
            PronounsView::XeXyr => "xyr"@,
            PronounsView::Custom { possessive_determiner, .. } => possessive_determiner,
        }
    }

    /// The possessive that stands alone.
    pub open spec fn possessive(self) -> Seq<char> {
        match self.pronouns {
            PronounsView::HeHim => "his"@,
            PronounsView::SheHer => "hers"@,
            PronounsView::ItIts => "its"@,
            PronounsView::TheyThem => "theirs"@,
            PronounsView::Name => possessive_of_name(self.name),
            PronounsView::XeXyr => "xyrs"@,
            PronounsView::Custom { possessive, .. } => possessive,
        }
    }

    /// The reflexive pronoun. With the name as pronoun it is the possessive
    /// of the name and the word `self`.
    pub open spec fn reflexive(self) -> Seq<char> {
        match self.pronouns {
            PronounsView::HeHim => "himself"@,
            PronounsView::SheHer => "herself"@,
            PronounsView::ItIts => "itself"@,
            PronounsView::TheyThem => "themself"@,
            PronounsView::Name => possessive_of_name(self.name) + " self"@,
            PronounsView::XeXyr => "xyrself"@,
            PronounsView::Custom { reflexive, .. } => reflexive,
        }
    }

    /// The person and number by which verbs are conjugated for the
    /// character: third person plural for they/them, third person singular
    /// for every other preset, and for pronouns of the character's own what
    /// they say.
    pub open spec fn conjugate_case(self) -> ConjugatePerson {
        match self.pronouns {
            PronounsView::TheyThem => ConjugatePerson::ThirdPlural,
            PronounsView::Custom { conjugate_case, .. } => conjugate_case,
            _ => ConjugatePerson::ThirdSingular,
        }
    }

    /// The title, a space and the name; the name alone where the character
    /// has no title.
    pub open spec fn title_plus_name(self) -> Seq<char> {
        match self.title {
            Some(title) if title != TitleView::NoTitle => title.text() + " "@ + self.name,
            _ => self.name,
        }
    }

    /// What kind of person the character is, `person` where nothing is set.
    pub open spec fn descriptor(self) -> Seq<char> {
        match self.person_descriptor {
            Some(descriptor) => descriptor,
            None => "person"@,
        }
    }
}

/// A character of a dialog: what a text needs to know to speak of them.
#[derive(Debug, Hash)]
pub struct GrammaticalCharacter {
    name: String,
    pronouns: Pronouns,
    title: Option<Title>,
    person_descriptor: Option<String>,
}

/// The mathematical value of an optional title.
pub open spec fn title_view(title: Option<Title>) -> Option<TitleView> {
    match title {
        Some(t) => Some(t@),
        None => None,
    }
}

/// The characters of an optional string.
pub open spec fn string_view(text: Option<String>) -> Option<Seq<char>> {
    match text {
        Some(t) => Some(t@),
        None => None,
    }
}

impl View for GrammaticalCharacter {
    type V = CharacterView;

    closed spec fn view(&self) -> CharacterView {
        CharacterView {
            name: self.name@,
            pronouns: self.pronouns@,
            title: title_view(self.title),
            person_descriptor: string_view(self.person_descriptor),
        }
    }
}

impl Clone for GrammaticalCharacter {
    fn clone(&self) -> (copy: Self)
        ensures
            copy == *self,
    {
        GrammaticalCharacter {
            name: self.name.clone(),
            pronouns: self.pronouns.clone(),
            title: match &self.title {
                Some(t) => Some(t.clone()),
                None => None,
            },
            person_descriptor: match &self.person_descriptor {
                Some(d) => Some(d.clone()),
                None => None,
            },
        }
    }
}

/// The possessive of `name`.
fn name_possessive(name: &str) -> (text: String)
    ensures
        text@ == possessive_of_name(name@),
{
    let n = name.unicode_len();
    let bare = if n == 0 {
        false
    } else {
        let last = name.get_char(n - 1);
        last == 's' || last == 'S'
    };
    let mut text = String::from_str(name);
    text.push('\'');
    if !bare {
        text.push('s');
    }
    text
}

impl GrammaticalCharacter {
    /// A character with the given name, pronouns, title and descriptor.
    pub fn new(
        name: String,
        pronouns: Pronouns,
        title: Option<Title>,
        person_descriptor: Option<String>,
    ) -> (character: Self)
        ensures
            character@ == (CharacterView {
                name: name@,
                pronouns: pronouns@,
                title: title_view(title),
                person_descriptor: string_view(person_descriptor),
            }),
    {
        Self { name, pronouns, title, person_descriptor }
    }

    /// The name.
    pub fn name(&self) -> (name: &str)
        ensures
            name@ == self@.name,
    {
        self.name.as_str()
    }

    /// The pronouns.
    pub fn pronouns(&self) -> (pronouns: &Pronouns)
        ensures
            pronouns@ == self@.pronouns,
    {
        &self.pronouns
    }

    /// The title, if the character has one.
    pub fn title(&self) -> (title: Option<&Title>)
        ensures
            match title {
                Some(t) => self@.title == Some(t@),
                None => self@.title is None,
            },
    {
        self.title.as_ref()
    }

    /// What kind of person the character is, if that is set.
    pub fn person_descriptor(&self) -> (descriptor: Option<&String>)
        ensures
            match descriptor {
                Some(d) => self@.person_descriptor == Some(d@),
                None => self@.person_descriptor is None,
            },
    {
        self.person_descriptor.as_ref()
    }

    /// The pronoun for the subject of a sentence.
    pub fn subjective_pronoun(&self) -> (text: String)
        ensures
            text@ == self@.subjective(),
    {
        match &self.pronouns {
            Pronouns::HeHim => String::from_str("he"),
            Pronouns::SheHer => String::from_str("she"),
            Pronouns::ItIts => String::from_str("it"),
            Pronouns::TheyThem => String::from_str("they"),
            Pronouns::Name => self.name.clone(),
            Pronouns::XeXyr => String::from_str("xe"),
            Pronouns::Custom { subjective, .. } => subjective.clone(),
        }
    }

    /// The pronoun for the object of a sentence.
    pub fn objective_pronoun(&self) -> (text: String)
        ensures
            text@ == self@.objective(),
    {
        match &self.pronouns {
            Pronouns::HeHim => String::from_str("him"),
            Pronouns::SheHer => String::from_str("her"),
            Pronouns::ItIts => String::from_str("it"),
            Pronouns::TheyThem => String::from_str("them"),
            Pronouns::Name => self.name.clone(),
            Pronouns::XeXyr => String::from_str("xem"),
            Pronouns::Custom { objective, .. } => objective.clone(),
        }
    }

    /// The possessive that stands before a noun.
    pub fn possessive_determiner(&self) -> (text: String)
        ensures
            text@ == self@.possessive_determiner(),
    {
        match &self.pronouns {
            Pronouns::HeHim => String::from_str("his"),
            Pronouns::SheHer => String::from_str("her"),
            Pronouns::ItIts => String::from_str("its"),
            Pronouns::TheyThem => String::from_str("their"),
            Pronouns::Name => name_possessive(self.name.as_str()),
            Pronouns::XeXyr => String::from_str("xyr"),
            Pronouns::Custom { possessive_determiner, .. } => possessive_determiner.clone(),
        }
    }

    /// The possessive that stands alone.
    pub fn possessive_pronoun(&self) -> (text: String)
        ensures
            text@ == self@.possessive(),
    {
        match &self.pronouns {
            Pronouns::HeHim => String::from_str("his"),
            Pronouns::SheHer => String::from_str("hers"),
            Pronouns::ItIts => String::from_str("its"),
            Pronouns::TheyThem => String::from_str("theirs"),
            Pronouns::Name => name_possessive(self.name.as_str()),
            Pronouns::XeXyr => String::from_str("xyrs"),
            Pronouns::Custom { possessive, .. } => possessive.clone(),
        }
    }

    /// The reflexive pronoun.
    pub fn reflexive_pronoun(&self) -> (text: String)
        ensures
            text@ == self@.reflexive(),
    {
        match &self.pronouns {
            Pronouns::HeHim => String::from_str("himself"),
            Pronouns::SheHer => String::from_str("herself"),
            Pronouns::ItIts => String::from_str("itself"),
            Pronouns::TheyThem => String::from_str("themself"),
            Pronouns::Name => {
                let mut text = name_possessive(self.name.as_str());
                text.append(" self");
                text
            },
            Pronouns::XeXyr => String::from_str("xyrself"),
            Pronouns::Custom { reflexive, .. } => reflexive.clone(),
        }
    }

    /// The person and number by which verbs are conjugated for the
    /// character.
    pub fn conjugate_case(&self) -> (person: ConjugatePerson)
        ensures
            person == self@.conjugate_case(),
    {
        match &self.pronouns {
            Pronouns::HeHim | Pronouns::SheHer | Pronouns::ItIts | Pronouns::XeXyr | Pronouns::Name => {
                ConjugatePerson::ThirdSingular
            },
            Pronouns::TheyThem => ConjugatePerson::ThirdPlural,
            Pronouns::Custom { conjugate_case, .. } => *conjugate_case,
        }
    }
}

impl Default for GrammaticalCharacter {
    fn default() -> (character: Self)
        ensures
            character@ == (CharacterView {
                name: "##MISSING CHARACTER#"@,
                pronouns: PronounsView::TheyThem,
                title: None,
                person_descriptor: None,
            }),
    {
        Self::new(String::from_str("##MISSING CHARACTER#"), Pronouns::default(), None, None)
    }
}

/// The characters that macros may name, each under its id.
pub struct CharacterCast {
    map: StringHashMap<GrammaticalCharacter>,
}

impl View for CharacterCast {
    type V = Map<Seq<char>, CharacterView>;

    closed spec fn view(&self) -> Map<Seq<char>, CharacterView> {
        self.map@.map_values(|character: GrammaticalCharacter| character@)
    }
}

impl Default for CharacterCast {
    fn default() -> (cast: Self)
        ensures
            cast@ == Map::<Seq<char>, CharacterView>::empty(),
    {
        let cast = CharacterCast { map: StringHashMap::new() };
        assert(cast@ =~= Map::<Seq<char>, CharacterView>::empty());
        cast
    }
}

impl CharacterCast {
    /// The character under `key`, if the cast has one.
    pub fn get(&self, key: &str) -> (character: Option<&GrammaticalCharacter>)
        ensures
            match character {
                Some(c) => self@.contains_key(key@) && c@ == self@[key@],
                None => !self@.contains_key(key@),
            },
    {
        self.map.get(key)
    }

    /// Puts `value` under `key` and returns the character that was there
    /// before.
    pub fn insert(&mut self, key: String, value: GrammaticalCharacter) -> (before: Option<
        GrammaticalCharacter,
    >)
        ensures
            final(self)@ == old(self)@.insert(key@, value@),
            match before {
                Some(c) => old(self)@.contains_key(key@) && c@ == old(self)@[key@],
                None => !old(self)@.contains_key(key@),
            },
    {
        let before = match self.map.get(key.as_str()) {
            Some(c) => Some(c.clone()),
            None => None,
        };
        let ghost key_view = key@;
        self.map.insert(key, value);
        assert(self@ =~= old(self)@.insert(key_view, value@));
        before
    }

    /// Takes the character under `key` out and returns it.
    pub fn remove(&mut self, key: &str) -> (before: Option<GrammaticalCharacter>)
        ensures
            final(self)@ == old(self)@.remove(key@),
            match before {
                Some(c) => old(self)@.contains_key(key@) && c@ == old(self)@[key@],
                None => !old(self)@.contains_key(key@),
            },
    {
        let before = match self.map.get(key) {
            Some(c) => Some(c.clone()),
            None => None,
        };
        self.map.remove(key);
        assert(self@ =~= old(self)@.remove(key@));
        before
    }
}

} // verus!
