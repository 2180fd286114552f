//! Macros: what a span of a dialog asks for, and how it is read from the
//! JSON document that the span holds.

use crate::error::{Error, ErrorKind};
use crate::json::{items_view, lemma_items_view, Json, JsonView};
use crate::text::{same_text, text_view};
use vstd::prelude::*;

verus! {

/// What a macro stands for.
#[derive(Debug, Clone, Copy, PartialEq, Eq, Structural)]
pub enum DialogMacroType {
    VerbConjugate,
    Name,
    TitlePlusName,
    SubjectivePronoun,
    ObjectivePronoun,
    PossessiveDeterminer,
    PossessivePronoun,
    ReflexivePronoun,
    PersonDescriptor,
}

/// A change of case, made to the text that a macro stands for.
#[derive(Debug, Clone, Copy, PartialEq, Eq, Structural)]
pub enum DialogMacroMod {
    Capitalized,
    UpperCase,
    LowerCase,
}

impl DialogMacroType {
    /// The kind that a tag names, if it names one.
    pub open spec fn of_tag(tag: Seq<char>) -> Option<DialogMacroType> {
        if tag == "VerbConjugate"@ {
            Some(DialogMacroType::VerbConjugate)
        } else if tag == "Name"@ {
            Some(DialogMacroType::Name)
        } else if tag == "TitlePlusName"@ {
            Some(DialogMacroType::TitlePlusName)
        } else if tag == "SubjectivePronoun"@ {
            Some(DialogMacroType::SubjectivePronoun)
        } else if tag == "ObjectivePronoun"@ {
            Some(DialogMacroType::ObjectivePronoun)
        } else if tag == "PossessiveDeterminer"@ {
            Some(DialogMacroType::PossessiveDeterminer)
        } else if tag == "PossessivePronoun"@ {
            Some(DialogMacroType::PossessivePronoun)
        } else if tag == "ReflexivePronoun"@ {
            Some(DialogMacroType::ReflexivePronoun)
        } else if tag == "PersonDescriptor"@ {
            Some(DialogMacroType::PersonDescriptor)
        } else {
            None
        }
    }

    /// The kind that `tag` names, if it names one.
    pub fn from_tag(tag: &str) -> (kind: Option<DialogMacroType>)
        ensures
            kind == Self::of_tag(tag@),
    {
        if same_text(tag, "VerbConjugate") {
            Some(DialogMacroType::VerbConjugate)
        } else if same_text(tag, "Name") {
            Some(DialogMacroType::Name)
        } else if same_text(tag, "TitlePlusName") {
            Some(DialogMacroType::TitlePlusName)
        } else if same_text(tag, "SubjectivePronoun") {
            Some(DialogMacroType::SubjectivePronoun)
        } else if same_text(tag, "ObjectivePronoun") {
            Some(DialogMacroType::ObjectivePronoun)
        } else if same_text(tag, "PossessiveDeterminer") {
            Some(DialogMacroType::PossessiveDeterminer)
        } else if same_text(tag, "PossessivePronoun") {
            Some(DialogMacroType::PossessivePronoun)
        } else if same_text(tag, "ReflexivePronoun") {
            Some(DialogMacroType::ReflexivePronoun)
        } else if same_text(tag, "PersonDescriptor") {
            Some(DialogMacroType::PersonDescriptor)
        } else {
            None
        }
    }
}

impl DialogMacroMod {
    /// The modifier that a tag names, if it names one.
    pub open spec fn of_tag(tag: Seq<char>) -> Option<DialogMacroMod> {
        if tag == "Capitalized"@ {
            Some(DialogMacroMod::Capitalized)
        } else if tag == "UpperCase"@ {
            Some(DialogMacroMod::UpperCase)
        } else if tag == "LowerCase"@ {
            Some(DialogMacroMod::LowerCase)
        } else {
            None
        }
    }

    /// The modifier that a list item names: the item is a text, and the
    /// text is the tag of a modifier.
    pub open spec fn of_item(item: JsonView) -> Option<DialogMacroMod> {
        match item {
            JsonView::Text(tag) => Self::of_tag(tag),
            _ => None,
        }
    }

    /// The modifier that `tag` names, if it names one.
    pub fn from_tag(tag: &str) -> (modifier: Option<DialogMacroMod>)
        ensures
            modifier == Self::of_tag(tag@),
    {
        if same_text(tag, "Capitalized") {
            Some(DialogMacroMod::Capitalized)
        } else if same_text(tag, "UpperCase") {
            Some(DialogMacroMod::UpperCase)
        } else if same_text(tag, "LowerCase") {
            Some(DialogMacroMod::LowerCase)
        } else {
            None
        }
    }
}

/// A macro: the character it speaks of, what it stands for, the verb for a
/// conjugation, and the changes of case in the order in which they are made.
#[derive(Debug)]
pub struct DialogMacro<'a> {
    character_id: &'a str,
    kind: DialogMacroType,
    data: Option<&'a str>,
    mods: Vec<DialogMacroMod>,
}

/// The mathematical value of a [`DialogMacro`].
pub struct MacroView {
    pub character_id: Seq<char>,
    pub kind: DialogMacroType,
    pub data: Option<Seq<char>>,
    pub mods: Seq<DialogMacroMod>,
}

impl<'a> View for DialogMacro<'a> {
    type V = MacroView;

    closed spec fn view(&self) -> MacroView {
        MacroView {
            character_id: self.character_id@,
            kind: self.kind,
            data: text_view(self.data),
            mods: self.mods@,
        }
    }
}

impl<'a> Clone for DialogMacro<'a> {
    fn clone(&self) -> (copy: Self)
        ensures
            copy@ == self@,
    {
        let mods = self.mods.clone();
        assert(mods@ =~= self.mods@);
        DialogMacro { character_id: self.character_id, kind: self.kind, data: self.data, mods }
    }
}

/// The text under `key` in an object; nothing where the member is missing
/// or no text.
pub open spec fn text_member(doc: JsonView, key: Seq<char>) -> Option<Seq<char>> {
    match doc.get(key) {
        Some(JsonView::Text(text)) => Some(text),
        _ => None,
    }
}

/// The kind of the macro that `doc` describes. It stands under `kind`, or,
/// where the object has no such member, under `_type`.
pub open spec fn kind_member(doc: JsonView) -> Option<DialogMacroType> {
    let key = if doc.get("kind"@) is Some {
        "kind"@
    } else {
        "_type"@
    };
    match text_member(doc, key) {
        Some(tag) => DialogMacroType::of_tag(tag),
        None => None,
    }
}

/// The argument of the macro that `doc` describes: a text, or none where
/// `data` is missing or null. Any other value is an error, the outer
/// `None`.
pub open spec fn data_member(doc: JsonView) -> Option<Option<Seq<char>>> {
    match doc.get("data"@) {
        None => Some(None),
        Some(JsonView::Null) => Some(None),
        Some(JsonView::Text(text)) => Some(Some(text)),
        _ => None,
    }
}

/// The modifiers that the items of a list name, in order; nothing where one
/// item names none.
pub open spec fn decoded_mods(items: Seq<JsonView>) -> Option<Seq<DialogMacroMod>> {
    if forall|i: int| 0 <= i < items.len() ==> (#[trigger] DialogMacroMod::of_item(items[i])) is Some {
        Some(Seq::new(items.len(), |i: int| DialogMacroMod::of_item(items[i])->Some_0))
    } else {
        None
    }
}

/// The modifiers of the macro that `doc` describes: the list under `mods`.
pub open spec fn mods_member(doc: JsonView) -> Option<Seq<DialogMacroMod>> {
    match doc.get("mods"@) {
        Some(JsonView::List(items)) => decoded_mods(items),
        _ => None,
    }
}

/// The macro that a JSON document describes; nothing where it describes
/// none. The document is an object with a text under `character_id`, the
/// tag of a kind under `kind`, a text, null or nothing under `data`, and a
/// list of modifier tags under `mods`. Other members are passed over.
pub open spec fn decoded(doc: JsonView) -> Option<MacroView> {
    match (text_member(doc, "character_id"@), kind_member(doc), data_member(doc), mods_member(doc)) {
        (Some(character_id), Some(kind), Some(data), Some(mods)) => Some(
            MacroView { character_id, kind, data, mods },
        ),
        _ => None,
    }
}

/// The text under `key` in an object.
fn read_text<'a>(doc: &'a Json, key: &str) -> (text: Option<&'a str>)
    ensures
        text_view(text) == text_member(doc@, key@),
{
    match doc.get(key) {
        Some(found) => found.as_text(),
        None => None,
    }
}

/// The modifiers that the items of a list name.
fn read_mods(items: &Vec<Json>) -> (mods: Option<Vec<DialogMacroMod>>)
    ensures
        match mods {
            Some(v) => decoded_mods(items_view(items@)) == Some(v@),
            None => decoded_mods(items_view(items@)) is None,
        },
{
    let ghost views = items_view(items@);
    proof {
        lemma_items_view(items@);
    }
    let mut mods: Vec<DialogMacroMod> = Vec::new();
    let mut i: usize = 0;
    while i < items.len()
        invariant
            i <= items@.len(),
            views == items_view(items@),
            views.len() == items@.len(),
            forall|j: int| 0 <= j < items@.len() ==> #[trigger] views[j] == items@[j]@,
            mods@.len() == i,
            forall|j: int| 0 <= j < i ==> (#[trigger] DialogMacroMod::of_item(views[j])) == Some(mods@[j]),
        decreases items@.len() - i,
    {
        let modifier = match items[i].as_text() {
            Some(tag) => DialogMacroMod::from_tag(tag),
            None => None,
        };
        assert(modifier == DialogMacroMod::of_item(views[i as int]));
        match modifier {
            Some(m) => mods.push(m),
            None => {
                assert(!(DialogMacroMod::of_item(views[i as int]) is Some));
                return None;
            },
        }
        i += 1;
    }
    assert(mods@ =~= Seq::new(views.len(), |i: int| DialogMacroMod::of_item(views[i])->Some_0));
    Some(mods)
}

impl<'a> DialogMacro<'a> {
    /// A macro of the given parts.
    pub fn new(
        character_id: &'a str,
        kind: DialogMacroType,
        data: Option<&'a str>,
        mods: Vec<DialogMacroMod>,
    ) -> (made: Self)
        ensures
            made@ == (MacroView {
                character_id: character_id@,
                kind,
                data: text_view(data),
                mods: mods@,
            }),
    {
        DialogMacro { character_id, kind, data, mods }
    }

    /// The id of the character that the macro speaks of.
    pub fn character_id(&self) -> (id: &'a str)
        ensures
            id@ == self@.character_id,
    {
        self.character_id
    }

    /// What the macro stands for.
    pub fn kind(&self) -> (kind: DialogMacroType)
        ensures
            kind == self@.kind,
    {
        self.kind
    }

    /// The key of the verb, for a conjugation.
    pub fn data(&self) -> (data: Option<&'a str>)
        ensures
            text_view(data) == self@.data,
    {
        self.data
    }

    /// The changes of case, in the order in which they are made.
    pub fn mods(&self) -> (mods: &[DialogMacroMod])
        ensures
            mods@ == self@.mods,
    {
        self.mods.as_slice()
    }

    /// The macro that `doc` describes.
    pub fn from_json(doc: &'a Json) -> (r: Result<DialogMacro<'a>, Error>)
        ensures
            match r {
                Ok(made) => decoded(doc@) == Some(made@),
                Err(e) => decoded(doc@) is None && e@ == ErrorKind::MalformedMacro,
            },
    {
        let Some(character_id) = read_text(doc, "character_id") else {
            return Err(Error::malformed("`character_id` is missing or no text"));
        };
        let under_kind = doc.get("kind").is_some();
        let tag = if under_kind {
            read_text(doc, "kind")
        } else {
            read_text(doc, "_type")
        };
        let Some(tag) = tag else {
            return Err(Error::malformed("`kind` is missing or no text"));
        };
        let Some(kind) = DialogMacroType::from_tag(tag) else {
            return Err(Error::malformed("`kind` is none of the kinds of macro"));
        };
        let data = match doc.get("data") {
            None => None,
            Some(found) => {
                if found.is_null() {
                    None
                } else {
                    match found.as_text() {
                        Some(text) => Some(text),
                        None => {
                            return Err(Error::malformed("`data` is neither a text nor null"));
                        },
                    }
                }
            },
        };
        let items = match doc.get("mods") {
            Some(found) => found.as_list(),
            None => None,
        };
        let Some(items) = items else {
            return Err(Error::malformed("`mods` is missing or no list"));
        };
        let Some(mods) = read_mods(items) else {
            return Err(Error::malformed("`mods` holds what is no modifier"));
        };
        Ok(DialogMacro { character_id, kind, data, mods })
    }
}

} // verus!
