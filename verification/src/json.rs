//! JSON documents as plain data.
//!
//! The text of a document is read by `serde_json`. What it finds is held
//! here as a [`Json`] value, which the rest of the library can take apart.

use crate::error::{Error, ErrorKind};
use crate::text::same_text;
use serde_json::Error as JsonError;
use vstd::prelude::*;

verus! {

/// A JSON document.
#[derive(Debug, PartialEq, Eq)]
pub enum Json {
    Null,
    Bool(bool),
    /// A number, as `serde_json` prints it.
    Number(String),
    Text(String),
    List(Vec<Json>),
    /// The members of an object, each with its key.
    Object(Vec<(String, Json)>),
}

/// The mathematical value of a [`Json`] document.
pub enum JsonView {
    Null,
    Bool(bool),
    Number(Seq<char>),
    Text(Seq<char>),
    List(Seq<JsonView>),
    Object(Seq<(Seq<char>, JsonView)>),
}

/// The mathematical value of a document.
pub open spec fn document_view(doc: Json) -> JsonView
    decreases doc,
{
    match doc {
        Json::Null => JsonView::Null,
        Json::Bool(b) => JsonView::Bool(b),
        Json::Number(n) => JsonView::Number(n@),
        Json::Text(s) => JsonView::Text(s@),
        Json::List(items) => JsonView::List(items_view(items@)),
        Json::Object(members) => JsonView::Object(members_view(members@)),
    }
}

/// The mathematical values of the items of a list, in order.
pub open spec fn items_view(items: Seq<Json>) -> Seq<JsonView>
    decreases items,
{
    if items.len() == 0 {
        Seq::empty()
    } else {
        items_view(items.drop_last()).push(document_view(items.last()))
    }
}

/// The mathematical values of the members of an object, in order.
pub open spec fn members_view(members: Seq<(String, Json)>) -> Seq<(Seq<char>, JsonView)>
    decreases members,
{
    if members.len() == 0 {
        Seq::empty()
    } else {
        members_view(members.drop_last()).push(
            (members.last().0@, document_view(members.last().1)),
        )
    }
}

impl View for Json {
    type V = JsonView;

    open spec fn view(&self) -> JsonView {
        document_view(*self)
    }
}

/// The view of a list has one item for each item of the list: its view.
pub proof fn lemma_items_view(items: Seq<Json>)
    ensures
        items_view(items).len() == items.len(),
        forall|i: int| 0 <= i < items.len() ==> #[trigger] items_view(items)[i] == items[i]@,
    decreases items.len(),
{
    if items.len() > 0 {
        lemma_items_view(items.drop_last());
    }
}

/// The view of an object has one member for each member of the object: its
/// key and the view of its value.
pub proof fn lemma_members_view(members: Seq<(String, Json)>)
    ensures
        members_view(members).len() == members.len(),
        forall|i: int|
            0 <= i < members.len() ==> #[trigger] members_view(members)[i] == (
                members[i].0@,
                members[i].1@,
            ),
    decreases members.len(),
{
    if members.len() > 0 {
        lemma_members_view(members.drop_last());
    }
}

/// The first member of `members` under `key`, if there is one.
pub open spec fn member(members: Seq<(Seq<char>, JsonView)>, key: Seq<char>) -> Option<JsonView>
    decreases members.len(),
{
    if members.len() == 0 {
        None
    } else if members[0].0 == key {
        Some(members[0].1)
    } else {
        member(members.skip(1), key)
    }
}

impl JsonView {
    /// The member of an object under `key`; nothing for any other value.
    pub open spec fn get(self, key: Seq<char>) -> Option<JsonView> {
        match self {
            JsonView::Object(members) => member(members, key),
            _ => None,
        }
    }
}

/// The mathematical value of an optional reference to a document.
pub open spec fn json_view(doc: Option<&Json>) -> Option<JsonView> {
    match doc {
        Some(d) => Some(d@),
        None => None,
    }
}

impl Json {
    /// The member of an object under `key`; nothing for any other value.
    pub fn get(&self, key: &str) -> (found: Option<&Json>)
        ensures
            json_view(found) == self@.get(key@),
    {
        match self {
            Json::Object(members) => {
                let ghost all = self@->Object_0;
                proof {
                    lemma_members_view(members@);
                }
                assert(all.skip(0) == all);
                let mut i: usize = 0;
                while i < members.len()
                    invariant
                        i <= members@.len(),
                        self@ == JsonView::Object(all),
                        all.len() == members@.len(),
                        forall|j: int|
                            0 <= j < members@.len() ==> all[j] == (members[j].0@, members[j].1@),
                        member(all, key@) == member(all.skip(i as int), key@),
                    decreases members@.len() - i,
                {
                    assert(all.skip(i as int)[0] == all[i as int]);
                    assert(all.skip(i as int).skip(1) == all.skip(i + 1));
                    if same_text(members[i].0.as_str(), key) {
                        return Some(&members[i].1);
                    }
                    i += 1;
                }
                None
            },
            _ => None,
        }
    }

    /// The characters of a text; nothing for any other value.
    pub fn as_text(&self) -> (text: Option<&str>)
        ensures
            match text {
                Some(t) => self@ == JsonView::Text(t@),
                None => !(self@ is Text),
            },
    {
        match self {
            Json::Text(t) => Some(t.as_str()),
            _ => None,
        }
    }

    /// The items of a list; nothing for any other value.
    pub fn as_list(&self) -> (items: Option<&Vec<Json>>)
        ensures
            match items {
                Some(v) => self@ == JsonView::List(items_view(v@)),
                None => !(self@ is List),
            },
    {
        match self {
            Json::List(v) => Some(v),
            _ => None,
        }
    }

    /// Whether the document is `null`.
    pub fn is_null(&self) -> (null: bool)
        ensures
            null == (self@ is Null),
    {
        match self {
            Json::Null => true,
            _ => false,
        }
    }
}

/// `serde_json::Value`. What one holds is [`value_document`].
#[verifier::external_type_specification]
#[verifier::external_body]
pub struct ExJsonValue(serde_json::Value);

/// The document that a JSON text denotes; nothing where the text is no JSON
/// document. It is what `serde_json::from_str` reads.
pub uninterp spec fn json_document(text: Seq<char>) -> Option<JsonView>;

/// The document that a `serde_json::Value` holds.
pub uninterp spec fn value_document(value: serde_json::Value) -> JsonView;

/// `serde_json::from_str` at the type `serde_json::Value`: the value of the
/// text, or an error where the text is no JSON document.
#[verifier::external_body]
fn read_value(text: &str) -> (r: Result<serde_json::Value, JsonError>)
    ensures
        match r {
            Ok(value) => json_document(text@) == Some(value_document(value)),
            Err(_) => json_document(text@) is None,
        },
{
    serde_json::from_str::<serde_json::Value>(text)
}

/// Takes a `serde_json::Value` apart, variant by variant: a number becomes
/// its printed form, the members of an object come in the order of the
/// object's own iterator.
#[verifier::external_body]
fn document_of(value: serde_json::Value) -> (doc: Json)
    ensures
        doc@ == value_document(value),
{
    match value {
        serde_json::Value::Null => Json::Null,
        serde_json::Value::Bool(b) => Json::Bool(b),
        serde_json::Value::Number(n) => Json::Number(n.to_string()),
        serde_json::Value::String(s) => Json::Text(s),
        serde_json::Value::Array(items) => Json::List(items.into_iter().map(document_of).collect()),
        serde_json::Value::Object(members) => Json::Object(
            members.into_iter().map(|(key, member)| (key, document_of(member))).collect(),
        ),
    }
}

/// The document that `text` denotes, in mathematical terms; a text that is
/// no JSON document is a malformed macro.
pub open spec fn parsed(text: Seq<char>) -> Result<JsonView, ErrorKind> {
    match json_document(text) {
        Some(doc) => Ok(doc),
        None => Err(ErrorKind::MalformedMacro),
    }
}

/// Reads `text` as a JSON document.
pub fn parse(text: &str) -> (r: Result<Json, Error>)
    ensures
        match r {
            Ok(doc) => parsed(text@) == Ok::<JsonView, ErrorKind>(doc@),
            Err(e) => parsed(text@) == Err::<JsonView, ErrorKind>(e@),
        },
{
    match read_value(text) {
        Ok(value) => Ok(document_of(value)),
        Err(e) => Err(Error::from(e)),
    }
}

} // verus!
