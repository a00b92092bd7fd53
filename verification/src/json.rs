//! JSON documents as plain values.
//!
//! Text is decoded and written by `serde_json`; everything that reads or
//! builds a document works on [`Json`], whose mathematical model is
//! [`JsonView`].

use vstd::prelude::*;

verus! {

/// A decoded JSON document.
///
/// An object keeps its members as a list of key and value pairs. Of a number
/// only its value as an unsigned 64-bit integer is kept, where it has one;
/// a number without one is written as `null`.
#[derive(Debug, PartialEq, Eq)]
pub enum Json {
    Null,
    Bool(bool),
    Number(Option<u64>),
    Text(String),
    Array(Vec<Json>),
    Object(Vec<(String, Json)>),
}

/// The mathematical model of a [`Json`] document.
pub enum JsonView {
    Null,
    Bool(bool),
    Number(Option<u64>),
    Text(Seq<char>),
    Array(Seq<JsonView>),
    Object(Seq<(Seq<char>, JsonView)>),
}

/// The first value stored under `key` in a list of object members.
pub open spec fn lookup(members: Seq<(Seq<char>, JsonView)>, key: Seq<char>) -> Option<JsonView>
    decreases members.len(),
{
    if members.len() == 0 {
        None
    } else if members[0].0 == key {
        Some(members[0].1)
    } else {
        lookup(members.drop_first(), key)
    }
}

impl JsonView {
    /// The value of member `key`, where this is an object that has one.
    pub open spec fn member(self, key: Seq<char>) -> Option<JsonView> {
        match self {
            JsonView::Object(members) => lookup(members, key),
            _ => None,
        }
    }

    /// The characters of a string document.
    pub open spec fn text(self) -> Option<Seq<char>> {
        match self {
            JsonView::Text(s) => Some(s),
            _ => None,
        }
    }

    /// The value of a number that is an unsigned 64-bit integer.
    pub open spec fn unsigned(self) -> Option<u64> {
        match self {
            JsonView::Number(n) => n,
            _ => None,
        }
    }

    /// The elements of an array document.
    pub open spec fn items(self) -> Option<Seq<JsonView>> {
        match self {
            JsonView::Array(items) => Some(items),
            _ => None,
        }
    }

    /// The characters of the string stored under `key`, where there is one.
    pub open spec fn text_at(self, key: Seq<char>) -> Option<Seq<char>> {
        match self.member(key) {
            Some(value) => value.text(),
            None => None,
        }
    }

    /// The unsigned integer stored under `key`, where there is one.
    pub open spec fn unsigned_at(self, key: Seq<char>) -> Option<u64> {
        match self.member(key) {
            Some(value) => value.unsigned(),
            None => None,
        }
    }

    /// The elements of the array stored under `key`, where there is one.
    pub open spec fn items_at(self, key: Seq<char>) -> Option<Seq<JsonView>> {
        match self.member(key) {
            Some(value) => value.items(),
            None => None,
        }
    }
}

/// The model of a document: the same tree, with each string as its
/// characters and each list as a sequence.
pub open spec fn model(json: Json) -> JsonView
    decreases json,
{
    match json {
        Json::Null => JsonView::Null,
        Json::Bool(b) => JsonView::Bool(b),
        Json::Number(n) => JsonView::Number(n),
        Json::Text(s) => JsonView::Text(s@),
        Json::Array(items) => JsonView::Array(
            Seq::new(
                items.len() as nat,
                |i: int|
                    if 0 <= i < items.len() {
                        model(items[i])
                    } else {
                        JsonView::Null
                    },
            ),
        ),
        Json::Object(members) => JsonView::Object(
            Seq::new(
                members.len() as nat,
                |i: int|
                    if 0 <= i < members.len() {
                        (members[i].0@, model(members[i].1))
                    } else {
                        (Seq::empty(), JsonView::Null)
                    },
            ),
        ),
    }
}

impl View for Json {
    type V = JsonView;

    open spec fn view(&self) -> JsonView {
        model(*self)
    }
}

/// The model of an optional document.
pub open spec fn view_of(doc: Option<Json>) -> Option<JsonView> {
    match doc {
        Some(json) => Some(json@),
        None => None,
    }
}

/// The model of an optional borrowed document.
pub open spec fn view_of_ref(doc: Option<&Json>) -> Option<JsonView> {
    match doc {
        Some(json) => Some(json@),
        None => None,
    }
}

/// The models of a list of documents, in order.
pub open spec fn views(items: Seq<Json>) -> Seq<JsonView> {
    Seq::new(items.len(), |i: int| items[i]@)
}

/// The models of a list of object members, in order.
pub open spec fn member_views(members: Seq<(String, Json)>) -> Seq<(Seq<char>, JsonView)> {
    Seq::new(members.len(), |i: int| (members[i].0@, members[i].1@))
}

/// A member whose value is a string.
pub open spec fn text_member(key: Seq<char>, value: Seq<char>) -> (Seq<char>, JsonView) {
    (key, JsonView::Text(value))
}

/// The document that a text decodes to, or `None` where the text is not one
/// JSON document. What `serde_json` makes of a text depends on the text alone.
pub uninterp spec fn decoded(text: Seq<char>) -> Option<JsonView>;

/// The text that a document is written as. What `serde_json` writes for a
/// document depends on the document alone.
pub uninterp spec fn rendered(document: JsonView) -> Seq<char>;

/// `serde_json::Value`, of which nothing is known here: it is only handed
/// between `serde_json` and the functions that copy it.
#[verifier::external_type_specification]
#[verifier::external_body]
pub struct ExValue(serde_json::Value);

/// Copies a `serde_json::Value` into a [`Json`], variant by variant. A number
/// is carried over as `serde_json::Number::as_u64` gives it, an object's
/// members in the order in which `serde_json::Map::iter` walks them.
#[verifier::external_body]
fn lift(value: &serde_json::Value) -> Json {
    match value {
        serde_json::Value::Null => Json::Null,
        serde_json::Value::Bool(b) => Json::Bool(*b),
        serde_json::Value::Number(n) => Json::Number(n.as_u64()),
        serde_json::Value::String(s) => Json::Text(s.clone()),
        serde_json::Value::Array(items) => Json::Array(items.iter().map(lift).collect()),
        serde_json::Value::Object(members) => Json::Object(
            members.iter().map(|(key, item)| (key.clone(), lift(item))).collect(),
        ),
    }
}

/// Decodes a text with `serde_json::from_str` and copies what comes out.
/// The contract claims only that the outcome is a function of the text: it
/// gives that function the name [`decoded`]. A text that `serde_json` rejects
/// gives `None`.
#[verifier::external_body]
fn decode(text: &str) -> (doc: Option<Json>)
    ensures
        view_of(doc) == decoded(text@),
{
    match serde_json::from_str::<serde_json::Value>(text) {
        Ok(value) => Some(lift(&value)),
        Err(_) => None,
    }
}

/// Copies a [`Json`] into a `serde_json::Value`, variant by variant. A
/// number goes through `serde_json::Number::from`, and one whose value was
/// not kept becomes `null`; an object's members are collected into a
/// `serde_json::Map`.
#[verifier::external_body]
fn lower(json: &Json) -> serde_json::Value {
    match json {
        Json::Null => serde_json::Value::Null,
        Json::Bool(b) => serde_json::Value::Bool(*b),
        Json::Number(Some(n)) => serde_json::Value::Number(serde_json::Number::from(*n)),
        Json::Number(None) => serde_json::Value::Null,
        Json::Text(s) => serde_json::Value::String(s.clone()),
        Json::Array(items) => serde_json::Value::Array(items.iter().map(lower).collect()),
        Json::Object(members) => serde_json::Value::Object(
            members.iter().map(|(key, item)| (key.clone(), lower(item))).collect(),
        ),
    }
}

/// Writes a document with `serde_json::to_string`, after copying it. The
/// contract claims only that the text is a function of the document: it
/// gives that function the name [`rendered`]. The error that
/// `serde_json::to_string` can return gives the empty text.
#[verifier::external_body]
fn render(json: &Json) -> (text: String)
    ensures
        text@ == rendered(json@),
{
    match serde_json::to_string(&lower(json)) {
        Ok(text) => text,
        Err(_) => String::new(),
    }
}

impl Json {
    /// A string document.
    pub fn text(value: &str) -> (json: Json)
        ensures
            json@ == JsonView::Text(value@),
    {
        Json::Text(String::from_str(value))
    }

    /// A number document.
    pub fn number(value: u64) -> (json: Json)
        ensures
            json@ == JsonView::Number(Some(value)),
    {
        Json::Number(Some(value))
    }

    /// An array document with these elements.
    pub fn array(items: Vec<Json>) -> (json: Json)
        ensures
            json@ == JsonView::Array(views(items@)),
    {
        proof {
            Self::lemma_array_view(items);
        }
        Json::Array(items)
    }

    /// An object document with these members.
    pub fn object(members: Vec<(String, Json)>) -> (json: Json)
        ensures
            json@ == JsonView::Object(member_views(members@)),
    {
        proof {
            Self::lemma_object_view(members);
            assert(Json::Object(members)@->Object_0 =~= member_views(members@));
        }
        Json::Object(members)
    }

    /// A member whose value is a string.
    pub fn text_member(key: &str, value: &str) -> (member: (String, Json))
        ensures
            (member.0@, member.1@) == text_member(key@, value@),
    {
        (String::from_str(key), Json::text(value))
    }

    /// Writes the document as JSON text.
    pub fn render(&self) -> (text: String)
        ensures
            text@ == rendered(self@),
    {
        render(self)
    }

    /// Decodes one JSON document from `text`.
    pub fn parse(text: &str) -> (doc: Option<Json>)
        ensures
            view_of(doc) == decoded(text@),
    {
        decode(text)
    }

    proof fn lemma_object_view(members: Vec<(String, Json)>)
        ensures
            Json::Object(members)@ matches JsonView::Object(m) && m.len() == members.len()
                && forall|i: int|
                0 <= i < members.len() ==> #[trigger] m[i] == (members[i].0@, members[i].1@),
    {
    }

    proof fn lemma_array_view(items: Vec<Json>)
        ensures
            Json::Array(items)@ == JsonView::Array(views(items@)),
    {
        assert(Json::Array(items)@->Array_0 =~= views(items@));
    }

    /// The value of member `key`: the first one stored under that key, and
    /// `None` where there is none or this is no object.
    pub fn get(&self, key: &str) -> (found: Option<&Json>)
        ensures
            view_of_ref(found) == self@.member(key@),
    {
        match self {
            Json::Object(members) => {
                let wanted = String::from_str(key);
                let ghost pairs = self@->Object_0;
                proof {
                    Self::lemma_object_view(*members);
                    assert(pairs.skip(0) =~= pairs);
                }
                let mut i: usize = 0;
                while i < members.len()
                    invariant
                        i <= members.len(),
                        wanted@ == key@,
                        self@ == JsonView::Object(pairs),
                        pairs.len() == members.len(),
                        forall|j: int|
                            0 <= j < members.len() ==> #[trigger] pairs[j] == (
                                members[j].0@,
                                members[j].1@,
                            ),
                        lookup(pairs, key@) == lookup(pairs.skip(i as int), key@),
                    decreases members.len() - i,
                {
                    proof {
                        let rest = pairs.skip(i as int);
                        assert(rest.drop_first() =~= pairs.skip(i + 1));
                    }
                    if members[i].0 == wanted {
                        return Some(&members[i].1);
                    }
                    i += 1;
                }
                None
            },
            _ => None,
        }
    }

    /// The characters of a string document, and `None` of any other.
    pub fn as_text(&self) -> (text: Option<&String>)
        ensures
            match text {
                Some(s) => self@.text() == Some(s@),
                None => self@.text() is None,
            },
    {
        match self {
            Json::Text(s) => Some(s),
            _ => None,
        }
    }

    /// The value of a number that is an unsigned 64-bit integer, and `None`
    /// of any other document.
    pub fn as_u64(&self) -> (value: Option<u64>)
        ensures
            value == self@.unsigned(),
    {
        match self {
            Json::Number(n) => *n,
            _ => None,
        }
    }

    /// The elements of an array document, handed over, and `None` of any
    /// other document.
    pub fn into_array(self) -> (items: Option<Vec<Json>>)
        ensures
            match items {
                Some(list) => self@.items() == Some(views(list@)),
                None => self@.items() is None,
            },
    {
        match self {
            Json::Array(items) => {
                proof {
                    Self::lemma_array_view(items);
                }
                Some(items)
            },
            _ => None,
        }
    }

    /// The elements of an array document, and `None` of any other.
    pub fn as_array(&self) -> (items: Option<&Vec<Json>>)
        ensures
            match items {
                Some(list) => self@.items() == Some(views(list@)),
                None => self@.items() is None,
            },
    {
        match self {
            Json::Array(items) => {
                proof {
                    Self::lemma_array_view(*items);
                }
                Some(items)
            },
            _ => None,
        }
    }
}

} // verus!
