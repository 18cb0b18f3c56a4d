//! JSON documents, as far as the registry reads and writes them: the
//! lists of names that rows keep as text, the schema definitions from
//! which table names are taken, and the payload of a notification.
//!
//! Reading and writing JSON text is the work of `serde_json`; what is
//! done with a document once it is read is verified here.

use vstd::prelude::*;
use crate::error::{ErrorKind, RegistryError};
use crate::query::{first_match, lemma_first_is, lemma_first_none};
use crate::text::{same_text, texts};

verus! {

/// A JSON document. The members of an object have distinct names.
#[derive(Debug)]
pub enum JsonValue {
    Null,
    Bool(bool),
    /// A number, in its decimal notation.
    Number(String),
    Text(String),
    Array(Vec<JsonValue>),
    Object(Vec<JsonMember>),
}

/// A member of a JSON object.
#[derive(Debug)]
pub struct JsonMember {
    pub name: String,
    pub value: JsonValue,
}

/// What a JSON document holds.
pub enum JsonDoc {
    Null,
    Bool(bool),
    Number(Seq<char>),
    Text(Seq<char>),
    Array(Seq<JsonDoc>),
    Object(Seq<JsonEntry>),
}

/// What a member of a JSON object holds.
pub struct JsonEntry {
    pub name: Seq<char>,
    pub value: JsonDoc,
}

impl View for JsonValue {
    type V = JsonDoc;

    open spec fn view(&self) -> JsonDoc
        decreases self,
    {
        match self {
            JsonValue::Null => JsonDoc::Null,
            JsonValue::Bool(b) => JsonDoc::Bool(*b),
            JsonValue::Number(n) => JsonDoc::Number(n@),
            JsonValue::Text(s) => JsonDoc::Text(s@),
            JsonValue::Array(items) => JsonDoc::Array(
                Seq::new(
                    items@.len(),
                    |i: int|
                        if 0 <= i < items@.len() {
                            items@[i].view()
                        } else {
                            JsonDoc::Null
                        },
                ),
            ),
            JsonValue::Object(members) => JsonDoc::Object(
                Seq::new(
                    members@.len(),
                    |i: int|
                        if 0 <= i < members@.len() {
                            JsonEntry { name: members@[i].name@, value: members@[i].value.view() }
                        } else {
                            JsonEntry { name: Seq::empty(), value: JsonDoc::Null }
                        },
                ),
            ),
        }
    }
}

/// A JSON document of `serde_json`.
#[verifier::external_type_specification]
#[verifier::external_body]
pub struct ExValue(serde_json::Value);

/// What a document of `serde_json` holds.
pub uninterp spec fn json_doc(value: serde_json::Value) -> JsonDoc;

/// The document that a text is the JSON notation of, if it is one.
pub uninterp spec fn json_parsed(text: Seq<char>) -> Option<JsonDoc>;

/// The list of strings that a text is the JSON notation of, if it is one:
/// a JSON array whose elements are all strings.
pub uninterp spec fn json_list_of_text(text: Seq<char>) -> Option<Seq<Seq<char>>>;

/// The JSON notation of a list of strings.
pub uninterp spec fn json_text_of_list(items: Seq<Seq<char>>) -> Seq<char>;

/// The JSON notation of an object whose members are strings, given as
/// pairs of a name and a value.
pub uninterp spec fn json_text_of_object(members: Seq<(Seq<char>, Seq<char>)>) -> Seq<char>;

/// The names and values of a list of pairs of strings.
pub open spec fn text_pairs(v: Seq<(String, String)>) -> Seq<(Seq<char>, Seq<char>)> {
    Seq::new(v.len(), |i: int| (v[i].0@, v[i].1@))
}

/// `serde_json::from_str` at the type `serde_json::Value`. Whether a text
/// is JSON, and which document it denotes, depends on the text alone.
#[verifier::external_body]
fn read_value(text: &str) -> (r: Option<serde_json::Value>)
    ensures
        match r {
            Some(v) => json_parsed(text@) == Some(json_doc(v)),
            None => json_parsed(text@) is None,
        },
{
    serde_json::from_str::<serde_json::Value>(text).ok()
}

/// Moves a document of `serde_json` into a `JsonValue`, variant by
/// variant: the members of an object come in the order in which its map
/// yields them, a number as `Number::to_string` writes it.
#[verifier::external_body]
fn own_value(value: serde_json::Value) -> (r: JsonValue)
    ensures
        r@ == json_doc(value),
{
    match value {
        serde_json::Value::Null => JsonValue::Null,
        serde_json::Value::Bool(b) => JsonValue::Bool(b),
        serde_json::Value::Number(n) => JsonValue::Number(n.to_string()),
        serde_json::Value::String(s) => JsonValue::Text(s),
        serde_json::Value::Array(a) => JsonValue::Array(a.into_iter().map(own_value).collect()),
        serde_json::Value::Object(m) => JsonValue::Object(
            m.into_iter().map(|(k, v)| JsonMember { name: k, value: own_value(v) }).collect(),
        ),
    }
}

/// `serde_json::to_string` on a list of strings, which cannot fail. It is
/// taken on trust that the text depends on the list alone, and that
/// reading it gives the list back.
#[verifier::external_body]
pub(crate) fn encode_list(items: &Vec<String>) -> (r: String)
    ensures
        r@ == json_text_of_list(texts(items@)),
        json_list_of_text(r@) == Some(texts(items@)),
{
    serde_json::to_string(items).unwrap()
}

/// `serde_json::from_str` at the type `Vec<String>`.
#[verifier::external_body]
pub(crate) fn decode_list(text: &str) -> (r: Option<Vec<String>>)
    ensures
        match r {
            Some(items) => json_list_of_text(text@) == Some(texts(items@)),
            None => json_list_of_text(text@) is None,
        },
{
    serde_json::from_str::<Vec<String>>(text).ok()
}

/// `serde_json::to_string` on an object that is made of the given members,
/// each a string. It cannot fail.
#[verifier::external_body]
pub(crate) fn encode_object(members: &Vec<(String, String)>) -> (r: String)
    ensures
        r@ == json_text_of_object(text_pairs(members@)),
{
    let map: serde_json::Map<String, serde_json::Value> = members.iter().map(
        |m| (m.0.clone(), serde_json::Value::String(m.1.clone())),
    ).collect();
    serde_json::to_string(&serde_json::Value::Object(map)).unwrap()
}

/// Reads a JSON text.
pub fn parse_json(text: &str) -> (r: Option<JsonValue>)
    ensures
        match r {
            Some(doc) => json_parsed(text@) == Some(doc@),
            None => json_parsed(text@) is None,
        },
{
    match read_value(text) {
        Some(v) => Some(own_value(v)),
        None => None,
    }
}

/// The condition that a member of an object has the given name.
pub open spec fn member_named(name: Seq<char>) -> spec_fn(JsonEntry) -> bool {
    |m: JsonEntry| m.name == name
}

/// The member of the given name, where the document is an object that has
/// one.
pub open spec fn member_of(doc: JsonDoc, name: Seq<char>) -> Option<JsonDoc> {
    match doc {
        JsonDoc::Object(members) => match first_match(members, member_named(name)) {
            Some(i) => Some(members[i].value),
            None => None,
        },
        _ => None,
    }
}

/// The table that an element of a schema definition names: the string
/// under `name` in the object under `data`, where the element has that
/// shape.
pub open spec fn table_name_of(element: JsonDoc) -> Option<Seq<char>> {
    match member_of(element, "data"@) {
        Some(data) => match member_of(data, "name"@) {
            Some(JsonDoc::Text(name)) => Some(name),
            _ => None,
        },
        None => None,
    }
}

/// The tables that the elements name, in the order of the elements;
/// elements that name none are passed over.
pub open spec fn table_names_in(elements: Seq<JsonDoc>) -> Seq<Seq<char>>
    decreases elements.len(),
{
    if elements.len() == 0 {
        Seq::empty()
    } else {
        let before = table_names_in(elements.drop_last());
        match table_name_of(elements.last()) {
            Some(name) => before.push(name),
            None => before,
        }
    }
}

/// The tables that a schema definition names: those of its elements where
/// it is an array, none where it is anything else.
pub open spec fn table_names_of(doc: JsonDoc) -> Seq<Seq<char>> {
    match doc {
        JsonDoc::Array(elements) => table_names_in(elements),
        _ => Seq::empty(),
    }
}

/// The tables that a stored schema definition names, where the text is
/// JSON.
pub open spec fn tables_of_text(data: Seq<char>) -> Option<Seq<Seq<char>>> {
    match json_parsed(data) {
        Some(doc) => Some(table_names_of(doc)),
        None => None,
    }
}

impl JsonValue {
    /// The member of the given name, where this is an object that has one.
    pub fn member(&self, name: &str) -> (r: Option<&JsonValue>)
        ensures
            match r {
                Some(v) => member_of(self@, name@) == Some(v@),
                None => member_of(self@, name@) is None,
            },
    {
        match self {
            JsonValue::Object(members) => {
                let ghost p = member_named(name@);
                let ghost docs = self@->Object_0;
                let mut i: usize = 0;
                while i < members.len()
                    invariant
                        i <= members.len(),
                        p == member_named(name@),
                        self@ == JsonDoc::Object(docs),
                        docs.len() == members@.len(),
                        forall|j: int|
                            0 <= j < members@.len() ==> (#[trigger] docs[j]).name
                                == members@[j].name@ && docs[j].value == members@[j].value@,
                        forall|j: int| 0 <= j < i ==> !p(#[trigger] docs[j]),
                    decreases members.len() - i,
                {
                    if same_text(members[i].name.as_str(), name) {
                        proof {
                            assert(p(docs[i as int]));
                            lemma_first_is(docs, p, i as int);
                        }
                        return Some(&members[i].value);
                    }
                    i += 1;
                }
                proof {
                    lemma_first_none(docs, p);
                }
                None
            },
            _ => None,
        }
    }

    /// The table that this element of a schema definition names.
    pub fn table_name(&self) -> (r: Option<String>)
        ensures
            match r {
                Some(name) => table_name_of(self@) == Some(name@),
                None => table_name_of(self@) is None,
            },
    {
        match self.member("data") {
            Some(data) => match data.member("name") {
                Some(JsonValue::Text(name)) => Some(name.clone()),
                _ => None,
            },
            None => None,
        }
    }

    /// The tables that this schema definition names.
    pub fn table_names(&self) -> (names: Vec<String>)
        ensures
            texts(names@) == table_names_of(self@),
    {
        let mut names: Vec<String> = Vec::new();
        match self {
            JsonValue::Array(elements) => {
                let ghost docs = self@->Array_0;
                let mut i: usize = 0;
                assert(docs.subrange(0, 0) =~= Seq::<JsonDoc>::empty());
                assert(texts(names@) =~= Seq::<Seq<char>>::empty());
                while i < elements.len()
                    invariant
                        i <= elements.len(),
                        docs.len() == elements@.len(),
                        forall|j: int|
                            0 <= j < elements@.len() ==> #[trigger] docs[j] == elements@[j]@,
                        texts(names@) == table_names_in(docs.subrange(0, i as int)),
                    decreases elements.len() - i,
                {
                    let ghost before = names@;
                    proof {
                        let upto = docs.subrange(0, i + 1);
                        assert(upto.drop_last() =~= docs.subrange(0, i as int));
                        assert(upto.last() == elements@[i as int]@);
                    }
                    match elements[i].table_name() {
                        Some(name) => {
                            names.push(name);
                            assert(texts(names@) =~= texts(before).push(name@));
                        },
                        None => {},
                    }
                    i += 1;
                }
                assert(docs.subrange(0, i as int) =~= docs);
            },
            _ => {
                assert(texts(names@) =~= Seq::<Seq<char>>::empty());
            },
        }
        names
    }
}

/// The tables that a stored schema definition names. A text that is not
/// JSON is a malformed definition.
pub fn tables_of_data(data: &str) -> (r: Result<Vec<String>, RegistryError>)
    ensures
        match r {
            Ok(names) => tables_of_text(data@) == Some(texts(names@)),
            Err(e) => tables_of_text(data@) is None && e.kind == ErrorKind::Validation,
        },
{
    match parse_json(data) {
        Some(doc) => Ok(doc.table_names()),
        None => Err(RegistryError::new(ErrorKind::Validation, "the schema data is not valid JSON")),
    }
}

/// The list of names that a row keeps as JSON text. A text that is not a
/// JSON array of strings is a malformed list.
pub fn names_of_json(text: &str) -> (r: Result<Vec<String>, RegistryError>)
    ensures
        match r {
            Ok(names) => json_list_of_text(text@) == Some(texts(names@)),
            Err(e) => json_list_of_text(text@) is None && e.kind == ErrorKind::Validation,
        },
{
    match decode_list(text) {
        Some(names) => Ok(names),
        None => Err(
            RegistryError::new(ErrorKind::Validation, "the stored list is not a JSON array of strings"),
        ),
    }
}

} // verus!
