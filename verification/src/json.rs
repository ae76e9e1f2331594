//! JSON documents as plain trees, and the reading of record fields out of
//! them. `serde_json` reads and writes the JSON text; which members a record
//! has, and what each of them may hold, is decided here.

use crate::docker::errors::JsonError;
use serde_json::Value;
use vstd::prelude::*;
use vstd::string::StringExecFns;

verus! {

/// `serde_json::Error`, of which nothing is looked at.
#[verifier::external_type_specification]
#[verifier::external_body]
pub struct ExSyntaxError(serde_json::Error);

/// `serde_json::Value`, which is only handed from `serde_json` to the
/// functions that move it into a [`Json`] and back.
#[verifier::external_type_specification]
#[verifier::external_body]
pub struct ExValue(serde_json::Value);

/// One `"key": value` entry of a JSON object.
#[derive(Debug)]
pub struct Member {
    pub key: String,
    pub value: Json,
}

/// A JSON document.
#[derive(Debug)]
pub enum Json {
    Null,
    Bool(bool),
    /// A non-negative integer.
    PosInt(u64),
    /// A negative integer.
    NegInt(i64),
    /// A number that is not an integer, as its decimal text.
    Real(String),
    Text(String),
    Array(Vec<Json>),
    /// The members in the order in which they stand.
    Object(Vec<Member>),
}

/// A JSON document as a mathematical value.
pub enum JsonView {
    Null,
    Bool(bool),
    PosInt(u64),
    NegInt(i64),
    Real(Seq<char>),
    Text(Seq<char>),
    Array(Seq<JsonView>),
    Object(Seq<(Seq<char>, JsonView)>),
}

/// The mathematical value of a document.
pub open spec fn view_of(json: Json) -> JsonView
    decreases json,
{
    match json {
        Json::Null => JsonView::Null,
        Json::Bool(b) => JsonView::Bool(b),
        Json::PosInt(n) => JsonView::PosInt(n),
        Json::NegInt(n) => JsonView::NegInt(n),
        Json::Real(text) => JsonView::Real(text@),
        Json::Text(text) => JsonView::Text(text@),
        Json::Array(items) => JsonView::Array(
            Seq::new(
                items@.len(),
                |i: int|
                    if 0 <= i < items@.len() {
                        view_of(items@[i])
                    } else {
                        JsonView::Null
                    },
            ),
        ),
        Json::Object(members) => JsonView::Object(
            Seq::new(
                members@.len(),
                |i: int|
                    if 0 <= i < members@.len() {
                        (members@[i].key@, view_of(members@[i].value))
                    } else {
                        (Seq::empty(), JsonView::Null)
                    },
            ),
        ),
    }
}

impl View for Json {
    type V = JsonView;

    open spec fn view(&self) -> JsonView {
        view_of(*self)
    }
}

impl DeepView for Json {
    type V = JsonView;

    open spec fn deep_view(&self) -> JsonView {
        self.view()
    }
}

/// The members of an object as mathematical values.
pub open spec fn members_view(members: Seq<Member>) -> Seq<(Seq<char>, JsonView)> {
    Seq::new(members.len(), |i: int| (members[i].key@, members[i].value@))
}

/// The items of an array as mathematical values.
pub open spec fn items_view(items: Seq<Json>) -> Seq<JsonView> {
    Seq::new(items.len(), |i: int| items[i]@)
}

/// An array's view is the views of its items.
pub proof fn lemma_array_view(items: Vec<Json>)
    ensures
        Json::Array(items)@ == JsonView::Array(items_view(items@)),
{
    assert(Json::Array(items)@->Array_0 =~= items_view(items@));
}

/// An object's view is the views of its members.
pub proof fn lemma_object_view(members: Vec<Member>)
    ensures
        Json::Object(members)@ == JsonView::Object(members_view(members@)),
{
    assert(Json::Object(members)@->Object_0 =~= members_view(members@));
}

// ---------------------------------------------------------------------------
// JSON text
// ---------------------------------------------------------------------------
/// The document that `serde_json` reads from a text, `None` where it
/// rejects the text.
pub uninterp spec fn json_document(text: Seq<char>) -> Option<JsonView>;

/// The text that `serde_json` writes for a document, `None` where it
/// writes none.
pub uninterp spec fn json_text(document: JsonView) -> Option<Seq<char>>;

/// Moves a `serde_json::Value` into a [`Json`], variant by variant. A number
/// comes as `serde_json` holds it: unsigned, negative, or neither, and then
/// as the text that `serde_json` prints for it.
#[verifier::external_body]
fn json_from_value(value: Value) -> Json {
    match value {
        Value::Null => Json::Null,
        Value::Bool(b) => Json::Bool(b),
        Value::Number(n) => match (n.as_u64(), n.as_i64()) {
            (Some(u), _) => Json::PosInt(u),
            (None, Some(i)) => Json::NegInt(i),
            (None, None) => Json::Real(n.to_string()),
        },
        Value::String(s) => Json::Text(s),
        Value::Array(a) => Json::Array(a.into_iter().map(json_from_value).collect()),
        Value::Object(m) => Json::Object(
            m.into_iter().map(|(key, v)| Member { key, value: json_from_value(v) }).collect(),
        ),
    }
}

/// Moves a [`Json`] into a `serde_json::Value`, variant by variant. The text
/// of a [`Json::Real`] goes through `serde_json::from_str`, which may refuse it.
#[verifier::external_body]
fn value_from_json(json: &Json) -> Result<Value, serde_json::Error> {
    Ok(match json {
        Json::Null => Value::Null,
        Json::Bool(b) => Value::Bool(*b),
        Json::PosInt(n) => Value::from(*n),
        Json::NegInt(n) => Value::from(*n),
        Json::Real(text) => serde_json::from_str(text)?,
        Json::Text(text) => Value::String(text.clone()),
        Json::Array(a) => Value::Array(a.iter().map(value_from_json).collect::<Result<_, _>>()?),
        Json::Object(m) => Value::Object(
            m.iter().map(|e| Ok((e.key.clone(), value_from_json(&e.value)?))).collect::<Result<_, serde_json::Error>>()?,
        ),
    })
}

/// `serde_json::from_str` at `serde_json::Value`: one text always reads as
/// the same document, or is always rejected.
#[verifier::external_body]
fn read_document(text: &str) -> (r: Result<Json, serde_json::Error>)
    ensures
        match r {
            Ok(document) => json_document(text@) == Some(document@),
            Err(_) => json_document(text@) is None,
        },
{
    serde_json::from_str::<Value>(text).map(json_from_value)
}

/// `serde_json::to_string` at `serde_json::Value`: one document is always
/// written as the same text, or never written.
#[verifier::external_body]
fn write_document(document: &Json) -> (r: Result<String, serde_json::Error>)
    ensures
        match r {
            Ok(text) => json_text(document@) == Some(text@),
            Err(_) => json_text(document@) is None,
        },
{
    serde_json::to_string(&value_from_json(document)?)
}

/// Reads a JSON text.
pub fn parse(text: &str) -> (r: Result<Json, JsonError>)
    ensures
        match r {
            Ok(document) => json_document(text@) == Some(document@),
            Err(e) => json_document(text@) is None && e is Syntax,
        },
{
    match read_document(text) {
        Ok(document) => Ok(document),
        Err(e) => Err(JsonError::Syntax(e)),
    }
}

/// Writes a document as JSON text.
pub fn render(document: &Json) -> (r: Result<String, JsonError>)
    ensures
        match r {
            Ok(text) => json_text(document@) == Some(text@),
            Err(e) => json_text(document@) is None && e is Syntax,
        },
{
    match write_document(document) {
        Ok(text) => Ok(text),
        Err(e) => Err(JsonError::Syntax(e)),
    }
}

// ---------------------------------------------------------------------------
// Members of an object
// ---------------------------------------------------------------------------
/// The value of the first member called `key`.
pub open spec fn lookup(members: Seq<(Seq<char>, JsonView)>, key: Seq<char>) -> Option<JsonView>
    decreases members.len(),
{
    if members.len() == 0 {
        None
    } else if members[0].0 == key {
        Some(members[0].1)
    } else {
        lookup(members.drop_first(), key)
    }
}

/// `lookup` finds the member at `at` where no member before it has the key.
pub proof fn lemma_lookup_found(members: Seq<(Seq<char>, JsonView)>, key: Seq<char>, at: int)
    requires
        0 <= at < members.len(),
        members[at].0 == key,
        forall|k: int| 0 <= k < at ==> (#[trigger] members[k]).0 != key,
    ensures
        lookup(members, key) == Some(members[at].1),
    decreases at,
{
    if at > 0 {
        assert(members[0].0 != key);
        let rest = members.drop_first();
        assert forall|k: int| 0 <= k < at - 1 implies (#[trigger] rest[k]).0 != key by {
            assert(rest[k] == members[k + 1]);
        }
        lemma_lookup_found(rest, key, at - 1);
    }
}

/// `lookup` finds nothing where no member has the key.
pub proof fn lemma_lookup_missing(members: Seq<(Seq<char>, JsonView)>, key: Seq<char>)
    requires
        forall|k: int| 0 <= k < members.len() ==> (#[trigger] members[k]).0 != key,
    ensures
        lookup(members, key) is None,
    decreases members.len(),
{
    if members.len() > 0 {
        assert(members[0].0 != key);
        let rest = members.drop_first();
        assert forall|k: int| 0 <= k < rest.len() implies (#[trigger] rest[k]).0 != key by {
            assert(rest[k] == members[k + 1]);
        }
        lemma_lookup_missing(rest, key);
    }
}

/// Finds the first member called `key`.
pub fn find<'a>(members: &'a Vec<Member>, key: &str) -> (r: Option<&'a Json>)
    ensures
        match r {
            Some(value) => lookup(members_view(members@), key@) == Some(value@),
            None => lookup(members_view(members@), key@) is None,
        },
{
    let wanted = String::from_str(key);
    let ghost view = members_view(members@);
    let mut i: usize = 0;
    while i < members.len()
        invariant
            i <= members@.len(),
            wanted@ == key@,
            view == members_view(members@),
            forall|k: int| 0 <= k < i ==> (#[trigger] view[k]).0 != key@,
        decreases members@.len() - i,
    {
        if members[i].key == wanted {
            proof {
                lemma_lookup_found(view, key@, i as int);
            }
            return Some(&members[i].value);
        }
        i = i + 1;
    }
    proof {
        lemma_lookup_missing(view, key@);
    }
    None
}

} // verus!
