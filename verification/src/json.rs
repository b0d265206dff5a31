//! A generic structured document: the untyped shape every event payload has
//! after parsing and before category-specific decoding.
//!
//! `Json` is the executable document; `JVal` is its mathematical model, with
//! text as `Seq<char>` and numbers as `int`, so that decoding contracts can
//! be stated purely over values.

use vstd::prelude::*;
use vstd::string::StrSliceExecFns;

verus! {

/// One node of a parsed structured document.
///
/// Numbers that do not fit a signed 64-bit integer (the only numeric shape
/// this protocol uses) are kept as `BadNum`, so that a payload carrying one
/// still parses and the schema layer can reject the field it sits in.
#[derive(Debug, PartialEq)]
pub enum Json {
    Null,
    Bool(bool),
    Int(i64),
    BadNum,
    Str(String),
    Arr(Vec<Json>),
    Obj(Vec<(String, Json)>),
}

/// The mathematical model of a document node.
pub ghost enum JVal {
    Null,
    Bool(bool),
    Int(int),
    BadNum,
    Str(Seq<char>),
    Arr(Seq<JVal>),
    Obj(Seq<(Seq<char>, JVal)>),
}

pub open spec fn jval_of(j: Json) -> JVal
    decreases j,
{
    match j {
        Json::Null => JVal::Null,
        Json::Bool(b) => JVal::Bool(b),
        Json::Int(i) => JVal::Int(i as int),
        Json::BadNum => JVal::BadNum,
        Json::Str(s) => JVal::Str(s@),
        Json::Arr(items) => JVal::Arr(jvals_of(items@)),
        Json::Obj(entries) => JVal::Obj(jentries_of(entries@)),
    }
}

pub open spec fn jvals_of(items: Seq<Json>) -> Seq<JVal>
    decreases items,
{
    if items.len() == 0 {
        Seq::empty()
    } else {
        seq![jval_of(items[0])] + jvals_of(items.skip(1))
    }
}

pub open spec fn jentries_of(entries: Seq<(String, Json)>) -> Seq<(Seq<char>, JVal)>
    decreases entries,
{
    if entries.len() == 0 {
        Seq::empty()
    } else {
        seq![(entries[0].0@, jval_of(entries[0].1))] + jentries_of(entries.skip(1))
    }
}

impl View for Json {
    type V = JVal;

    open spec fn view(&self) -> JVal {
        jval_of(*self)
    }
}

pub proof fn lemma_jvals_of_index(items: Seq<Json>)
    ensures
        jvals_of(items).len() == items.len(),
        forall|i: int| 0 <= i < items.len() ==> jvals_of(items)[i] == jval_of(items[i]),
    decreases items,
{
    if items.len() > 0 {
        lemma_jvals_of_index(items.skip(1));
    }
}

pub proof fn lemma_jentries_of_index(entries: Seq<(String, Json)>)
    ensures
        jentries_of(entries).len() == entries.len(),
        forall|i: int| 0 <= i < entries.len()
            ==> jentries_of(entries)[i] == (entries[i].0@, jval_of(entries[i].1)),
    decreases entries,
{
    if entries.len() > 0 {
        lemma_jentries_of_index(entries.skip(1));
    }
}

/// The value of the first entry whose key is `key`, if any.
pub open spec fn obj_get(entries: Seq<(Seq<char>, JVal)>, key: Seq<char>) -> Option<JVal>
    decreases entries.len(),
{
    if entries.len() == 0 {
        None
    } else if entries[0].0 == key {
        Some(entries[0].1)
    } else {
        obj_get(entries.skip(1), key)
    }
}

proof fn lemma_obj_get_skip(entries: Seq<(Seq<char>, JVal)>, key: Seq<char>, i: int)
    requires
        0 <= i <= entries.len(),
        forall|j: int| 0 <= j < i ==> entries[j].0 != key,
    ensures
        obj_get(entries, key) == obj_get(entries.skip(i), key),
    decreases i,
{
    if i > 0 {
        assert(entries[0].0 != key);
        assert forall|j: int| 0 <= j < i - 1 implies entries.skip(1)[j].0 != key by {
            assert(entries.skip(1)[j] == entries[j + 1]);
        }
        lemma_obj_get_skip(entries.skip(1), key, i - 1);
        assert(entries.skip(1).skip(i - 1) =~= entries.skip(i));
    } else {
        assert(entries.skip(0) =~= entries);
    }
}

#[verifier::external_type_specification]
#[verifier::external_body]
pub struct ExValue(serde_json::Value);

/// What parsing a payload text yields: the document model when the text is
/// valid structured data, nothing otherwise.  The result is a function of
/// the text alone.
pub uninterp spec fn parsed_doc(s: Seq<char>) -> Option<JVal>;

/// The document model held by an already-parsed outside value.
pub uninterp spec fn value_model(v: serde_json::Value) -> JVal;

/// A lookup lands on the first entry carrying the key.
pub proof fn lemma_obj_get_at(entries: Seq<(Seq<char>, JVal)>, key: Seq<char>, i: int)
    requires
        0 <= i < entries.len(),
        entries[i].0 == key,
        forall|j: int| 0 <= j < i ==> entries[j].0 != key,
    ensures
        obj_get(entries, key) == Some(entries[i].1),
{
    lemma_obj_get_skip(entries, key, i);
    assert(entries.skip(i)[0] == entries[i]);
}

/// A lookup finds nothing when no entry carries the key.
pub proof fn lemma_obj_get_none(entries: Seq<(Seq<char>, JVal)>, key: Seq<char>)
    requires
        forall|j: int| 0 <= j < entries.len() ==> entries[j].0 != key,
    ensures
        obj_get(entries, key) is None,
{
    lemma_obj_get_skip(entries, key, entries.len() as int);
}

/// Relies on `serde_json::from_str::<serde_json::Value>`: parses text as a
/// generic structured document, deterministically, and fails exactly when
/// the text is not valid structured data.
#[verifier::external_body]
fn parse_value(s: &str) -> (r: Option<serde_json::Value>)
    ensures
        match r {
            Some(v) => parsed_doc(s@) == Some(value_model(v)),
            None => parsed_doc(s@) is None,
        },
{
    match serde_json::from_str::<serde_json::Value>(s) {
        Ok(v) => Some(v),
        Err(_) => None,
    }
}

/// Relies on `serde_json::Value`'s shape (and `Number::as_i64` for numbers)
/// to copy an already-parsed outside value into the crate's own document
/// type, one variant at a time.
#[verifier::external_body]
fn value_to_json(v: &serde_json::Value) -> (r: Json)
    ensures
        r@ == value_model(*v),
{
    match v {
        serde_json::Value::Null => Json::Null,
        serde_json::Value::Bool(b) => Json::Bool(*b),
        serde_json::Value::Number(n) => match n.as_i64() {
            Some(i) => Json::Int(i),
            None => Json::BadNum,
        },
        serde_json::Value::String(s) => Json::Str(s.clone()),
        serde_json::Value::Array(a) => Json::Arr(a.iter().map(value_to_json).collect()),
        serde_json::Value::Object(o) => {
            Json::Obj(o.iter().map(|(k, x)| (k.clone(), value_to_json(x))).collect())
        },
    }
}

/// Parses raw payload text into a document; `None` when the text is not
/// valid structured data.
pub fn parse_document(s: &str) -> (r: Option<Json>)
    ensures
        match r {
            Some(j) => parsed_doc(s@) == Some(j@),
            None => parsed_doc(s@) is None,
        },
{
    match parse_value(s) {
        None => None,
        Some(v) => Some(value_to_json(&v)),
    }
}

/// Whether two string slices hold the same characters.
pub(crate) fn str_eq(a: &str, b: &str) -> (r: bool)
    ensures
        r == (a@ == b@),
{
    let na = a.unicode_len();
    let nb = b.unicode_len();
    if na != nb {
        return false;
    }
    for i in 0..na
        invariant
            na == a@.len(),
            na == b@.len(),
            forall|j: int| 0 <= j < i ==> a@[j] == b@[j],
    {
        if a.get_char(i) != b.get_char(i) {
            return false;
        }
    }
    proof {
        assert(a@ =~= b@);
    }
    true
}

/// Looks a key up in a document object, returning the value of the first
/// entry carrying it.
pub fn get<'a>(entries: &'a Vec<(String, Json)>, key: &str) -> (r: Option<&'a Json>)
    ensures
        match r {
            Some(j) => obj_get(jentries_of(entries@), key@) == Some(j@),
            None => obj_get(jentries_of(entries@), key@) is None,
        },
{
    proof {
        lemma_jentries_of_index(entries@);
    }
    let n = entries.len();
    for i in 0..n
        invariant
            n == entries.len(),
            jentries_of(entries@).len() == entries@.len(),
            forall|k: int| 0 <= k < entries@.len()
                ==> jentries_of(entries@)[k] == (entries@[k].0@, jval_of(entries@[k].1)),
            forall|j: int| 0 <= j < i ==> entries@[j].0@ != key@,
    {
        if str_eq(entries[i].0.as_str(), key) {
            proof {
                lemma_obj_get_skip(jentries_of(entries@), key@, i as int);
                assert(jentries_of(entries@).skip(i as int)[0] == jentries_of(entries@)[i as int]);
            }
            return Some(&entries[i].1);
        }
    }
    proof {
        lemma_obj_get_skip(jentries_of(entries@), key@, n as int);
    }
    None
}

} // verus!
