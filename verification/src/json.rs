//! JSON values as this crate reads them.
//!
//! Parsing is the JSON collaborator's job: a trusted call hands back a `Json`
//! tree, in which a number carries the text the parser rendered it with, so
//! that no field of the tree is outside the crate's reach. Everything after
//! the parse — looking fields up and reading typed values out of them — is
//! verified code over the tree's model.

use crate::digits::{parse_i64, parse_i64_spec, parse_int};
use vstd::prelude::*;

verus! {

/// A parsed JSON value. Numbers carry their rendered text.
pub enum Json {
    Null,
    Bool(bool),
    Num(String),
    Str(String),
    Arr(Vec<Json>),
    Obj(Vec<(String, Json)>),
}

/// Spec-level JSON value.
#[verifier::ext_equal]
pub enum JsonModel {
    Null,
    Bool(bool),
    Num(Seq<char>),
    Str(Seq<char>),
    Arr(Seq<JsonModel>),
    Obj(Seq<(Seq<char>, JsonModel)>),
}

/// Spec-level value of a `Json` tree.
pub open spec fn json_view(j: Json) -> JsonModel
    decreases j,
{
    {
        match j {
            Json::Null => JsonModel::Null,
            Json::Bool(b) => JsonModel::Bool(b),
            Json::Num(s) => JsonModel::Num(s@),
            Json::Str(s) => JsonModel::Str(s@),
            Json::Arr(items) => JsonModel::Arr(
                Seq::new(
                    items@.len(),
                    |i: int|
                        if 0 <= i < items@.len() {
                            json_view(items@[i])
                        } else {
                            JsonModel::Null
                        },
                ),
            ),
            Json::Obj(fields) => JsonModel::Obj(
                Seq::new(
                    fields@.len(),
                    |i: int|
                        if 0 <= i < fields@.len() {
                            (fields@[i].0@, json_view(fields@[i].1))
                        } else {
                            (Seq::empty(), JsonModel::Null)
                        },
                ),
            ),
        }
    }
}

impl View for Json {
    type V = JsonModel;

    open spec fn view(&self) -> JsonModel {
        json_view(*self)
    }
}

/// Model of an object's field list.
pub open spec fn fields_model(fields: Seq<(String, Json)>) -> Seq<(Seq<char>, JsonModel)> {
    Seq::new(fields.len(), |i: int| (fields[i].0@, fields[i].1@))
}

/// Model of an array's item list.
pub open spec fn items_model(items: Seq<Json>) -> Seq<JsonModel> {
    Seq::new(items.len(), |i: int| items[i]@)
}

/// An object's model is the model of its field list.
pub proof fn lemma_obj_view(fields: Vec<(String, Json)>)
    ensures
        json_view(Json::Obj(fields)) == JsonModel::Obj(fields_model(fields@)),
{
    let j = Json::Obj(fields);
    assert forall|i: int| 0 <= i < fields@.len() implies #[trigger] json_view(j)->Obj_0[i] == (
    fields@[i].0@, fields@[i].1@) by {
        assert(fields@[i].1@ == json_view(fields@[i].1));
        assert(json_view(j)->Obj_0[i] == (fields@[i].0@, json_view(fields@[i].1)));
    }
    assert(json_view(j)->Obj_0 =~= fields_model(fields@));
    assert(json_view(j) =~~= JsonModel::Obj(fields_model(fields@)));
}

/// An array's model is the model of its item list.
pub proof fn lemma_arr_view(items: Vec<Json>)
    ensures
        json_view(Json::Arr(items)) == JsonModel::Arr(items_model(items@)),
{
    let j = Json::Arr(items);
    assert forall|i: int| 0 <= i < items@.len() implies #[trigger] json_view(j)->Arr_0[i]
        == items@[i]@ by {
        assert(items@[i]@ == json_view(items@[i]));
        assert(json_view(j)->Arr_0[i] == json_view(items@[i]));
    }
    assert(json_view(j)->Arr_0 =~= items_model(items@));
    assert(json_view(j) =~~= JsonModel::Arr(items_model(items@)));
}

/// serde_json's parsed value; it only carries the parser's result to the
/// conversion into this crate's `Json`.
#[verifier::external_type_specification]
#[verifier::external_body]
pub struct ExValue(serde_json::Value);

/// What parsing a JSON text yields: the parsed value, or nothing when the
/// text is not JSON. The outcome depends on the text alone.
pub uninterp spec fn json_of_text(s: Seq<char>) -> Option<JsonModel>;

/// Relies on the shape of `serde_json::Value`: each variant is carried over
/// one to one, a number as the text `serde_json` renders it with.
#[verifier::external_body]
fn value_to_json(v: serde_json::Value) -> Json {
    match v {
        serde_json::Value::Null => Json::Null,
        serde_json::Value::Bool(b) => Json::Bool(b),
        serde_json::Value::Number(n) => Json::Num(n.to_string()),
        serde_json::Value::String(s) => Json::Str(s),
        serde_json::Value::Array(a) => Json::Arr(a.into_iter().map(value_to_json).collect()),
        serde_json::Value::Object(o) => Json::Obj(
            o.into_iter().map(|p| (p.0, value_to_json(p.1))).collect(),
        ),
    }
}

/// Relies on `serde_json::from_str::<serde_json::Value>`: parses a JSON text
/// into a JSON value or fails with a diagnostic, deterministically in the
/// text.
#[verifier::external_body]
pub(crate) fn parse_json(s: &str) -> (r: Result<Json, String>)
    ensures
        (match r {
            Ok(j) => json_of_text(s@) == Some(j@),
            Err(_) => json_of_text(s@) == None::<JsonModel>,
        }),
{
    match serde_json::from_str::<serde_json::Value>(s) {
        Ok(v) => Ok(value_to_json(v)),
        Err(e) => Err(e.to_string()),
    }
}

/// The first field with the key, if any.
pub open spec fn spec_lookup(fs: Seq<(Seq<char>, JsonModel)>, key: Seq<char>) -> Option<JsonModel>
    decreases fs.len(),
{
    if fs.len() == 0 {
        None
    } else if fs[0].0 == key {
        Some(fs[0].1)
    } else {
        spec_lookup(fs.skip(1), key)
    }
}

proof fn lemma_lookup_at(fs: Seq<(Seq<char>, JsonModel)>, key: Seq<char>, i: int)
    requires
        0 <= i < fs.len(),
        fs[i].0 == key,
        forall|j: int| 0 <= j < i ==> (#[trigger] fs[j]).0 != key,
    ensures
        spec_lookup(fs, key) == Some(fs[i].1),
    decreases i,
{
    if i > 0 {
        assert(fs[0].0 != key);
        lemma_lookup_at(fs.skip(1), key, i - 1);
    }
}

proof fn lemma_lookup_none(fs: Seq<(Seq<char>, JsonModel)>, key: Seq<char>)
    requires
        forall|j: int| 0 <= j < fs.len() ==> (#[trigger] fs[j]).0 != key,
    ensures
        spec_lookup(fs, key) == None::<JsonModel>,
    decreases fs.len(),
{
    if fs.len() > 0 {
        lemma_lookup_none(fs.skip(1), key);
    }
}

/// Find the first field with the key in an object's field list.
pub fn lookup<'a>(fields: &'a Vec<(String, Json)>, key: &str) -> (r: Option<&'a Json>)
    ensures
        (match r {
            Some(j) => spec_lookup(fields_model(fields@), key@) == Some(j@),
            None => spec_lookup(fields_model(fields@), key@) == None::<JsonModel>,
        }),
{
    let k = key.to_owned();
    let n = fields.len();
    let mut i: usize = 0;
    while i < n
        invariant
            0 <= i <= n,
            n == fields.len(),
            k@ == key@,
            forall|j: int| 0 <= j < i ==> (#[trigger] fields_model(fields@)[j]).0 != key@,
        decreases n - i,
    {
        if fields[i].0 == k {
            proof {
                assert(fields_model(fields@)[i as int].0 == key@);
                lemma_lookup_at(fields_model(fields@), key@, i as int);
            }
            return Some(&fields[i].1);
        }
        proof {
            assert(fields_model(fields@)[i as int].0 == fields@[i as int].0@);
        }
        i += 1;
    }
    proof {
        lemma_lookup_none(fields_model(fields@), key@);
    }
    None
}

/// A string field: absent or null is no value, a string is its value,
/// anything else is ill-typed.
pub open spec fn spec_field_str(fs: Seq<(Seq<char>, JsonModel)>, key: Seq<char>) -> Option<
    Option<Seq<char>>,
> {
    match spec_lookup(fs, key) {
        None => Some(None),
        Some(JsonModel::Null) => Some(None),
        Some(JsonModel::Str(s)) => Some(Some(s)),
        Some(_) => None,
    }
}

/// Read a string field.
pub fn field_str(fields: &Vec<(String, Json)>, key: &str) -> (r: Option<Option<String>>)
    ensures
        (match r {
            None => spec_field_str(fields_model(fields@), key@) == None::<Option<Seq<char>>>,
            Some(None) => spec_field_str(fields_model(fields@), key@) == Some(
                None::<Seq<char>>,
            ),
            Some(Some(s)) => spec_field_str(fields_model(fields@), key@) == Some(Some(s@)),
        }),
{
    match lookup(fields, key) {
        None => Some(None),
        Some(j) => match j {
            Json::Null => Some(None),
            Json::Str(s) => Some(Some(s.clone())),
            _ => None,
        },
    }
}

/// A number field kept as text: absent or null is no value, a number is its
/// rendered text, anything else is ill-typed.
pub open spec fn spec_field_num_text(fs: Seq<(Seq<char>, JsonModel)>, key: Seq<char>) -> Option<
    Option<Seq<char>>,
> {
    match spec_lookup(fs, key) {
        None => Some(None),
        Some(JsonModel::Null) => Some(None),
        Some(JsonModel::Num(t)) => Some(Some(t)),
        Some(_) => None,
    }
}

/// Read a numeric field as the text the parser rendered it with.
pub fn field_num_text(fields: &Vec<(String, Json)>, key: &str) -> (r: Option<Option<String>>)
    ensures
        (match r {
            None => spec_field_num_text(fields_model(fields@), key@) == None::<Option<Seq<char>>>,
            Some(None) => spec_field_num_text(fields_model(fields@), key@) == Some(
                None::<Seq<char>>,
            ),
            Some(Some(s)) => spec_field_num_text(fields_model(fields@), key@) == Some(Some(s@)),
        }),
{
    match lookup(fields, key) {
        None => Some(None),
        Some(j) => match j {
            Json::Null => Some(None),
            Json::Num(t) => Some(Some(t.clone())),
            _ => None,
        },
    }
}

/// An integer field: absent or null is no value, a number whose text denotes
/// an integer in `i64` range is its value, anything else is ill-typed.
pub open spec fn spec_field_i64(fs: Seq<(Seq<char>, JsonModel)>, key: Seq<char>) -> Option<
    Option<i64>,
> {
    match spec_lookup(fs, key) {
        None => Some(None),
        Some(JsonModel::Null) => Some(None),
        Some(JsonModel::Num(t)) => match parse_i64_spec(t) {
            Some(v) => Some(Some(v)),
            None => None,
        },
        Some(_) => None,
    }
}

/// Read an `i64` field.
pub fn field_i64(fields: &Vec<(String, Json)>, key: &str) -> (r: Option<Option<i64>>)
    ensures
        (match r {
            None => spec_field_i64(fields_model(fields@), key@) == None::<Option<i64>>,
            Some(v) => spec_field_i64(fields_model(fields@), key@) == Some(v),
        }),
{
    match lookup(fields, key) {
        None => Some(None),
        Some(j) => match j {
            Json::Null => Some(None),
            Json::Num(t) => match parse_i64(t.as_str()) {
                Some(v) => Some(Some(v)),
                None => None,
            },
            _ => None,
        },
    }
}

/// An `i32` field: as `spec_field_i64`, within `i32` range.
pub open spec fn spec_field_i32(fs: Seq<(Seq<char>, JsonModel)>, key: Seq<char>) -> Option<
    Option<i32>,
> {
    match spec_lookup(fs, key) {
        None => Some(None),
        Some(JsonModel::Null) => Some(None),
        Some(JsonModel::Num(t)) => match parse_int(t) {
            Some(v) => if i32::MIN <= v <= i32::MAX {
                Some(Some(v as i32))
            } else {
                None
            },
            None => None,
        },
        Some(_) => None,
    }
}

/// Read an `i32` field.
pub fn field_i32(fields: &Vec<(String, Json)>, key: &str) -> (r: Option<Option<i32>>)
    ensures
        (match r {
            None => spec_field_i32(fields_model(fields@), key@) == None::<Option<i32>>,
            Some(v) => spec_field_i32(fields_model(fields@), key@) == Some(v),
        }),
{
    match lookup(fields, key) {
        None => Some(None),
        Some(j) => match j {
            Json::Null => Some(None),
            Json::Num(t) => match parse_i64(t.as_str()) {
                Some(v) => if i32::MIN as i64 <= v && v <= i32::MAX as i64 {
                    Some(Some(v as i32))
                } else {
                    None
                },
                None => None,
            },
            _ => None,
        },
    }
}

} // verus!
