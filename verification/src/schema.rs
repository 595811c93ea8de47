//! Reading the fields of a JSON object by key, and writing them back.
//!
//! A field is *required* (it must be there and of its type), *optional* (a
//! missing field and `null` both stand for "none") or *defaulted* (a missing
//! field stands for a default, `null` does not).

use crate::json::{
    any_of, bool_of, clone_items, flags_json, flags_of, i32_of, i64_of, integer_json, items_model,
    items_of, lemma_lookup_concat, lemma_lookup_one, lemma_lookup_without_keys, lookup,
    object_of, text_of, texts_json, texts_of, u32_of, u64_of, without_keys, JsonModel,
    JsonObject, JsonValue, ObjectModel,
};
use vstd::prelude::*;

verus! {

/// A required field: what `read` makes of the value under `key`; nothing
/// where the field is missing.
pub open spec fn required<T>(
    o: ObjectModel,
    key: Seq<char>,
    read: spec_fn(JsonModel) -> Option<T>,
) -> Option<T> {
    match lookup(o, key) {
        Some(m) => read(m),
        None => None,
    }
}

/// An optional field: `Some(None)` where the field is missing or `null`,
/// `Some(Some(v))` where `read` makes `v` of its value, and nothing where
/// `read` rejects the value.
pub open spec fn optional<T>(
    o: ObjectModel,
    key: Seq<char>,
    read: spec_fn(JsonModel) -> Option<T>,
) -> Option<Option<T>> {
    match lookup(o, key) {
        None => Some(None),
        Some(JsonModel::Null) => Some(None),
        Some(m) => match read(m) {
            Some(v) => Some(Some(v)),
            None => None,
        },
    }
}

/// A defaulted field: `default` where the field is missing, else what
/// `read` makes of its value.
pub open spec fn defaulted<T>(
    o: ObjectModel,
    key: Seq<char>,
    read: spec_fn(JsonModel) -> Option<T>,
    default: T,
) -> Option<T> {
    match lookup(o, key) {
        None => Some(default),
        Some(m) => read(m),
    }
}

/// A required field that may stand under any one of three keys: what `read`
/// makes of the value under the one key that is present, and nothing where
/// none of the keys is present or more than one is.
pub open spec fn required_under_one_of<T>(
    o: ObjectModel,
    first: Seq<char>,
    second: Seq<char>,
    third: Seq<char>,
    read: spec_fn(JsonModel) -> Option<T>,
) -> Option<T> {
    let a = lookup(o, first);
    let b = lookup(o, second);
    let c = lookup(o, third);
    if a is Some && b is None && c is None {
        read(a->0)
    } else if a is None && b is Some && c is None {
        read(b->0)
    } else if a is None && b is None && c is Some {
        read(c->0)
    } else {
        None
    }
}

/// One entry.
pub open spec fn entry(key: Seq<char>, value: JsonModel) -> ObjectModel {
    seq![(key, value)]
}

/// A lookup in one entry finds its value under its key and nothing under any
/// other.
pub broadcast proof fn lemma_lookup_entry(k: Seq<char>, value: JsonModel, key: Seq<char>)
    ensures
        #[trigger] lookup(entry(k, value), key) == if k == key {
            Some(value)
        } else {
            None
        },
{
    lemma_lookup_one(k, value, key);
}

/// Whether every key of a list of entries is among `keys`.
pub open spec fn keys_among(o: ObjectModel, keys: Seq<Seq<char>>) -> bool {
    forall|i: int| 0 <= i < o.len() ==> keys.contains(#[trigger] o[i].0)
}

/// Two lists of entries whose keys are among `keys`, one after the other.
pub proof fn lemma_keys_among_concat(a: ObjectModel, b: ObjectModel, keys: Seq<Seq<char>>)
    requires
        keys_among(a, keys),
        keys_among(b, keys),
    ensures
        keys_among(a + b, keys),
{
    assert forall|i: int| 0 <= i < (a + b).len() implies keys.contains(#[trigger] (a + b)[i].0) by {
        if i < a.len() {
            assert((a + b)[i] == a[i]);
        } else {
            assert((a + b)[i] == b[i - a.len()]);
        }
    }
}

/// A list of at most one entry, whose key is one of `keys`.
pub proof fn lemma_keys_among_one(o: ObjectModel, k: Seq<char>, keys: Seq<Seq<char>>, at: int)
    requires
        o.len() <= 1,
        o.len() == 1 ==> o[0].0 == k,
        0 <= at < keys.len(),
        keys[at] == k,
    ensures
        keys_among(o, keys),
{
}

/// Entries whose keys are all among `keys` hold nothing under any other
/// key.
pub proof fn lemma_lookup_outside_keys(o: ObjectModel, keys: Seq<Seq<char>>, key: Seq<char>)
    requires
        keys_among(o, keys),
        !keys.contains(key),
    ensures
        lookup(o, key) is None,
    decreases o.len(),
{
    if o.len() > 0 {
        assert(keys.contains(o[0].0));
        assert forall|i: int| 0 <= i < o.drop_first().len() implies keys.contains(
            #[trigger] o.drop_first()[i].0,
        ) by {
            assert(o.drop_first()[i] == o[i + 1]);
        }
        lemma_lookup_outside_keys(o.drop_first(), keys, key);
    }
}

/// Declared entries followed by what an object holds besides the declared
/// keys: under a key that is not declared stands what the object holds
/// there.
pub proof fn lemma_other_fields_follow(
    declared: ObjectModel,
    o: ObjectModel,
    keys: Seq<Seq<char>>,
    key: Seq<char>,
)
    requires
        keys_among(declared, keys),
        !keys.contains(key),
    ensures
        lookup(declared + without_keys(o, keys), key) == lookup(o, key),
{
    lemma_lookup_outside_keys(declared, keys, key);
    lemma_lookup_concat(declared, without_keys(o, keys), key);
    lemma_lookup_without_keys(o, keys, key);
}

/// One entry where there is a value, none where there is not.
pub open spec fn optional_entry(key: Seq<char>, value: Option<JsonModel>) -> ObjectModel {
    match value {
        Some(m) => seq![(key, m)],
        None => Seq::empty(),
    }
}

/// Reads a required field that holds a string.
pub fn required_text(o: &JsonObject, key: &str) -> (r: Option<String>)
    ensures
        r.deep_view() == required(o@, key@, |m: JsonModel| text_of(m)),
{
    match o.get(key) {
        Some(v) => v.to_text(),
        None => None,
    }
}

/// Reads a required string that may stand under any one of three keys.
pub fn required_text_under_one_of(o: &JsonObject, first: &str, second: &str, third: &str) -> (r:
    Option<String>)
    ensures
        r.deep_view() == required_under_one_of(
            o@,
            first@,
            second@,
            third@,
            |m: JsonModel| text_of(m),
        ),
{
    match (o.get(first), o.get(second), o.get(third)) {
        (Some(v), None, None) => v.to_text(),
        (None, Some(v), None) => v.to_text(),
        (None, None, Some(v)) => v.to_text(),
        _ => None,
    }
}

/// Reads a required field that holds an `i64`.
pub fn required_i64(o: &JsonObject, key: &str) -> (r: Option<i64>)
    ensures
        r.deep_view() == required(o@, key@, |m: JsonModel| i64_of(m)),
{
    match o.get(key) {
        Some(v) => v.to_i64(),
        None => None,
    }
}

/// Reads an optional field that holds a string.
pub fn optional_text(o: &JsonObject, key: &str) -> (r: Option<Option<String>>)
    ensures
        r.deep_view() == optional(o@, key@, |m: JsonModel| text_of(m)),
{
    match o.get(key) {
        None => Some(None),
        Some(JsonValue::Null) => Some(None),
        Some(v) => match v.to_text() {
            Some(x) => Some(Some(x)),
            None => None,
        },
    }
}

/// Reads an optional field that holds a boolean.
pub fn optional_bool(o: &JsonObject, key: &str) -> (r: Option<Option<bool>>)
    ensures
        r.deep_view() == optional(o@, key@, |m: JsonModel| bool_of(m)),
{
    match o.get(key) {
        None => Some(None),
        Some(JsonValue::Null) => Some(None),
        Some(v) => match v.to_bool() {
            Some(x) => Some(Some(x)),
            None => None,
        },
    }
}

/// Reads an optional field that holds a `u32`.
pub fn optional_u32(o: &JsonObject, key: &str) -> (r: Option<Option<u32>>)
    ensures
        r.deep_view() == optional(o@, key@, |m: JsonModel| u32_of(m)),
{
    match o.get(key) {
        None => Some(None),
        Some(JsonValue::Null) => Some(None),
        Some(v) => match v.to_u32() {
            Some(x) => Some(Some(x)),
            None => None,
        },
    }
}

/// Reads an optional field that holds a `u64`.
pub fn optional_u64(o: &JsonObject, key: &str) -> (r: Option<Option<u64>>)
    ensures
        r.deep_view() == optional(o@, key@, |m: JsonModel| u64_of(m)),
{
    match o.get(key) {
        None => Some(None),
        Some(JsonValue::Null) => Some(None),
        Some(v) => match v.to_u64() {
            Some(x) => Some(Some(x)),
            None => None,
        },
    }
}

/// Reads an optional field that holds an `i32`.
pub fn optional_i32(o: &JsonObject, key: &str) -> (r: Option<Option<i32>>)
    ensures
        r.deep_view() == optional(o@, key@, |m: JsonModel| i32_of(m)),
{
    match o.get(key) {
        None => Some(None),
        Some(JsonValue::Null) => Some(None),
        Some(v) => match v.to_i32() {
            Some(x) => Some(Some(x)),
            None => None,
        },
    }
}

/// Reads an optional field that holds an `i64`.
pub fn optional_i64(o: &JsonObject, key: &str) -> (r: Option<Option<i64>>)
    ensures
        r.deep_view() == optional(o@, key@, |m: JsonModel| i64_of(m)),
{
    match o.get(key) {
        None => Some(None),
        Some(JsonValue::Null) => Some(None),
        Some(v) => match v.to_i64() {
            Some(x) => Some(Some(x)),
            None => None,
        },
    }
}

/// Reads an optional field that holds an object.
pub fn optional_object(o: &JsonObject, key: &str) -> (r: Option<Option<JsonObject>>)
    ensures
        r.deep_view() == optional(o@, key@, |m: JsonModel| object_of(m)),
{
    match o.get(key) {
        None => Some(None),
        Some(JsonValue::Null) => Some(None),
        Some(v) => match v.to_object() {
            Some(x) => Some(Some(x)),
            None => None,
        },
    }
}

/// Reads an optional field that holds any document.
pub fn optional_value(o: &JsonObject, key: &str) -> (r: Option<Option<JsonValue>>)
    ensures
        r.deep_view() == optional(o@, key@, |m: JsonModel| any_of(m)),
{
    match o.get(key) {
        None => Some(None),
        Some(JsonValue::Null) => Some(None),
        Some(v) => match Some(v.clone()) {
            Some(x) => Some(Some(x)),
            None => None,
        },
    }
}

/// Reads a defaulted field that holds a boolean.
pub fn defaulted_bool(o: &JsonObject, key: &str, default: bool) -> (r: Option<bool>)
    ensures
        r.deep_view() == defaulted(o@, key@, |m: JsonModel| bool_of(m), default),
{
    match o.get(key) {
        None => Some(default),
        Some(v) => v.to_bool(),
    }
}

/// Reads a field that holds an array of strings and is empty where it is missing.
pub fn defaulted_texts(o: &JsonObject, key: &str) -> (r: Option<Vec<String>>)
    ensures
        r.deep_view() == defaulted(o@, key@, |m: JsonModel| texts_of(m), Seq::empty()),
{
    match o.get(key) {
        None => {
            let empty: Vec<String> = Vec::new();
            assert(empty.deep_view() =~= Seq::empty());
            Some(empty)
        },
        Some(v) => v.to_texts(),
    }
}

/// Reads a field that holds an object of booleans and is empty where it is missing.
pub fn defaulted_flags(o: &JsonObject, key: &str) -> (r: Option<Vec<(String, bool)>>)
    ensures
        r.deep_view() == defaulted(o@, key@, |m: JsonModel| flags_of(m), Seq::empty()),
{
    match o.get(key) {
        None => {
            let empty: Vec<(String, bool)> = Vec::new();
            assert(empty.deep_view() =~= Seq::empty());
            Some(empty)
        },
        Some(v) => v.to_flags(),
    }
}

/// Reads a field that holds an array and is empty where it is missing.
pub fn defaulted_values(o: &JsonObject, key: &str) -> (r: Option<Vec<JsonValue>>)
    ensures
        r.deep_view() == defaulted(o@, key@, |m: JsonModel| items_of(m), Seq::empty()),
{
    match o.get(key) {
        None => {
            let empty: Vec<JsonValue> = Vec::new();
            assert(empty.deep_view() =~= Seq::empty());
            Some(empty)
        },
        Some(v) => v.to_items(),
    }
}

/// The entry of a field that holds a string.
pub open spec fn text_entry(key: Seq<char>, value: Seq<char>) -> ObjectModel {
    entry(key, JsonModel::String(value))
}

/// Writes a field that holds a string.
pub fn put_text(o: &mut JsonObject, key: &str, value: &String)
    ensures
        final(o)@ == old(o)@ + text_entry(key@, value.deep_view()),
{
    let json = JsonValue::String(value.clone());
    o.push(key.to_owned(), json);
    assert(o@ =~= old(o)@ + text_entry(key@, value.deep_view()));
}

/// The entry of a field that holds a boolean.
pub open spec fn bool_entry(key: Seq<char>, value: bool) -> ObjectModel {
    entry(key, JsonModel::Bool(value))
}

/// Writes a field that holds a boolean.
pub fn put_bool(o: &mut JsonObject, key: &str, value: &bool)
    ensures
        final(o)@ == old(o)@ + bool_entry(key@, value.deep_view()),
{
    let json = JsonValue::Bool(*value);
    o.push(key.to_owned(), json);
    assert(o@ =~= old(o)@ + bool_entry(key@, value.deep_view()));
}

/// The entry of a field that holds an `i64`.
pub open spec fn i64_entry(key: Seq<char>, value: i64) -> ObjectModel {
    entry(key, integer_json(value as int))
}

/// Writes a field that holds an `i64`.
pub fn put_i64(o: &mut JsonObject, key: &str, value: &i64)
    ensures
        final(o)@ == old(o)@ + i64_entry(key@, value.deep_view()),
{
    let json = JsonValue::signed(*value);
    o.push(key.to_owned(), json);
    assert(o@ =~= old(o)@ + i64_entry(key@, value.deep_view()));
}

/// The entry of a field that holds an array of strings.
pub open spec fn texts_entry(key: Seq<char>, value: Seq<Seq<char>>) -> ObjectModel {
    entry(key, texts_json(value))
}

/// Writes a field that holds an array of strings.
pub fn put_texts(o: &mut JsonObject, key: &str, value: &Vec<String>)
    ensures
        final(o)@ == old(o)@ + texts_entry(key@, value.deep_view()),
{
    let json = JsonValue::texts(value);
    o.push(key.to_owned(), json);
    assert(o@ =~= old(o)@ + texts_entry(key@, value.deep_view()));
}

/// The entry of a field that holds an object of booleans.
pub open spec fn flags_entry(key: Seq<char>, value: Seq<(Seq<char>, bool)>) -> ObjectModel {
    entry(key, flags_json(value))
}

/// Writes a field that holds an object of booleans.
pub fn put_flags(o: &mut JsonObject, key: &str, value: &Vec<(String, bool)>)
    ensures
        final(o)@ == old(o)@ + flags_entry(key@, value.deep_view()),
{
    let json = JsonValue::flags(value);
    o.push(key.to_owned(), json);
    assert(o@ =~= old(o)@ + flags_entry(key@, value.deep_view()));
}

/// The entry of a field that holds an array.
pub open spec fn values_entry(key: Seq<char>, value: Seq<JsonModel>) -> ObjectModel {
    entry(key, JsonModel::Array(value))
}

/// Writes a field that holds an array.
pub fn put_values(o: &mut JsonObject, key: &str, value: &Vec<JsonValue>)
    ensures
        final(o)@ == old(o)@ + values_entry(key@, value.deep_view()),
{
    let items = clone_items(value);
    assert(items_model(items@) =~= value.deep_view());
    o.push(key.to_owned(), JsonValue::Array(items));
    assert(o@ =~= old(o)@ + values_entry(key@, value.deep_view()));
}

/// The entry of an optional field that holds a string: none where there
/// is no value.
pub open spec fn optional_text_entry(key: Seq<char>, value: Option<Seq<char>>) -> ObjectModel {
    match value {
        Some(v) => entry(key, JsonModel::String(v)),
        None => Seq::empty(),
    }
}

/// Writes an optional field that holds a string, where there is a value.
pub fn put_optional_text(o: &mut JsonObject, key: &str, value: &Option<String>)
    ensures
        final(o)@ == old(o)@ + optional_text_entry(key@, value.deep_view()),
{
    match value {
        Some(v) => {
            let json = JsonValue::String(v.clone());
            o.push(key.to_owned(), json);
        },
        None => {},
    }
    assert(o@ =~= old(o)@ + optional_text_entry(key@, value.deep_view()));
}

/// The entry of an optional field that holds a boolean: none where there
/// is no value.
pub open spec fn optional_bool_entry(key: Seq<char>, value: Option<bool>) -> ObjectModel {
    match value {
        Some(v) => entry(key, JsonModel::Bool(v)),
        None => Seq::empty(),
    }
}

/// Writes an optional field that holds a boolean, where there is a value.
pub fn put_optional_bool(o: &mut JsonObject, key: &str, value: &Option<bool>)
    ensures
        final(o)@ == old(o)@ + optional_bool_entry(key@, value.deep_view()),
{
    match value {
        Some(v) => {
            let json = JsonValue::Bool(*v);
            o.push(key.to_owned(), json);
        },
        None => {},
    }
    assert(o@ =~= old(o)@ + optional_bool_entry(key@, value.deep_view()));
}

/// The entry of an optional field that holds a `u32`: none where there
/// is no value.
pub open spec fn optional_u32_entry(key: Seq<char>, value: Option<u32>) -> ObjectModel {
    match value {
        Some(v) => entry(key, integer_json(v as int)),
        None => Seq::empty(),
    }
}

/// Writes an optional field that holds a `u32`, where there is a value.
pub fn put_optional_u32(o: &mut JsonObject, key: &str, value: &Option<u32>)
    ensures
        final(o)@ == old(o)@ + optional_u32_entry(key@, value.deep_view()),
{
    match value {
        Some(v) => {
            let json = JsonValue::unsigned(*v as u64);
            o.push(key.to_owned(), json);
        },
        None => {},
    }
    assert(o@ =~= old(o)@ + optional_u32_entry(key@, value.deep_view()));
}

/// The entry of an optional field that holds a `u64`: none where there
/// is no value.
pub open spec fn optional_u64_entry(key: Seq<char>, value: Option<u64>) -> ObjectModel {
    match value {
        Some(v) => entry(key, integer_json(v as int)),
        None => Seq::empty(),
    }
}

/// Writes an optional field that holds a `u64`, where there is a value.
pub fn put_optional_u64(o: &mut JsonObject, key: &str, value: &Option<u64>)
    ensures
        final(o)@ == old(o)@ + optional_u64_entry(key@, value.deep_view()),
{
    match value {
        Some(v) => {
            let json = JsonValue::unsigned(*v);
            o.push(key.to_owned(), json);
        },
        None => {},
    }
    assert(o@ =~= old(o)@ + optional_u64_entry(key@, value.deep_view()));
}

/// The entry of an optional field that holds an `i32`: none where there
/// is no value.
pub open spec fn optional_i32_entry(key: Seq<char>, value: Option<i32>) -> ObjectModel {
    match value {
        Some(v) => entry(key, integer_json(v as int)),
        None => Seq::empty(),
    }
}

/// Writes an optional field that holds an `i32`, where there is a value.
pub fn put_optional_i32(o: &mut JsonObject, key: &str, value: &Option<i32>)
    ensures
        final(o)@ == old(o)@ + optional_i32_entry(key@, value.deep_view()),
{
    match value {
        Some(v) => {
            let json = JsonValue::signed(*v as i64);
            o.push(key.to_owned(), json);
        },
        None => {},
    }
    assert(o@ =~= old(o)@ + optional_i32_entry(key@, value.deep_view()));
}

/// The entry of an optional field that holds an `i64`: none where there
/// is no value.
pub open spec fn optional_i64_entry(key: Seq<char>, value: Option<i64>) -> ObjectModel {
    match value {
        Some(v) => entry(key, integer_json(v as int)),
        None => Seq::empty(),
    }
}

/// Writes an optional field that holds an `i64`, where there is a value.
pub fn put_optional_i64(o: &mut JsonObject, key: &str, value: &Option<i64>)
    ensures
        final(o)@ == old(o)@ + optional_i64_entry(key@, value.deep_view()),
{
    match value {
        Some(v) => {
            let json = JsonValue::signed(*v);
            o.push(key.to_owned(), json);
        },
        None => {},
    }
    assert(o@ =~= old(o)@ + optional_i64_entry(key@, value.deep_view()));
}

/// The entry of an optional field that holds an object: none where there
/// is no value.
pub open spec fn optional_object_entry(key: Seq<char>, value: Option<ObjectModel>) -> ObjectModel {
    match value {
        Some(v) => entry(key, JsonModel::Object(v)),
        None => Seq::empty(),
    }
}

/// Writes an optional field that holds an object, where there is a value.
pub fn put_optional_object(o: &mut JsonObject, key: &str, value: &Option<JsonObject>)
    ensures
        final(o)@ == old(o)@ + optional_object_entry(key@, value.deep_view()),
{
    match value {
        Some(v) => {
            let json = JsonValue::Object(v.clone());
            o.push(key.to_owned(), json);
        },
        None => {},
    }
    assert(o@ =~= old(o)@ + optional_object_entry(key@, value.deep_view()));
}

/// The entry of an optional field that holds any document: none where there
/// is no value.
pub open spec fn optional_value_entry(key: Seq<char>, value: Option<JsonModel>) -> ObjectModel {
    match value {
        Some(v) => entry(key, v),
        None => Seq::empty(),
    }
}

/// Writes an optional field that holds any document, where there is a value.
pub fn put_optional_value(o: &mut JsonObject, key: &str, value: &Option<JsonValue>)
    ensures
        final(o)@ == old(o)@ + optional_value_entry(key@, value.deep_view()),
{
    match value {
        Some(v) => {
            let json = v.clone();
            o.push(key.to_owned(), json);
        },
        None => {},
    }
    assert(o@ =~= old(o)@ + optional_value_entry(key@, value.deep_view()));
}

/// Writes a field whose value is already a document.
pub fn put_json(o: &mut JsonObject, key: &str, value: JsonValue)
    ensures
        final(o)@ == old(o)@ + entry(key@, value@),
{
    o.push(key.to_owned(), value);
    assert(o@ =~= old(o)@ + entry(key@, value@));
}

} // verus!
