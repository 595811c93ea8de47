//! JSON text: reading it into a [`JsonValue`] and writing one out, both done
//! by `serde_json`.

use crate::json::{
    entries_model, first_entries, holds_entry, items_model, keys_ascend, keys_unique,
    lemma_first_entries, lemma_unique_lookup, lookup, number_clone, number_content, JsonModel,
    JsonObject, JsonValue, ObjectModel,
};
use crate::text::text_eq;
use vstd::prelude::*;

verus! {

/// `serde_json::Value`, the form in which `serde_json` reads and writes a
/// document. It is taken apart and put together one level at a time.
#[verifier::external_type_specification]
#[verifier::external_body]
pub struct ExValue(serde_json::Value);

/// The content of a `serde_json::Value`. The entries of an object stand in
/// the order in which its map hands them out.
pub uninterp spec fn value_content(value: serde_json::Value) -> JsonModel;

/// What `serde_json::from_str` reads from a text: the document, or nothing
/// where the text is not one JSON document.
pub uninterp spec fn parsed_json(text: Seq<char>) -> Option<JsonModel>;

/// The compact text that `serde_json` writes for a value of the given
/// content.
pub uninterp spec fn rendered_json(content: JsonModel) -> Seq<char>;

/// The entries of the `serde_json::Map` collected from a list of entries, in
/// the order in which the map hands them out.
pub uninterp spec fn collected_entries(entries: ObjectModel) -> ObjectModel;

/// What holds of the entries that a map hands out and the entries that it
/// was collected from: the keys ascend in the order of strings, the same
/// keys stand in both, and the value under a key is one that was given
/// under that key.
pub open spec fn is_collected(out: ObjectModel, given: ObjectModel) -> bool {
    &&& keys_ascend(out)
    &&& forall|key: Seq<char>| (#[trigger] lookup(out, key)) is Some <==> lookup(given, key) is Some
    &&& forall|key: Seq<char>|
        (#[trigger] lookup(out, key)) is Some ==> holds_entry(given, key, lookup(out, key)->0)
}

/// Where no key was given twice, the map holds under each key what was
/// given under it.
pub proof fn lemma_collected_lookup(out: ObjectModel, given: ObjectModel, key: Seq<char>)
    requires
        is_collected(out, given),
        keys_unique(given),
    ensures
        lookup(out, key) == lookup(given, key),
{
    if lookup(out, key) is Some {
        let v = lookup(out, key)->0;
        assert(holds_entry(given, key, v));
        let i = choose|i: int| 0 <= i < given.len() && #[trigger] given[i] == (key, v);
        lemma_unique_lookup(given, i);
    }
}

/// One level of a `serde_json::Value`, borrowed from it.
pub enum ValueNode<'a> {
    Null,
    Bool(bool),
    Number(&'a serde_json::Number),
    String(&'a String),
    Array(&'a Vec<serde_json::Value>),
    Object(Vec<(&'a String, &'a serde_json::Value)>),
}

/// One level of a `serde_json::Value` to be built.
pub enum ValueParts {
    Null,
    Bool(bool),
    Number(serde_json::Number),
    String(String),
    Array(Vec<serde_json::Value>),
    Object(Vec<(String, serde_json::Value)>),
}

/// The contents of a list of outside values.
pub open spec fn values_content(values: Seq<serde_json::Value>) -> Seq<JsonModel> {
    Seq::new(values.len(), |i: int| value_content(values[i]))
}

/// The contents of a list of borrowed entries.
pub open spec fn borrowed_entries_content(
    entries: Seq<(&String, &serde_json::Value)>,
) -> ObjectModel {
    Seq::new(entries.len(), |i: int| (entries[i].0@, value_content(*entries[i].1)))
}

/// The contents of a list of owned entries.
pub open spec fn owned_entries_content(entries: Seq<(String, serde_json::Value)>) -> ObjectModel {
    Seq::new(entries.len(), |i: int| (entries[i].0@, value_content(entries[i].1)))
}

/// The content that a borrowed level stands for.
pub open spec fn node_content(node: ValueNode) -> JsonModel {
    match node {
        ValueNode::Null => JsonModel::Null,
        ValueNode::Bool(b) => JsonModel::Bool(b),
        ValueNode::Number(n) => JsonModel::Number(number_content(*n)),
        ValueNode::String(s) => JsonModel::String(s@),
        ValueNode::Array(items) => JsonModel::Array(values_content(items@)),
        ValueNode::Object(entries) => JsonModel::Object(borrowed_entries_content(entries@)),
    }
}

/// The content of the value built from the given parts: the entries of an
/// object are collected into a map.
pub open spec fn parts_content(parts: ValueParts) -> JsonModel {
    match parts {
        ValueParts::Null => JsonModel::Null,
        ValueParts::Bool(b) => JsonModel::Bool(b),
        ValueParts::Number(n) => JsonModel::Number(number_content(n)),
        ValueParts::String(s) => JsonModel::String(s@),
        ValueParts::Array(items) => JsonModel::Array(values_content(items@)),
        ValueParts::Object(entries) => JsonModel::Object(
            collected_entries(owned_entries_content(entries@)),
        ),
    }
}

/// The content that a value under a key is written from, where the object
/// holds one.
pub open spec fn exported_at(o: ObjectModel, key: Seq<char>) -> Option<JsonModel> {
    match lookup(o, key) {
        Some(v) => Some(exported(v)),
        None => None,
    }
}

/// Whether `content` is what the document `m` is written from, as far as an
/// object goes: its keys ascend in the order of strings, and under each key
/// stands what the value that lookups find there is written from.
pub open spec fn written_as(content: JsonModel, m: JsonModel) -> bool {
    match m {
        JsonModel::Object(o) => {
            &&& content is Object
            &&& keys_ascend(content->Object_0)
            &&& forall|key: Seq<char>| #[trigger]
                lookup(content->Object_0, key) == exported_at(o, key)
        },
        _ => true,
    }
}

/// The content of the outside value that a document is written from: the
/// same document, with the entries of each object that lookups find
/// collected into a map.
pub open spec fn exported(m: JsonModel) -> JsonModel
    decreases m,
{
    match m {
        JsonModel::Array(items) => JsonModel::Array(exported_items(items)),
        JsonModel::Object(entries) => JsonModel::Object(
            collected_entries(first_entries(exported_entries(entries))),
        ),
        other => other,
    }
}

/// `serde_json::from_str` at type `Value`: the value read from the text, or
/// nothing where `serde_json` rejects the text.
#[verifier::external_body]
fn parse_value(text: &str) -> (r: Option<serde_json::Value>)
    ensures
        r matches Some(v) ==> parsed_json(text@) == Some(value_content(v)),
        r is None ==> parsed_json(text@) is None,
{
    serde_json::from_str::<serde_json::Value>(text).ok()
}

/// `ToString::to_string` of `serde_json::Value`: the compact text of the
/// value.
#[verifier::external_body]
fn render_value(value: &serde_json::Value) -> (r: String)
    ensures
        r@ == rendered_json(value_content(*value)),
{
    value.to_string()
}

/// Tells the variants of `serde_json::Value` apart and borrows what the
/// variant holds; the entries of an object come from `Map::iter`.
#[verifier::external_body]
fn inspect_value<'a>(value: &'a serde_json::Value) -> (r: ValueNode<'a>)
    ensures
        node_content(r) == value_content(*value),
{
    match value {
        serde_json::Value::Null => ValueNode::Null,
        serde_json::Value::Bool(b) => ValueNode::Bool(*b),
        serde_json::Value::Number(n) => ValueNode::Number(n),
        serde_json::Value::String(s) => ValueNode::String(s),
        serde_json::Value::Array(items) => ValueNode::Array(items),
        serde_json::Value::Object(map) => ValueNode::Object(map.iter().collect()),
    }
}

/// Builds the variant of `serde_json::Value` that the parts name; the
/// entries of an object are collected into a `serde_json::Map`, which holds
/// one entry for each key, hands its entries out in ascending order of the
/// keys, and keeps under a key one of the values given under it.
#[verifier::external_body]
fn assemble_value(parts: ValueParts) -> (r: serde_json::Value)
    ensures
        value_content(r) == parts_content(parts),
        parts matches ValueParts::Object(entries) ==> value_content(r) == JsonModel::Object(
            collected_entries(owned_entries_content(entries@)),
        ),
        parts matches ValueParts::Object(entries) ==> is_collected(
            value_content(r)->Object_0,
            owned_entries_content(entries@),
        ),
{
    match parts {
        ValueParts::Null => serde_json::Value::Null,
        ValueParts::Bool(b) => serde_json::Value::Bool(b),
        ValueParts::Number(n) => serde_json::Value::Number(n),
        ValueParts::String(s) => serde_json::Value::String(s),
        ValueParts::Array(items) => serde_json::Value::Array(items),
        ValueParts::Object(entries) => serde_json::Value::Object(entries.into_iter().collect()),
    }
}

/// Copies an outside value into a document of the library.
pub fn import_value(value: &serde_json::Value) -> (r: JsonValue)
    ensures
        r@ == value_content(*value),
    decreases value_content(*value),
{
    match inspect_value(value) {
        ValueNode::Null => JsonValue::Null,
        ValueNode::Bool(b) => JsonValue::Bool(b),
        ValueNode::Number(n) => JsonValue::Number(number_clone(n)),
        ValueNode::String(s) => JsonValue::String(s.clone()),
        ValueNode::Array(items) => {
            let mut out: Vec<JsonValue> = Vec::new();
            let mut i: usize = 0;
            while i < items.len()
                invariant
                    i <= items.len(),
                    out.len() == i,
                    value_content(*value) == JsonModel::Array(values_content(items@)),
                    forall|j: int| 0 <= j < i ==> out@[j]@ == value_content(items@[j]),
                decreases items.len() - i,
            {
                proof {
                    let s = values_content(items@);
                    assert(s[i as int] == value_content(items@[i as int]));
                    assert(value_content(*value)->Array_0 == s);
                    assert(decreases_to!(value_content(*value) => s[i as int]));
                }
                out.push(import_value(&items[i]));
                i += 1;
            }
            assert(items_model(out@) =~= values_content(items@));
            JsonValue::Array(out)
        },
        ValueNode::Object(entries) => {
            let mut out: Vec<(String, JsonValue)> = Vec::new();
            let mut i: usize = 0;
            while i < entries.len()
                invariant
                    i <= entries.len(),
                    out.len() == i,
                    value_content(*value) == JsonModel::Object(borrowed_entries_content(entries@)),
                    forall|j: int|
                        0 <= j < i ==> out@[j].0@ == entries@[j].0@ && out@[j].1@ == value_content(
                            *entries@[j].1,
                        ),
                decreases entries.len() - i,
            {
                proof {
                    let s = borrowed_entries_content(entries@);
                    assert(s[i as int].1 == value_content(*entries@[i as int].1));
                    assert(value_content(*value)->Object_0 == s);
                    assert(decreases_to!(value_content(*value) => s[i as int].1));
                }
                out.push((entries[i].0.clone(), import_value(entries[i].1)));
                i += 1;
            }
            assert(entries_model(out@) =~= borrowed_entries_content(entries@));
            JsonValue::Object(JsonObject { entries: out })
        },
    }
}

/// The content that each document of a list is written from.
pub open spec fn exported_items(items: Seq<JsonModel>) -> Seq<JsonModel>
    decreases items,
{
    Seq::new(
        items.len(),
        |i: int|
            if 0 <= i < items.len() {
                exported(items[i])
            } else {
                JsonModel::Null
            },
    )
}

/// The entries of an object, each value as it is written.
pub open spec fn exported_entries(entries: ObjectModel) -> ObjectModel
    decreases entries,
{
    Seq::new(
        entries.len(),
        |i: int|
            if 0 <= i < entries.len() {
                (entries[i].0, exported(entries[i].1))
            } else {
                (Seq::empty(), JsonModel::Null)
            },
    )
}

/// Builds the outside values that a list of documents is written from.
fn export_items(items: &Vec<JsonValue>) -> (r: Vec<serde_json::Value>)
    ensures
        values_content(r@) == exported_items(items_model(items@)),
    decreases items,
{
    let mut out: Vec<serde_json::Value> = Vec::new();
    let mut i: usize = 0;
    while i < items.len()
        invariant
            i <= items.len(),
            out.len() == i,
            forall|j: int| 0 <= j < i ==> value_content(out@[j]) == exported(items@[j]@),
        decreases items.len() - i,
    {
        out.push(export_value(&items[i]));
        i += 1;
    }
    assert(values_content(out@) =~= exported_items(items_model(items@)));
    out
}

/// A lookup among the entries as they are written finds what the value that
/// a lookup among the entries finds is written from.
pub proof fn lemma_exported_entries_lookup(o: ObjectModel, key: Seq<char>)
    ensures
        lookup(exported_entries(o), key) == exported_at(o, key),
    decreases o.len(),
{
    if o.len() > 0 {
        assert(exported_entries(o).first() == (o.first().0, exported(o.first().1)));
        assert(exported_entries(o).drop_first() =~= exported_entries(o.drop_first()));
        lemma_exported_entries_lookup(o.drop_first(), key);
    }
}

/// Whether one of the first `upto` entries stands under `key`.
fn key_seen(entries: &Vec<(String, JsonValue)>, upto: usize, key: &str) -> (r: bool)
    requires
        upto <= entries.len(),
    ensures
        r == lookup(entries_model(entries@).take(upto as int), key@).is_some(),
{
    let ghost earlier = entries_model(entries@).take(upto as int);
    let mut i: usize = 0;
    assert(earlier.skip(0) =~= earlier);
    while i < upto
        invariant
            i <= upto <= entries.len(),
            earlier == entries_model(entries@).take(upto as int),
            lookup(earlier, key@) == lookup(earlier.skip(i as int), key@),
        decreases upto - i,
    {
        assert(earlier.skip(i as int).first() == earlier[i as int]);
        if text_eq(entries[i].0.as_str(), key) {
            return true;
        }
        assert(earlier.skip(i as int).drop_first() =~= earlier.skip(i as int + 1));
        i += 1;
    }
    false
}

/// Builds the outside entries that the entries of an object are written
/// from: one for each entry that is the first under its key.
fn export_entries(entries: &Vec<(String, JsonValue)>) -> (r: Vec<(String, serde_json::Value)>)
    ensures
        owned_entries_content(r@) == first_entries(exported_entries(entries_model(entries@))),
    decreases entries,
{
    let ghost given = entries_model(entries@);
    let ghost written = exported_entries(given);
    let mut out: Vec<(String, serde_json::Value)> = Vec::new();
    let mut i: usize = 0;
    assert(owned_entries_content(out@) =~= first_entries(written.take(0)));
    while i < entries.len()
        invariant
            i <= entries.len(),
            given == entries_model(entries@),
            written == exported_entries(given),
            owned_entries_content(out@) == first_entries(written.take(i as int)),
        decreases entries.len() - i,
    {
        let ghost before = owned_entries_content(out@);
        proof {
            lemma_exported_entries_lookup(given.take(i as int), given[i as int].0);
            assert(exported_entries(given.take(i as int)) =~= written.take(i as int));
            assert(written.take(i as int + 1).drop_last() =~= written.take(i as int));
            assert(written.take(i as int + 1).last() == (
                given[i as int].0,
                exported(given[i as int].1),
            ));
        }
        if !key_seen(entries, i, entries[i].0.as_str()) {
            out.push((entries[i].0.clone(), export_value(&entries[i].1)));
            assert(owned_entries_content(out@) =~= before.push(
                (given[i as int].0, exported(given[i as int].1)),
            ));
        }
        i += 1;
    }
    assert(written.take(i as int) =~= written);
    out
}

/// Builds the outside value that a document is written from. Of an object
/// the entries that lookups find are written; the value then holds them in
/// ascending order of their keys.
pub fn export_value(value: &JsonValue) -> (r: serde_json::Value)
    ensures
        value_content(r) == exported(value@),
        written_as(value_content(r), value@),
    decreases value,
{
    match value {
        JsonValue::Null => assemble_value(ValueParts::Null),
        JsonValue::Bool(b) => assemble_value(ValueParts::Bool(*b)),
        JsonValue::Number(n) => assemble_value(ValueParts::Number(number_clone(n))),
        JsonValue::String(s) => assemble_value(ValueParts::String(s.clone())),
        JsonValue::Array(items) => assemble_value(ValueParts::Array(export_items(items))),
        JsonValue::Object(o) => {
            let r = assemble_value(ValueParts::Object(export_entries(&o.entries)));
            proof {
                let written = exported_entries(o@);
                let given = first_entries(written);
                let out = value_content(r)->Object_0;
                assert forall|key: Seq<char>| #[trigger]
                    lookup(out, key) == exported_at(o@, key) by {
                    lemma_first_entries(written, key);
                    lemma_collected_lookup(out, given, key);
                    lemma_exported_entries_lookup(o@, key);
                }
            }
            r
        },
    }
}

/// Reads one JSON document from a text.
pub fn parse_json(text: &str) -> (r: Option<JsonValue>)
    ensures
        r matches Some(v) ==> parsed_json(text@) == Some(v@),
        r is None ==> parsed_json(text@) is None,
{
    match parse_value(text) {
        Some(v) => Some(import_value(&v)),
        None => None,
    }
}

/// Writes a document as compact JSON text: the text of the value that the
/// document is written from.
pub fn render_json(value: &JsonValue) -> (r: String)
    ensures
        r@ == rendered_json(exported(value@)),
        written_as(exported(value@), value@),
{
    let outside = export_value(value);
    render_value(&outside)
}

} // verus!
