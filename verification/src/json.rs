//! JSON documents as the library holds them, and their mathematical model.

use crate::text::text_eq;
use vstd::prelude::*;

verus! {

/// `serde_json::Number`, held as it comes. What it holds is read and built
/// through the functions below.
#[verifier::external_type_specification]
#[verifier::external_body]
pub struct ExNumber(serde_json::Number);

/// What a JSON number holds: a non-negative integer, a negative integer, or
/// a finite binary floating-point value identified by its bit pattern.
pub enum NumberModel {
    PosInt(u64),
    NegInt(i64),
    Float(int),
}

/// The content of a `serde_json::Number`.
pub uninterp spec fn number_content(number: serde_json::Number) -> NumberModel;

/// The number that stands for the integer `value`.
pub open spec fn integer_number(value: int) -> NumberModel {
    if value < 0 {
        NumberModel::NegInt(value as i64)
    } else {
        NumberModel::PosInt(value as u64)
    }
}

/// The value of a number as an unsigned 64-bit integer, where it is one.
pub open spec fn number_u64(number: NumberModel) -> Option<u64> {
    match number {
        NumberModel::PosInt(u) => Some(u),
        _ => None,
    }
}

/// The value of a number as a signed 64-bit integer, where it is one.
pub open spec fn number_i64(number: NumberModel) -> Option<i64> {
    match number {
        NumberModel::PosInt(u) => if u <= i64::MAX {
            Some(u as i64)
        } else {
            None
        },
        NumberModel::NegInt(i) => Some(i),
        NumberModel::Float(_) => None,
    }
}

/// `serde_json::Number::as_u64`: the value of a non-negative integer, and
/// nothing for a negative integer or a float.
#[verifier::external_body]
pub(crate) fn number_as_u64(number: &serde_json::Number) -> (r: Option<u64>)
    ensures
        r == number_u64(number_content(*number)),
{
    number.as_u64()
}

/// `serde_json::Number::as_i64`: the value of an integer that fits 64 signed
/// bits, and nothing for a larger integer or a float.
#[verifier::external_body]
pub(crate) fn number_as_i64(number: &serde_json::Number) -> (r: Option<i64>)
    ensures
        r == number_i64(number_content(*number)),
{
    number.as_i64()
}

/// `serde_json::Number::from` on a `u64`: the non-negative integer `value`.
#[verifier::external_body]
pub(crate) fn number_from_u64(value: u64) -> (r: serde_json::Number)
    ensures
        number_content(r) == NumberModel::PosInt(value),
{
    serde_json::Number::from(value)
}

/// `serde_json::Number::from` on an `i64`: the integer `value`, held as a
/// negative integer below zero and as a non-negative one otherwise.
#[verifier::external_body]
pub(crate) fn number_from_i64(value: i64) -> (r: serde_json::Number)
    ensures
        number_content(r) == integer_number(value as int),
{
    serde_json::Number::from(value)
}

/// `Clone::clone` of `serde_json::Number`: a number with the same content.
#[verifier::external_body]
pub(crate) fn number_clone(number: &serde_json::Number) -> (r: serde_json::Number)
    ensures
        number_content(r) == number_content(*number),
{
    number.clone()
}

/// The model of a JSON document: strings are sequences of characters, arrays
/// are sequences, and objects are sequences of key/value entries.
pub enum JsonModel {
    Null,
    Bool(bool),
    Number(NumberModel),
    String(Seq<char>),
    Array(Seq<JsonModel>),
    Object(Seq<(Seq<char>, JsonModel)>),
}

/// The entries of a JSON object, in order.
pub type ObjectModel = Seq<(Seq<char>, JsonModel)>;

/// A JSON object: a list of entries, in order. A key may stand in more than
/// one entry; lookups return the first entry with the given key, and only
/// that one is written when the object goes out as text.
#[derive(Debug, PartialEq, Eq)]
pub struct JsonObject {
    pub entries: Vec<(String, JsonValue)>,
}

/// A JSON document.
#[derive(Debug, PartialEq, Eq)]
pub enum JsonValue {
    Null,
    Bool(bool),
    Number(serde_json::Number),
    String(String),
    Array(Vec<JsonValue>),
    Object(JsonObject),
}

/// The value of the first entry of `o` whose key is `key`.
pub open spec fn lookup(o: ObjectModel, key: Seq<char>) -> Option<JsonModel>
    decreases o.len(),
{
    if o.len() == 0 {
        None
    } else if o.first().0 == key {
        Some(o.first().1)
    } else {
        lookup(o.drop_first(), key)
    }
}

/// The entries of `o` whose keys are not among `keys`, in order.
pub open spec fn without_keys(o: ObjectModel, keys: Seq<Seq<char>>) -> ObjectModel {
    o.filter(key_not_among(keys))
}

/// `o` with `value` stored under `key`: in place of the first entry with
/// that key, or at the end when there is none.
pub open spec fn with_entry(o: ObjectModel, key: Seq<char>, value: JsonModel) -> ObjectModel
    decreases o.len(),
{
    if o.len() == 0 {
        seq![(key, value)]
    } else if o.first().0 == key {
        seq![(key, value)] + o.drop_first()
    } else {
        seq![o.first()] + with_entry(o.drop_first(), key, value)
    }
}

/// The models of a list of documents.
pub open spec fn items_model(items: Seq<JsonValue>) -> Seq<JsonModel>
    decreases items,
{
    Seq::new(
        items.len(),
        |i: int|
            if 0 <= i < items.len() {
                items[i].view()
            } else {
                JsonModel::Null
            },
    )
}

/// The models of a list of entries.
pub open spec fn entries_model(entries: Seq<(String, JsonValue)>) -> ObjectModel
    decreases entries,
{
    Seq::new(
        entries.len(),
        |i: int|
            if 0 <= i < entries.len() {
                (entries[i].0@, entries[i].1.view())
            } else {
                (Seq::empty(), JsonModel::Null)
            },
    )
}

impl View for JsonValue {
    type V = JsonModel;

    open spec fn view(&self) -> JsonModel
        decreases self,
    {
        match self {
            JsonValue::Null => JsonModel::Null,
            JsonValue::Bool(b) => JsonModel::Bool(*b),
            JsonValue::Number(n) => JsonModel::Number(number_content(*n)),
            JsonValue::String(s) => JsonModel::String(s@),
            JsonValue::Array(items) => JsonModel::Array(items_model(items@)),
            JsonValue::Object(o) => JsonModel::Object(entries_model(o.entries@)),
        }
    }
}

impl View for JsonObject {
    type V = ObjectModel;

    open spec fn view(&self) -> ObjectModel {
        entries_model(self.entries@)
    }
}

impl DeepView for JsonValue {
    type V = JsonModel;

    open spec fn deep_view(&self) -> JsonModel {
        self@
    }
}

impl DeepView for JsonObject {
    type V = ObjectModel;

    open spec fn deep_view(&self) -> ObjectModel {
        self@
    }
}

/// The text of a JSON string.
pub open spec fn text_of(m: JsonModel) -> Option<Seq<char>> {
    match m {
        JsonModel::String(s) => Some(s),
        _ => None,
    }
}

/// The value of a JSON boolean.
pub open spec fn bool_of(m: JsonModel) -> Option<bool> {
    match m {
        JsonModel::Bool(b) => Some(b),
        _ => None,
    }
}

/// The value of a JSON integer that fits `u64`.
pub open spec fn u64_of(m: JsonModel) -> Option<u64> {
    match m {
        JsonModel::Number(n) => number_u64(n),
        _ => None,
    }
}

/// The value of a JSON integer that fits `i64`.
pub open spec fn i64_of(m: JsonModel) -> Option<i64> {
    match m {
        JsonModel::Number(n) => number_i64(n),
        _ => None,
    }
}

/// The value of a JSON integer that fits `u32`.
pub open spec fn u32_of(m: JsonModel) -> Option<u32> {
    match u64_of(m) {
        Some(u) => if u <= u32::MAX {
            Some(u as u32)
        } else {
            None
        },
        None => None,
    }
}

/// The value of a JSON integer that fits `i32`.
pub open spec fn i32_of(m: JsonModel) -> Option<i32> {
    match i64_of(m) {
        Some(i) => if i32::MIN <= i <= i32::MAX {
            Some(i as i32)
        } else {
            None
        },
        None => None,
    }
}

/// The entries of a JSON object.
pub open spec fn object_of(m: JsonModel) -> Option<ObjectModel> {
    match m {
        JsonModel::Object(o) => Some(o),
        _ => None,
    }
}

/// The items of a JSON array.
pub open spec fn items_of(m: JsonModel) -> Option<Seq<JsonModel>> {
    match m {
        JsonModel::Array(items) => Some(items),
        _ => None,
    }
}

/// Any document, as it is.
pub open spec fn any_of(m: JsonModel) -> Option<JsonModel> {
    Some(m)
}

/// The texts of a JSON array of strings.
pub open spec fn texts_of(m: JsonModel) -> Option<Seq<Seq<char>>> {
    match m {
        JsonModel::Array(items) => if forall|i: int| 0 <= i < items.len() ==> items[i] is String {
            Some(Seq::new(items.len(), |i: int| items[i]->String_0))
        } else {
            None
        },
        _ => None,
    }
}

/// The entries of a JSON object whose values are all booleans.
pub open spec fn flags_of(m: JsonModel) -> Option<Seq<(Seq<char>, bool)>> {
    match m {
        JsonModel::Object(o) => if forall|i: int| 0 <= i < o.len() ==> o[i].1 is Bool {
            Some(Seq::new(o.len(), |i: int| (o[i].0, o[i].1->Bool_0)))
        } else {
            None
        },
        _ => None,
    }
}

/// The JSON number for an integer.
pub open spec fn integer_json(value: int) -> JsonModel {
    JsonModel::Number(integer_number(value))
}

/// The JSON array of the given strings.
pub open spec fn texts_json(texts: Seq<Seq<char>>) -> JsonModel {
    JsonModel::Array(Seq::new(texts.len(), |i: int| JsonModel::String(texts[i])))
}

/// The JSON object of the given boolean entries.
pub open spec fn flags_json(flags: Seq<(Seq<char>, bool)>) -> JsonModel {
    JsonModel::Object(Seq::new(flags.len(), |i: int| (flags[i].0, JsonModel::Bool(flags[i].1))))
}

/// Whether the text `a` stands before the text `b` in the order of strings:
/// at the first place where they differ `a` holds the smaller character, or
/// `a` ends there and `b` does not.
pub open spec fn text_before(a: Seq<char>, b: Seq<char>) -> bool
    decreases a.len(),
{
    if b.len() == 0 {
        false
    } else if a.len() == 0 {
        true
    } else if a.first() != b.first() {
        a.first() < b.first()
    } else {
        text_before(a.drop_first(), b.drop_first())
    }
}

/// Whether the keys of a list of entries ascend strictly.
pub open spec fn keys_ascend(o: ObjectModel) -> bool {
    forall|i: int, j: int|
        0 <= i < j < o.len() ==> text_before(#[trigger] o[i].0, #[trigger] o[j].0)
}

/// Whether no key stands in two entries.
pub open spec fn keys_unique(o: ObjectModel) -> bool {
    forall|i: int, j: int| 0 <= i < j < o.len() ==> #[trigger] o[i].0 != #[trigger] o[j].0
}

/// Whether `value` stands under `key` in some entry.
pub open spec fn holds_entry(o: ObjectModel, key: Seq<char>, value: JsonModel) -> bool {
    exists|i: int| 0 <= i < o.len() && #[trigger] o[i] == (key, value)
}

/// The entries that lookups find: each entry that is the first under its
/// key, in order.
pub open spec fn first_entries(o: ObjectModel) -> ObjectModel
    decreases o.len(),
{
    if o.len() == 0 {
        o
    } else if lookup(o.drop_last(), o.last().0) is Some {
        first_entries(o.drop_last())
    } else {
        first_entries(o.drop_last()).push(o.last())
    }
}

/// A key that lookups do not find stands in no entry, and a key that they
/// find stands in the entry whose value they give.
pub proof fn lemma_lookup_finds_entries(o: ObjectModel, key: Seq<char>)
    ensures
        lookup(o, key) is None ==> forall|i: int| 0 <= i < o.len() ==> (#[trigger] o[i]).0 != key,
        lookup(o, key) matches Some(v) ==> holds_entry(o, key, v),
    decreases o.len(),
{
    if o.len() > 0 {
        lemma_lookup_finds_entries(o.drop_first(), key);
        if o.first().0 == key {
            assert(o[0] == (key, o.first().1));
        } else {
            assert forall|i: int| 0 <= i < o.len() && lookup(o, key) is None implies
                (#[trigger] o[i]).0 != key by {
                if i > 0 {
                    assert(o[i] == o.drop_first()[i - 1]);
                }
            }
            if lookup(o, key) is Some {
                let v = lookup(o, key)->0;
                let i = choose|i: int|
                    0 <= i < o.drop_first().len() && #[trigger] o.drop_first()[i] == (key, v);
                assert(o[i + 1] == (key, v));
            }
        }
    }
}

/// Where no key stands in two entries, a lookup finds each entry.
pub proof fn lemma_unique_lookup(o: ObjectModel, at: int)
    requires
        keys_unique(o),
        0 <= at < o.len(),
    ensures
        lookup(o, o[at].0) == Some(o[at].1),
    decreases o.len(),
{
    if at == 0 {
    } else {
        assert(o[0].0 != o[at].0);
        let rest = o.drop_first();
        assert forall|i: int, j: int| 0 <= i < j < rest.len() implies #[trigger] rest[i].0
            != #[trigger] rest[j].0 by {
            assert(rest[i] == o[i + 1]);
            assert(rest[j] == o[j + 1]);
        }
        assert(rest[at - 1] == o[at]);
        lemma_unique_lookup(rest, at - 1);
    }
}

/// Lookups find in the first entries what they find in all of them, and no
/// key stands in two of the first entries.
pub proof fn lemma_first_entries(o: ObjectModel, key: Seq<char>)
    ensures
        lookup(first_entries(o), key) == lookup(o, key),
        keys_unique(first_entries(o)),
    decreases o.len(),
{
    if o.len() > 0 {
        let head = o.drop_last();
        let last = o.last();
        let tail = seq![last];
        lemma_first_entries(head, key);
        lemma_first_entries(head, last.0);
        assert(o =~= head + tail);
        lemma_lookup_concat(head, tail, key);
        lemma_lookup_one(last.0, last.1, key);
        if lookup(head, last.0) is Some {
        } else {
            let firsts = first_entries(head);
            assert(first_entries(o) =~= firsts + tail);
            lemma_lookup_concat(firsts, tail, key);
            lemma_lookup_finds_entries(firsts, last.0);
            assert forall|i: int, j: int| 0 <= i < j < first_entries(o).len() implies
                #[trigger] first_entries(o)[i].0 != #[trigger] first_entries(o)[j].0 by {
                if j < firsts.len() {
                    assert(first_entries(o)[i] == firsts[i]);
                    assert(first_entries(o)[j] == firsts[j]);
                } else {
                    assert(first_entries(o)[i] == firsts[i]);
                    assert(first_entries(o)[j] == last);
                }
            }
        }
    }
}

/// A lookup in two lists of entries, one after the other, finds what the
/// first list holds under the key, and else what the second holds.
pub proof fn lemma_lookup_concat(a: ObjectModel, b: ObjectModel, key: Seq<char>)
    ensures
        lookup(a + b, key) == if lookup(a, key) is Some {
            lookup(a, key)
        } else {
            lookup(b, key)
        },
    decreases a.len(),
{
    if a.len() == 0 {
        assert(a + b =~= b);
    } else {
        assert((a + b).first() == a.first());
        assert((a + b).drop_first() =~= a.drop_first() + b);
        lemma_lookup_concat(a.drop_first(), b, key);
    }
}

/// A lookup in a single entry.
pub proof fn lemma_lookup_one(k: Seq<char>, value: JsonModel, key: Seq<char>)
    ensures
        lookup(seq![(k, value)], key) == if k == key {
            Some(value)
        } else {
            None
        },
{
    let o = seq![(k, value)];
    assert(o.first() == (k, value));
    assert(o.drop_first() =~= Seq::<(Seq<char>, JsonModel)>::empty());
    assert(lookup(o.drop_first(), key) is None);
}

/// Where every key of a list of entries is among `keys`, nothing is left
/// without them.
pub proof fn lemma_without_all_keys(o: ObjectModel, keys: Seq<Seq<char>>)
    requires
        forall|i: int| 0 <= i < o.len() ==> keys.contains(#[trigger] o[i].0),
    ensures
        without_keys(o, keys) == Seq::<(Seq<char>, JsonModel)>::empty(),
    decreases o.len(),
{
    reveal(Seq::filter);
    if o.len() > 0 {
        lemma_without_all_keys(o.drop_last(), keys);
        assert(keys.contains(o[o.len() - 1].0));
    }
}

/// Leaving out the entries under `keys` takes away what stood under those
/// keys and keeps what stood under any other key.
pub proof fn lemma_lookup_without_keys(o: ObjectModel, keys: Seq<Seq<char>>, key: Seq<char>)
    ensures
        lookup(without_keys(o, keys), key) == if keys.contains(key) {
            None
        } else {
            lookup(o, key)
        },
    decreases o.len(),
{
    reveal(Seq::filter);
    if o.len() == 0 {
    } else {
        let head = o.drop_last();
        let last = o.last();
        let tail = seq![last];
        lemma_lookup_without_keys(head, keys, key);
        assert(o =~= head + tail);
        lemma_lookup_concat(head, tail, key);
        lemma_lookup_one(last.0, last.1, key);
        if keys.contains(last.0) {
            assert(without_keys(o, keys) == without_keys(head, keys));
        } else {
            assert(without_keys(o, keys) =~= without_keys(head, keys) + tail);
            lemma_lookup_concat(without_keys(head, keys), tail, key);
        }
    }
}

/// The predicate that keeps the entries whose keys are not among `keys`.
pub open spec fn key_not_among(keys: Seq<Seq<char>>) -> spec_fn((Seq<char>, JsonModel)) -> bool {
    |entry: (Seq<char>, JsonModel)| !keys.contains(entry.0)
}

/// Whether `key` is one of `keys`.
pub fn key_among(keys: &Vec<&str>, key: &str) -> (r: bool)
    ensures
        r == keys.deep_view().contains(key@),
{
    let mut i: usize = 0;
    while i < keys.len()
        invariant
            i <= keys.len(),
            forall|j: int| 0 <= j < i ==> keys.deep_view()[j] != key@,
        decreases keys.len() - i,
    {
        if text_eq(keys[i], key) {
            assert(keys.deep_view()[i as int] == key@);
            return true;
        }
        i += 1;
    }
    false
}

/// Copies a list of documents.
pub fn clone_items(items: &Vec<JsonValue>) -> (r: Vec<JsonValue>)
    ensures
        items_model(r@) == items_model(items@),
    decreases items,
{
    let mut out: Vec<JsonValue> = Vec::new();
    let mut i: usize = 0;
    while i < items.len()
        invariant
            i <= items.len(),
            out.len() == i,
            forall|j: int| 0 <= j < i ==> out@[j]@ == items@[j]@,
        decreases items.len() - i,
    {
        out.push(items[i].clone());
        i += 1;
    }
    assert(items_model(out@) =~= items_model(items@));
    out
}

/// Copies a list of entries.
pub fn clone_entries(entries: &Vec<(String, JsonValue)>) -> (r: Vec<(String, JsonValue)>)
    ensures
        entries_model(r@) == entries_model(entries@),
    decreases entries,
{
    let mut out: Vec<(String, JsonValue)> = Vec::new();
    let mut i: usize = 0;
    while i < entries.len()
        invariant
            i <= entries.len(),
            out.len() == i,
            forall|j: int|
                0 <= j < i ==> out@[j].0@ == entries@[j].0@ && out@[j].1@ == entries@[j].1@,
        decreases entries.len() - i,
    {
        out.push((entries[i].0.clone(), entries[i].1.clone()));
        i += 1;
    }
    assert(entries_model(out@) =~= entries_model(entries@));
    out
}

impl Clone for JsonValue {
    fn clone(&self) -> (r: JsonValue)
        ensures
            r@ == self@,
        decreases self,
    {
        match self {
            JsonValue::Null => JsonValue::Null,
            JsonValue::Bool(b) => JsonValue::Bool(*b),
            JsonValue::Number(n) => JsonValue::Number(number_clone(n)),
            JsonValue::String(s) => JsonValue::String(s.clone()),
            JsonValue::Array(items) => JsonValue::Array(clone_items(items)),
            JsonValue::Object(o) => JsonValue::Object(
                JsonObject { entries: clone_entries(&o.entries) },
            ),
        }
    }
}

impl Clone for JsonObject {
    fn clone(&self) -> (r: JsonObject)
        ensures
            r@ == self@,
    {
        JsonObject { entries: clone_entries(&self.entries) }
    }
}

impl JsonValue {
    /// The JSON string with the given text.
    pub fn text(value: &str) -> (r: JsonValue)
        ensures
            r@ == JsonModel::String(value@),
    {
        JsonValue::String(value.to_owned())
    }

    /// The JSON number for an unsigned integer.
    pub fn unsigned(value: u64) -> (r: JsonValue)
        ensures
            r@ == integer_json(value as int),
    {
        JsonValue::Number(number_from_u64(value))
    }

    /// The JSON number for a signed integer.
    pub fn signed(value: i64) -> (r: JsonValue)
        ensures
            r@ == integer_json(value as int),
    {
        JsonValue::Number(number_from_i64(value))
    }

    /// The JSON array of the given strings.
    pub fn texts(values: &Vec<String>) -> (r: JsonValue)
        ensures
            r@ == texts_json(values.deep_view()),
    {
        let mut out: Vec<JsonValue> = Vec::new();
        let mut i: usize = 0;
        while i < values.len()
            invariant
                i <= values.len(),
                out.len() == i,
                forall|j: int| 0 <= j < i ==> out@[j]@ == JsonModel::String(values@[j]@),
            decreases values.len() - i,
        {
            out.push(JsonValue::String(values[i].clone()));
            i += 1;
        }
        let r = JsonValue::Array(out);
        assert(r@->Array_0 =~= texts_json(values.deep_view())->Array_0);
        r
    }

    /// The JSON object of the given boolean entries.
    pub fn flags(values: &Vec<(String, bool)>) -> (r: JsonValue)
        ensures
            r@ == flags_json(values.deep_view()),
    {
        let mut out: Vec<(String, JsonValue)> = Vec::new();
        let mut i: usize = 0;
        while i < values.len()
            invariant
                i <= values.len(),
                out.len() == i,
                forall|j: int|
                    0 <= j < i ==> out@[j].0@ == values@[j].0@ && out@[j].1@ == JsonModel::Bool(
                        values@[j].1,
                    ),
            decreases values.len() - i,
        {
            out.push((values[i].0.clone(), JsonValue::Bool(values[i].1)));
            i += 1;
        }
        let r = JsonValue::Object(JsonObject { entries: out });
        assert(r@->Object_0 =~= flags_json(values.deep_view())->Object_0);
        r
    }

    /// Whether the document is `null`.
    pub fn is_null(&self) -> (r: bool)
        ensures
            r == (self@ is Null),
    {
        match self {
            JsonValue::Null => true,
            _ => false,
        }
    }

    /// A copy of the text of a JSON string.
    pub fn to_text(&self) -> (r: Option<String>)
        ensures
            r.deep_view() == text_of(self@),
    {
        match self {
            JsonValue::String(s) => Some(s.clone()),
            _ => None,
        }
    }

    /// The value of a JSON boolean.
    pub fn to_bool(&self) -> (r: Option<bool>)
        ensures
            r == bool_of(self@),
    {
        match self {
            JsonValue::Bool(b) => Some(*b),
            _ => None,
        }
    }

    /// The value of a JSON integer that fits `u64`.
    pub fn to_u64(&self) -> (r: Option<u64>)
        ensures
            r == u64_of(self@),
    {
        match self {
            JsonValue::Number(n) => number_as_u64(n),
            _ => None,
        }
    }

    /// The value of a JSON integer that fits `i64`.
    pub fn to_i64(&self) -> (r: Option<i64>)
        ensures
            r == i64_of(self@),
    {
        match self {
            JsonValue::Number(n) => number_as_i64(n),
            _ => None,
        }
    }

    /// The value of a JSON integer that fits `u32`.
    pub fn to_u32(&self) -> (r: Option<u32>)
        ensures
            r == u32_of(self@),
    {
        match self.to_u64() {
            Some(u) => if u <= 0xffff_ffff {
                Some(u as u32)
            } else {
                None
            },
            None => None,
        }
    }

    /// The value of a JSON integer that fits `i32`.
    pub fn to_i32(&self) -> (r: Option<i32>)
        ensures
            r == i32_of(self@),
    {
        match self.to_i64() {
            Some(i) => if -0x8000_0000 <= i && i <= 0x7fff_ffff {
                Some(i as i32)
            } else {
                None
            },
            None => None,
        }
    }

    /// A copy of the entries of a JSON object.
    pub fn to_object(&self) -> (r: Option<JsonObject>)
        ensures
            r.deep_view() == object_of(self@),
    {
        match self {
            JsonValue::Object(o) => Some(o.clone()),
            _ => None,
        }
    }

    /// A copy of the items of a JSON array.
    pub fn to_items(&self) -> (r: Option<Vec<JsonValue>>)
        ensures
            r.deep_view() == items_of(self@),
    {
        match self {
            JsonValue::Array(items) => {
                let out = clone_items(items);
                assert(out.deep_view() =~= items_model(out@));
                Some(out)
            },
            _ => None,
        }
    }

    /// Copies of the texts of a JSON array of strings.
    pub fn to_texts(&self) -> (r: Option<Vec<String>>)
        ensures
            r.deep_view() == texts_of(self@),
    {
        match self {
            JsonValue::Array(items) => {
                let mut out: Vec<String> = Vec::new();
                let mut i: usize = 0;
                while i < items.len()
                    invariant
                        i <= items.len(),
                        out.len() == i,
                        self@ == JsonModel::Array(items_model(items@)),
                        forall|j: int| 0 <= j < i ==> items@[j]@ == JsonModel::String(out@[j]@),
                    decreases items.len() - i,
                {
                    match &items[i] {
                        JsonValue::String(s) => {
                            out.push(s.clone());
                        },
                        _ => {
                            assert(!(items_model(items@)[i as int] is String));
                            return None;
                        },
                    }
                    i += 1;
                }
                assert forall|j: int| 0 <= j < items@.len() implies items_model(
                    items@,
                )[j] is String by {
                    assert(items@[j]@ == JsonModel::String(out@[j]@));
                }
                assert(out.deep_view() =~= texts_of(self@)->0);
                Some(out)
            },
            _ => None,
        }
    }

    /// Copies of the entries of a JSON object whose values are all booleans.
    pub fn to_flags(&self) -> (r: Option<Vec<(String, bool)>>)
        ensures
            r.deep_view() == flags_of(self@),
    {
        match self {
            JsonValue::Object(o) => {
                let mut out: Vec<(String, bool)> = Vec::new();
                let mut i: usize = 0;
                while i < o.entries.len()
                    invariant
                        i <= o.entries.len(),
                        out.len() == i,
                        self@ == JsonModel::Object(o@),
                        forall|j: int|
                            0 <= j < i ==> o@[j].0 == out@[j].0@ && o@[j].1 == JsonModel::Bool(
                                out@[j].1,
                            ),
                    decreases o.entries.len() - i,
                {
                    match &o.entries[i].1 {
                        JsonValue::Bool(b) => {
                            out.push((o.entries[i].0.clone(), *b));
                        },
                        _ => {
                            assert(!(o@[i as int].1 is Bool));
                            return None;
                        },
                    }
                    i += 1;
                }
                assert(out.deep_view() =~= flags_of(self@)->0);
                Some(out)
            },
            _ => None,
        }
    }
}

impl JsonObject {
    /// An object without entries.
    pub fn new() -> (r: JsonObject)
        ensures
            r@ == Seq::<(Seq<char>, JsonModel)>::empty(),
    {
        let r = JsonObject { entries: Vec::new() };
        assert(r@ =~= Seq::<(Seq<char>, JsonModel)>::empty());
        r
    }

    /// The number of entries.
    pub fn len(&self) -> (r: usize)
        ensures
            r == self@.len(),
    {
        self.entries.len()
    }

    /// The value of the first entry with the given key.
    pub fn get(&self, key: &str) -> (r: Option<&JsonValue>)
        ensures
            r matches Some(v) ==> lookup(self@, key@) == Some(v@),
            r is None ==> lookup(self@, key@) is None,
    {
        let mut i: usize = 0;
        assert(self@.skip(0) =~= self@);
        while i < self.entries.len()
            invariant
                i <= self.entries.len(),
                lookup(self@, key@) == lookup(self@.skip(i as int), key@),
            decreases self.entries.len() - i,
        {
            assert(self@.skip(i as int).first() == self@[i as int]);
            if text_eq(self.entries[i].0.as_str(), key) {
                return Some(&self.entries[i].1);
            }
            assert(self@.skip(i as int).drop_first() =~= self@.skip(i as int + 1));
            i += 1;
        }
        None
    }

    /// Whether some entry has the given key.
    pub fn contains_key(&self, key: &str) -> (r: bool)
        ensures
            r == lookup(self@, key@).is_some(),
    {
        self.get(key).is_some()
    }

    /// Adds an entry at the end. Where an entry with the same key is there
    /// already, the object then holds two under that key: lookups go on
    /// finding the earlier one, and only the earlier one is written when the
    /// object goes out as text. `insert` keeps one entry per key.
    pub fn push(&mut self, key: String, value: JsonValue)
        ensures
            final(self)@ == old(self)@.push((key@, value@)),
            forall|k: Seq<char>|
                #[trigger] lookup(final(self)@, k) == if lookup(old(self)@, k) is Some {
                    lookup(old(self)@, k)
                } else if k == key@ {
                    Some(value@)
                } else {
                    None
                },
    {
        self.entries.push((key, value));
        assert(self@ =~= old(self)@.push((key@, value@)));
        assert forall|k: Seq<char>|
            #[trigger] lookup(self@, k) == if lookup(old(self)@, k) is Some {
                lookup(old(self)@, k)
            } else if k == key@ {
                Some(value@)
            } else {
                None
            } by {
            assert(self@ =~= old(self)@ + seq![(key@, value@)]);
            lemma_lookup_concat(old(self)@, seq![(key@, value@)], k);
            lemma_lookup_one(key@, value@, k);
        }
    }

    /// Adds a copy of each entry of `other` at the end, in order. Under a
    /// key that both hold, lookups go on finding the entry that was there.
    pub fn extend(&mut self, other: &JsonObject)
        ensures
            final(self)@ == old(self)@ + other@,
            forall|k: Seq<char>|
                #[trigger] lookup(final(self)@, k) == if lookup(old(self)@, k) is Some {
                    lookup(old(self)@, k)
                } else {
                    lookup(other@, k)
                },
    {
        let mut i: usize = 0;
        while i < other.entries.len()
            invariant
                i <= other.entries.len(),
                self@ == old(self)@ + other@.take(i as int),
            decreases other.entries.len() - i,
        {
            self.push(other.entries[i].0.clone(), other.entries[i].1.clone());
            assert(self@ =~= old(self)@ + other@.take(i as int + 1));
            i += 1;
        }
        assert(other@.take(i as int) =~= other@);
        assert forall|k: Seq<char>|
            #[trigger] lookup(self@, k) == if lookup(old(self)@, k) is Some {
                lookup(old(self)@, k)
            } else {
                lookup(other@, k)
            } by {
            lemma_lookup_concat(old(self)@, other@, k);
        }
    }

    /// Stores `value` under `key`: in place of the first entry with that
    /// key, or at the end when there is none.
    pub fn insert(&mut self, key: String, value: JsonValue)
        ensures
            final(self)@ == with_entry(old(self)@, key@, value@),
    {
        let mut i: usize = 0;
        assert(self@.skip(0) =~= self@);
        assert(self@.take(0) + with_entry(self@, key@, value@) =~= with_entry(self@, key@, value@));
        while i < self.entries.len()
            invariant
                i <= self.entries.len(),
                self == old(self),
                with_entry(self@, key@, value@) == self@.take(i as int) + with_entry(
                    self@.skip(i as int),
                    key@,
                    value@,
                ),
            decreases self.entries.len() - i,
        {
            assert(self@.skip(i as int).first() == self@[i as int]);
            if text_eq(self.entries[i].0.as_str(), key.as_str()) {
                let ghost tail = self@.skip(i as int).drop_first();
                let ghost head = self@.take(i as int);
                self.entries.set(i, (key, value));
                assert(self@ =~= head + (seq![(key@, value@)] + tail));
                return ;
            }
            assert(self@.skip(i as int).drop_first() =~= self@.skip(i as int + 1));
            assert(self@.take(i as int) + (seq![self@[i as int]] + with_entry(
                self@.skip(i as int + 1),
                key@,
                value@,
            )) =~= self@.take(i as int + 1) + with_entry(self@.skip(i as int + 1), key@, value@));
            i += 1;
        }
        assert(self@.take(i as int) =~= self@);
        assert(self@ + seq![(key@, value@)] =~= self@.push((key@, value@)));
        self.push(key, value);
    }

    /// A copy of the entries whose keys are not among `keys`, in order.
    pub fn without(&self, keys: &Vec<&str>) -> (r: JsonObject)
        ensures
            r@ == without_keys(self@, keys.deep_view()),
    {
        let mut out = JsonObject::new();
        let mut i: usize = 0;
        assert(self@.take(0) =~= Seq::<(Seq<char>, JsonModel)>::empty());
        proof {
            reveal(Seq::filter);
        }
        while i < self.entries.len()
            invariant
                i <= self.entries.len(),
                out@ == without_keys(self@.take(i as int), keys.deep_view()),
            decreases self.entries.len() - i,
        {
            proof {
                reveal(Seq::filter);
            }
            assert(self@.take(i as int + 1).drop_last() =~= self@.take(i as int));
            assert(self@.take(i as int + 1).last() == self@[i as int]);
            if !key_among(keys, self.entries[i].0.as_str()) {
                out.push(self.entries[i].0.clone(), self.entries[i].1.clone());
            }
            i += 1;
        }
        assert(self@.take(i as int) =~= self@);
        out
    }
}

} // verus!
