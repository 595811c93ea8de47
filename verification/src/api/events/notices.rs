//! Payloads of the events that the gateway sends.

use crate::json::{
    any_of, bool_of, i32_of, i64_of, items_model, items_of, lookup, object_of, text_of, texts_of,
    u32_of, u64_of, without_keys, JsonModel, JsonObject, JsonValue, ObjectModel,
};
use crate::schema::{
    defaulted, defaulted_texts, defaulted_values, entry, lemma_keys_among_concat,
    lemma_keys_among_one, lemma_other_fields_follow, optional, optional_bool, optional_bool_entry,
    optional_entry, optional_i32, optional_i32_entry, optional_i64, optional_i64_entry,
    optional_object, optional_object_entry, optional_text, optional_text_entry, optional_u32,
    optional_u32_entry, optional_u64, optional_u64_entry, optional_value, optional_value_entry,
    put_json, put_optional_bool, put_optional_i32, put_optional_i64, put_optional_object,
    put_optional_text, put_optional_u32, put_optional_u64, put_optional_value, put_text, put_texts,
    put_values, required, required_text, text_entry, texts_entry, values_entry,
};
use vstd::prelude::*;

verus! {

/// One connected instance.
#[derive(Debug, PartialEq, Eq)]
pub struct PresenceEntry {
    pub instance_id: Option<String>,
    pub host: Option<String>,
    pub ip: Option<String>,
    pub version: Option<String>,
    pub device_family: Option<String>,
    pub model_identifier: Option<String>,
    pub mode: Option<String>,
    pub last_input_seconds: Option<u64>,
    pub reason: Option<String>,
    pub ts: Option<i64>,
    pub tags: Vec<String>,
    /// The fields that the type does not declare.
    pub extra: JsonObject,
}

/// The model of [`PresenceEntry`].
pub struct PresenceEntryModel {
    pub instance_id: Option<Seq<char>>,
    pub host: Option<Seq<char>>,
    pub ip: Option<Seq<char>>,
    pub version: Option<Seq<char>>,
    pub device_family: Option<Seq<char>>,
    pub model_identifier: Option<Seq<char>>,
    pub mode: Option<Seq<char>>,
    pub last_input_seconds: Option<u64>,
    pub reason: Option<Seq<char>>,
    pub ts: Option<i64>,
    pub tags: Seq<Seq<char>>,
    pub extra: ObjectModel,
}

impl DeepView for PresenceEntry {
    type V = PresenceEntryModel;

    open spec fn deep_view(&self) -> PresenceEntryModel {
        PresenceEntryModel {
            instance_id: self.instance_id.deep_view(),
            host: self.host.deep_view(),
            ip: self.ip.deep_view(),
            version: self.version.deep_view(),
            device_family: self.device_family.deep_view(),
            model_identifier: self.model_identifier.deep_view(),
            mode: self.mode.deep_view(),
            last_input_seconds: self.last_input_seconds.deep_view(),
            reason: self.reason.deep_view(),
            ts: self.ts.deep_view(),
            tags: self.tags.deep_view(),
            extra: self.extra.deep_view(),
        }
    }
}

impl PresenceEntryModel {
    /// The keys of the declared fields.
    pub open spec fn keys() -> Seq<Seq<char>> {
        seq![
            "instanceId"@, "host"@, "ip"@, "version"@, "deviceFamily"@, "modelIdentifier"@, "mode"@,
            "lastInputSeconds"@, "reason"@, "ts"@, "tags"@,
        ]
    }

    /// What a document decodes to: nothing unless it is an object whose
    /// declared fields all have their types.
    pub open spec fn decoded(m: JsonModel) -> Option<PresenceEntryModel> {
        match m {
            JsonModel::Object(o) => {
                let instance_id = optional(o, "instanceId"@, |m: JsonModel| text_of(m));
                let host = optional(o, "host"@, |m: JsonModel| text_of(m));
                let ip = optional(o, "ip"@, |m: JsonModel| text_of(m));
                let version = optional(o, "version"@, |m: JsonModel| text_of(m));
                let device_family = optional(o, "deviceFamily"@, |m: JsonModel| text_of(m));
                let model_identifier = optional(o, "modelIdentifier"@, |m: JsonModel| text_of(m));
                let mode = optional(o, "mode"@, |m: JsonModel| text_of(m));
                let last_input_seconds = optional(o, "lastInputSeconds"@, |m: JsonModel| u64_of(m));
                let reason = optional(o, "reason"@, |m: JsonModel| text_of(m));
                let ts = optional(o, "ts"@, |m: JsonModel| i64_of(m));
                let tags = defaulted(o, "tags"@, |m: JsonModel| texts_of(m), Seq::empty());
                if instance_id is Some && host is Some && ip is Some && version is Some
                    && device_family is Some && model_identifier is Some && mode is Some
                    && last_input_seconds is Some && reason is Some && ts is Some && tags is Some {
                    Some(
                        PresenceEntryModel {
                            instance_id: instance_id->0,
                            host: host->0,
                            ip: ip->0,
                            version: version->0,
                            device_family: device_family->0,
                            model_identifier: model_identifier->0,
                            mode: mode->0,
                            last_input_seconds: last_input_seconds->0,
                            reason: reason->0,
                            ts: ts->0,
                            tags: tags->0,
                            extra: without_keys(o, Self::keys()),
                        },
                    )
                } else {
                    None
                }
            },
            _ => None,
        }
    }

    /// The document that a value is written as: the declared fields in
    /// order, then the others.
    pub open spec fn encoded(self) -> JsonModel {
        JsonModel::Object(
            optional_text_entry("instanceId"@, self.instance_id)
                + optional_text_entry("host"@, self.host)
                + optional_text_entry("ip"@, self.ip)
                + optional_text_entry("version"@, self.version)
                + optional_text_entry("deviceFamily"@, self.device_family)
                + optional_text_entry("modelIdentifier"@, self.model_identifier)
                + optional_text_entry("mode"@, self.mode)
                + optional_u64_entry("lastInputSeconds"@, self.last_input_seconds)
                + optional_text_entry("reason"@, self.reason)
                + optional_i64_entry("ts"@, self.ts)
                + texts_entry("tags"@, self.tags)
                + self.extra,
        )
    }

    /// The document of an optional value.
    pub open spec fn encoded_optional(value: Option<PresenceEntryModel>) -> Option<JsonModel> {
        match value {
            Some(v) => Some(v.encoded()),
            None => None,
        }
    }

    /// A field that the type does not declare is written back as it was
    /// read.
    pub proof fn lemma_other_fields_survive(m: JsonModel, key: Seq<char>)
        requires
            Self::decoded(m) is Some,
            !Self::keys().contains(key),
        ensures
            m is Object,
            lookup(Self::decoded(m)->0.encoded()->Object_0, key) == lookup(m->Object_0, key),
    {
        let o = m->Object_0;
        let v = Self::decoded(m)->0;
        let keys = Self::keys();
        let e1 = optional_text_entry("instanceId"@, v.instance_id);
        lemma_keys_among_one(e1, "instanceId"@, keys, 0);
        let e2 = optional_text_entry("host"@, v.host);
        lemma_keys_among_one(e2, "host"@, keys, 1);
        let e3 = optional_text_entry("ip"@, v.ip);
        lemma_keys_among_one(e3, "ip"@, keys, 2);
        let e4 = optional_text_entry("version"@, v.version);
        lemma_keys_among_one(e4, "version"@, keys, 3);
        let e5 = optional_text_entry("deviceFamily"@, v.device_family);
        lemma_keys_among_one(e5, "deviceFamily"@, keys, 4);
        let e6 = optional_text_entry("modelIdentifier"@, v.model_identifier);
        lemma_keys_among_one(e6, "modelIdentifier"@, keys, 5);
        let e7 = optional_text_entry("mode"@, v.mode);
        lemma_keys_among_one(e7, "mode"@, keys, 6);
        let e8 = optional_u64_entry("lastInputSeconds"@, v.last_input_seconds);
        lemma_keys_among_one(e8, "lastInputSeconds"@, keys, 7);
        let e9 = optional_text_entry("reason"@, v.reason);
        lemma_keys_among_one(e9, "reason"@, keys, 8);
        let e10 = optional_i64_entry("ts"@, v.ts);
        lemma_keys_among_one(e10, "ts"@, keys, 9);
        let e11 = texts_entry("tags"@, v.tags);
        lemma_keys_among_one(e11, "tags"@, keys, 10);
        lemma_keys_among_concat(e1, e2, keys);
        lemma_keys_among_concat(e1 + e2, e3, keys);
        lemma_keys_among_concat(e1 + e2 + e3, e4, keys);
        lemma_keys_among_concat(e1 + e2 + e3 + e4, e5, keys);
        lemma_keys_among_concat(e1 + e2 + e3 + e4 + e5, e6, keys);
        lemma_keys_among_concat(e1 + e2 + e3 + e4 + e5 + e6, e7, keys);
        lemma_keys_among_concat(e1 + e2 + e3 + e4 + e5 + e6 + e7, e8, keys);
        lemma_keys_among_concat(e1 + e2 + e3 + e4 + e5 + e6 + e7 + e8, e9, keys);
        lemma_keys_among_concat(e1 + e2 + e3 + e4 + e5 + e6 + e7 + e8 + e9, e10, keys);
        lemma_keys_among_concat(e1 + e2 + e3 + e4 + e5 + e6 + e7 + e8 + e9 + e10, e11, keys);
        lemma_other_fields_follow(
            e1 + e2 + e3 + e4 + e5 + e6 + e7 + e8 + e9 + e10 + e11,
            o,
            keys,
            key,
        );
    }

    /// What an array of documents decodes to: nothing unless each item
    /// decodes.
    pub open spec fn decoded_list(m: JsonModel) -> Option<Seq<PresenceEntryModel>> {
        match m {
            JsonModel::Array(items) => if forall|i: int|
                0 <= i < items.len() ==> (#[trigger] Self::decoded(items[i])) is Some {
                Some(Seq::new(items.len(), |i: int| Self::decoded(items[i])->0))
            } else {
                None
            },
            _ => None,
        }
    }

    /// The array that a list of values is written as.
    pub open spec fn encoded_list(items: Seq<PresenceEntryModel>) -> JsonModel {
        JsonModel::Array(Seq::new(items.len(), |i: int| items[i].encoded()))
    }
}

impl PresenceEntry {
    /// The keys of the declared fields.
    pub fn keys() -> (r: Vec<&'static str>)
        ensures
            r.deep_view() == PresenceEntryModel::keys(),
    {
        let r = vec![
            "instanceId", "host", "ip", "version", "deviceFamily", "modelIdentifier", "mode",
            "lastInputSeconds", "reason", "ts", "tags",
        ];
        assert(r.deep_view() =~= PresenceEntryModel::keys());
        r
    }

    /// Decodes a document; the fields that the type does not declare are
    /// kept in `extra`.
    pub fn decode(value: &JsonValue) -> (r: Option<PresenceEntry>)
        ensures
            r.deep_view() == PresenceEntryModel::decoded(value@),
    {
        let o = match value {
            JsonValue::Object(o) => o,
            _ => {
                return None;
            },
        };
        let instance_id = optional_text(o, "instanceId")?;
        let host = optional_text(o, "host")?;
        let ip = optional_text(o, "ip")?;
        let version = optional_text(o, "version")?;
        let device_family = optional_text(o, "deviceFamily")?;
        let model_identifier = optional_text(o, "modelIdentifier")?;
        let mode = optional_text(o, "mode")?;
        let last_input_seconds = optional_u64(o, "lastInputSeconds")?;
        let reason = optional_text(o, "reason")?;
        let ts = optional_i64(o, "ts")?;
        let tags = defaulted_texts(o, "tags")?;
        let extra = o.without(&Self::keys());
        Some(
            PresenceEntry {
                instance_id,
                host,
                ip,
                version,
                device_family,
                model_identifier,
                mode,
                last_input_seconds,
                reason,
                ts,
                tags,
                extra,
            },
        )
    }

    /// Encodes the value as a document.
    pub fn encode(&self) -> (r: JsonValue)
        ensures
            r@ == self.deep_view().encoded(),
    {
        let mut o = JsonObject::new();
        put_optional_text(&mut o, "instanceId", &self.instance_id);
        put_optional_text(&mut o, "host", &self.host);
        put_optional_text(&mut o, "ip", &self.ip);
        put_optional_text(&mut o, "version", &self.version);
        put_optional_text(&mut o, "deviceFamily", &self.device_family);
        put_optional_text(&mut o, "modelIdentifier", &self.model_identifier);
        put_optional_text(&mut o, "mode", &self.mode);
        put_optional_u64(&mut o, "lastInputSeconds", &self.last_input_seconds);
        put_optional_text(&mut o, "reason", &self.reason);
        put_optional_i64(&mut o, "ts", &self.ts);
        put_texts(&mut o, "tags", &self.tags);
        o.extend(&self.extra);
        let r = JsonValue::Object(o);
        assert(r@->Object_0 =~= self.deep_view().encoded()->Object_0);
        r
    }

    /// Decodes an array of documents.
    pub fn decode_list(value: &JsonValue) -> (r: Option<Vec<PresenceEntry>>)
        ensures
            r.deep_view() == PresenceEntryModel::decoded_list(value@),
    {
        match value {
            JsonValue::Array(items) => {
                let mut out: Vec<PresenceEntry> = Vec::new();
                let mut i: usize = 0;
                while i < items.len()
                    invariant
                        i <= items.len(),
                        out.len() == i,
                        value@ == JsonModel::Array(items_model(items@)),
                        forall|j: int|
                            0 <= j < i ==> PresenceEntryModel::decoded(items@[j]@) == Some(
                                out@[j].deep_view(),
                            ),
                    decreases items.len() - i,
                {
                    match PresenceEntry::decode(&items[i]) {
                        Some(item) => {
                            out.push(item);
                        },
                        None => {
                            assert(
                                PresenceEntryModel::decoded(items_model(items@)[i as int]) is None
                            );
                            return None;
                        },
                    }
                    i += 1;
                }
                assert forall|j: int| 0 <= j < items@.len() implies
                    (#[trigger] PresenceEntryModel::decoded(items_model(items@)[j])) is Some by {
                    assert(PresenceEntryModel::decoded(items@[j]@) == Some(out@[j].deep_view()));
                }
                assert(out.deep_view() =~= PresenceEntryModel::decoded_list(value@)->0);
                Some(out)
            },
            _ => None,
        }
    }

    /// Encodes a list of values as an array.
    pub fn encode_list(items: &Vec<PresenceEntry>) -> (r: JsonValue)
        ensures
            r@ == PresenceEntryModel::encoded_list(items.deep_view()),
    {
        let mut out: Vec<JsonValue> = Vec::new();
        let mut i: usize = 0;
        while i < items.len()
            invariant
                i <= items.len(),
                out.len() == i,
                forall|j: int| 0 <= j < i ==> out@[j]@ == items@[j].deep_view().encoded(),
            decreases items.len() - i,
        {
            out.push(items[i].encode());
            i += 1;
        }
        let r = JsonValue::Array(out);
        assert(r@->Array_0 =~= PresenceEntryModel::encoded_list(items.deep_view())->Array_0);
        r
    }
}

/// The instances that are connected.
#[derive(Debug, PartialEq, Eq)]
pub struct PresenceEvent {
    pub entries: Vec<PresenceEntry>,
    /// The fields that the type does not declare.
    pub extra: JsonObject,
}

/// The model of [`PresenceEvent`].
pub struct PresenceEventModel {
    pub entries: Seq<PresenceEntryModel>,
    pub extra: ObjectModel,
}

impl DeepView for PresenceEvent {
    type V = PresenceEventModel;

    open spec fn deep_view(&self) -> PresenceEventModel {
        PresenceEventModel {
            entries: self.entries.deep_view(),
            extra: self.extra.deep_view(),
        }
    }
}

impl PresenceEventModel {
    /// The keys of the declared fields.
    pub open spec fn keys() -> Seq<Seq<char>> {
        seq!["entries"@]
    }

    /// What a document decodes to: nothing unless it is an object whose
    /// declared fields all have their types.
    pub open spec fn decoded(m: JsonModel) -> Option<PresenceEventModel> {
        match m {
            JsonModel::Object(o) => {
                let entries = defaulted(
                    o,
                    "entries"@,
                    |m: JsonModel| PresenceEntryModel::decoded_list(m),
                    Seq::empty(),
                );
                if entries is Some {
                    Some(
                        PresenceEventModel {
                            entries: entries->0,
                            extra: without_keys(o, Self::keys()),
                        },
                    )
                } else {
                    None
                }
            },
            _ => None,
        }
    }

    /// The document that a value is written as: the declared fields in
    /// order, then the others.
    pub open spec fn encoded(self) -> JsonModel {
        JsonModel::Object(
            entry("entries"@, PresenceEntryModel::encoded_list(self.entries))
                + self.extra,
        )
    }

    /// The document of an optional value.
    pub open spec fn encoded_optional(value: Option<PresenceEventModel>) -> Option<JsonModel> {
        match value {
            Some(v) => Some(v.encoded()),
            None => None,
        }
    }

    /// A field that the type does not declare is written back as it was
    /// read.
    pub proof fn lemma_other_fields_survive(m: JsonModel, key: Seq<char>)
        requires
            Self::decoded(m) is Some,
            !Self::keys().contains(key),
        ensures
            m is Object,
            lookup(Self::decoded(m)->0.encoded()->Object_0, key) == lookup(m->Object_0, key),
    {
        let o = m->Object_0;
        let v = Self::decoded(m)->0;
        let keys = Self::keys();
        let e1 = entry("entries"@, PresenceEntryModel::encoded_list(v.entries));
        lemma_keys_among_one(e1, "entries"@, keys, 0);
        lemma_other_fields_follow(e1, o, keys, key);
    }
}

impl PresenceEvent {
    /// The keys of the declared fields.
    pub fn keys() -> (r: Vec<&'static str>)
        ensures
            r.deep_view() == PresenceEventModel::keys(),
    {
        let r = vec!["entries"];
        assert(r.deep_view() =~= PresenceEventModel::keys());
        r
    }

    /// Decodes a document; the fields that the type does not declare are
    /// kept in `extra`.
    pub fn decode(value: &JsonValue) -> (r: Option<PresenceEvent>)
        ensures
            r.deep_view() == PresenceEventModel::decoded(value@),
    {
        let o = match value {
            JsonValue::Object(o) => o,
            _ => {
                return None;
            },
        };
        let entries = match o.get("entries") {
            None => {
                let empty: Vec<PresenceEntry> = Vec::new();
                assert(empty.deep_view() =~= Seq::empty());
                empty
            },
            Some(v) => PresenceEntry::decode_list(v)?,
        };
        let extra = o.without(&Self::keys());
        Some(PresenceEvent { entries, extra })
    }

    /// Encodes the value as a document.
    pub fn encode(&self) -> (r: JsonValue)
        ensures
            r@ == self.deep_view().encoded(),
    {
        let mut o = JsonObject::new();
        put_json(&mut o, "entries", PresenceEntry::encode_list(&self.entries));
        o.extend(&self.extra);
        let r = JsonValue::Object(o);
        assert(r@->Object_0 =~= self.deep_view().encoded()->Object_0);
        r
    }
}

/// The gateway is about to stop.
#[derive(Debug, PartialEq, Eq)]
pub struct ShutdownEvent {
    pub reason: Option<String>,
    pub restart_expected_ms: Option<u64>,
    /// The fields that the type does not declare.
    pub extra: JsonObject,
}

/// The model of [`ShutdownEvent`].
pub struct ShutdownEventModel {
    pub reason: Option<Seq<char>>,
    pub restart_expected_ms: Option<u64>,
    pub extra: ObjectModel,
}

impl DeepView for ShutdownEvent {
    type V = ShutdownEventModel;

    open spec fn deep_view(&self) -> ShutdownEventModel {
        ShutdownEventModel {
            reason: self.reason.deep_view(),
            restart_expected_ms: self.restart_expected_ms.deep_view(),
            extra: self.extra.deep_view(),
        }
    }
}

impl ShutdownEventModel {
    /// The keys of the declared fields.
    pub open spec fn keys() -> Seq<Seq<char>> {
        seq!["reason"@, "restartExpectedMs"@]
    }

    /// What a document decodes to: nothing unless it is an object whose
    /// declared fields all have their types.
    pub open spec fn decoded(m: JsonModel) -> Option<ShutdownEventModel> {
        match m {
            JsonModel::Object(o) => {
                let reason = optional(o, "reason"@, |m: JsonModel| text_of(m));
                let restart_expected_ms = optional(
                    o,
                    "restartExpectedMs"@,
                    |m: JsonModel| u64_of(m),
                );
                if reason is Some && restart_expected_ms is Some {
                    Some(
                        ShutdownEventModel {
                            reason: reason->0,
                            restart_expected_ms: restart_expected_ms->0,
                            extra: without_keys(o, Self::keys()),
                        },
                    )
                } else {
                    None
                }
            },
            _ => None,
        }
    }

    /// The document that a value is written as: the declared fields in
    /// order, then the others.
    pub open spec fn encoded(self) -> JsonModel {
        JsonModel::Object(
            optional_text_entry("reason"@, self.reason)
                + optional_u64_entry("restartExpectedMs"@, self.restart_expected_ms)
                + self.extra,
        )
    }

    /// The document of an optional value.
    pub open spec fn encoded_optional(value: Option<ShutdownEventModel>) -> Option<JsonModel> {
        match value {
            Some(v) => Some(v.encoded()),
            None => None,
        }
    }

    /// A field that the type does not declare is written back as it was
    /// read.
    pub proof fn lemma_other_fields_survive(m: JsonModel, key: Seq<char>)
        requires
            Self::decoded(m) is Some,
            !Self::keys().contains(key),
        ensures
            m is Object,
            lookup(Self::decoded(m)->0.encoded()->Object_0, key) == lookup(m->Object_0, key),
    {
        let o = m->Object_0;
        let v = Self::decoded(m)->0;
        let keys = Self::keys();
        let e1 = optional_text_entry("reason"@, v.reason);
        lemma_keys_among_one(e1, "reason"@, keys, 0);
        let e2 = optional_u64_entry("restartExpectedMs"@, v.restart_expected_ms);
        lemma_keys_among_one(e2, "restartExpectedMs"@, keys, 1);
        lemma_keys_among_concat(e1, e2, keys);
        lemma_other_fields_follow(e1 + e2, o, keys, key);
    }
}

impl ShutdownEvent {
    /// The keys of the declared fields.
    pub fn keys() -> (r: Vec<&'static str>)
        ensures
            r.deep_view() == ShutdownEventModel::keys(),
    {
        let r = vec!["reason", "restartExpectedMs"];
        assert(r.deep_view() =~= ShutdownEventModel::keys());
        r
    }

    /// Decodes a document; the fields that the type does not declare are
    /// kept in `extra`.
    pub fn decode(value: &JsonValue) -> (r: Option<ShutdownEvent>)
        ensures
            r.deep_view() == ShutdownEventModel::decoded(value@),
    {
        let o = match value {
            JsonValue::Object(o) => o,
            _ => {
                return None;
            },
        };
        let reason = optional_text(o, "reason")?;
        let restart_expected_ms = optional_u64(o, "restartExpectedMs")?;
        let extra = o.without(&Self::keys());
        Some(ShutdownEvent { reason, restart_expected_ms, extra })
    }

    /// Encodes the value as a document.
    pub fn encode(&self) -> (r: JsonValue)
        ensures
            r@ == self.deep_view().encoded(),
    {
        let mut o = JsonObject::new();
        put_optional_text(&mut o, "reason", &self.reason);
        put_optional_u64(&mut o, "restartExpectedMs", &self.restart_expected_ms);
        o.extend(&self.extra);
        let r = JsonValue::Object(o);
        assert(r@->Object_0 =~= self.deep_view().encoded()->Object_0);
        r
    }
}

/// Output, or the end, of a running command.
#[derive(Debug, PartialEq, Eq)]
pub struct ExecOutput {
    pub exec_id: Option<String>,
    pub stream: Option<String>,
    pub data: Option<String>,
    pub encoding: Option<String>,
    pub eof: Option<bool>,
    pub exit_code: Option<i32>,
    pub timestamp_ms: Option<i64>,
    /// The fields that the type does not declare.
    pub extra: JsonObject,
}

/// The model of [`ExecOutput`].
pub struct ExecOutputModel {
    pub exec_id: Option<Seq<char>>,
    pub stream: Option<Seq<char>>,
    pub data: Option<Seq<char>>,
    pub encoding: Option<Seq<char>>,
    pub eof: Option<bool>,
    pub exit_code: Option<i32>,
    pub timestamp_ms: Option<i64>,
    pub extra: ObjectModel,
}

impl DeepView for ExecOutput {
    type V = ExecOutputModel;

    open spec fn deep_view(&self) -> ExecOutputModel {
        ExecOutputModel {
            exec_id: self.exec_id.deep_view(),
            stream: self.stream.deep_view(),
            data: self.data.deep_view(),
            encoding: self.encoding.deep_view(),
            eof: self.eof.deep_view(),
            exit_code: self.exit_code.deep_view(),
            timestamp_ms: self.timestamp_ms.deep_view(),
            extra: self.extra.deep_view(),
        }
    }
}

impl ExecOutputModel {
    /// The keys of the declared fields.
    pub open spec fn keys() -> Seq<Seq<char>> {
        seq!["execId"@, "stream"@, "data"@, "encoding"@, "eof"@, "exitCode"@, "timestampMs"@]
    }

    /// What a document decodes to: nothing unless it is an object whose
    /// declared fields all have their types.
    pub open spec fn decoded(m: JsonModel) -> Option<ExecOutputModel> {
        match m {
            JsonModel::Object(o) => {
                let exec_id = optional(o, "execId"@, |m: JsonModel| text_of(m));
                let stream = optional(o, "stream"@, |m: JsonModel| text_of(m));
                let data = optional(o, "data"@, |m: JsonModel| text_of(m));
                let encoding = optional(o, "encoding"@, |m: JsonModel| text_of(m));
                let eof = optional(o, "eof"@, |m: JsonModel| bool_of(m));
                let exit_code = optional(o, "exitCode"@, |m: JsonModel| i32_of(m));
                let timestamp_ms = optional(o, "timestampMs"@, |m: JsonModel| i64_of(m));
                if exec_id is Some && stream is Some && data is Some && encoding is Some
                    && eof is Some && exit_code is Some && timestamp_ms is Some {
                    Some(
                        ExecOutputModel {
                            exec_id: exec_id->0,
                            stream: stream->0,
                            data: data->0,
                            encoding: encoding->0,
                            eof: eof->0,
                            exit_code: exit_code->0,
                            timestamp_ms: timestamp_ms->0,
                            extra: without_keys(o, Self::keys()),
                        },
                    )
                } else {
                    None
                }
            },
            _ => None,
        }
    }

    /// The document that a value is written as: the declared fields in
    /// order, then the others.
    pub open spec fn encoded(self) -> JsonModel {
        JsonModel::Object(
            optional_text_entry("execId"@, self.exec_id)
                + optional_text_entry("stream"@, self.stream)
                + optional_text_entry("data"@, self.data)
                + optional_text_entry("encoding"@, self.encoding)
                + optional_bool_entry("eof"@, self.eof)
                + optional_i32_entry("exitCode"@, self.exit_code)
                + optional_i64_entry("timestampMs"@, self.timestamp_ms)
                + self.extra,
        )
    }

    /// The document of an optional value.
    pub open spec fn encoded_optional(value: Option<ExecOutputModel>) -> Option<JsonModel> {
        match value {
            Some(v) => Some(v.encoded()),
            None => None,
        }
    }

    /// A field that the type does not declare is written back as it was
    /// read.
    pub proof fn lemma_other_fields_survive(m: JsonModel, key: Seq<char>)
        requires
            Self::decoded(m) is Some,
            !Self::keys().contains(key),
        ensures
            m is Object,
            lookup(Self::decoded(m)->0.encoded()->Object_0, key) == lookup(m->Object_0, key),
    {
        let o = m->Object_0;
        let v = Self::decoded(m)->0;
        let keys = Self::keys();
        let e1 = optional_text_entry("execId"@, v.exec_id);
        lemma_keys_among_one(e1, "execId"@, keys, 0);
        let e2 = optional_text_entry("stream"@, v.stream);
        lemma_keys_among_one(e2, "stream"@, keys, 1);
        let e3 = optional_text_entry("data"@, v.data);
        lemma_keys_among_one(e3, "data"@, keys, 2);
        let e4 = optional_text_entry("encoding"@, v.encoding);
        lemma_keys_among_one(e4, "encoding"@, keys, 3);
        let e5 = optional_bool_entry("eof"@, v.eof);
        lemma_keys_among_one(e5, "eof"@, keys, 4);
        let e6 = optional_i32_entry("exitCode"@, v.exit_code);
        lemma_keys_among_one(e6, "exitCode"@, keys, 5);
        let e7 = optional_i64_entry("timestampMs"@, v.timestamp_ms);
        lemma_keys_among_one(e7, "timestampMs"@, keys, 6);
        lemma_keys_among_concat(e1, e2, keys);
        lemma_keys_among_concat(e1 + e2, e3, keys);
        lemma_keys_among_concat(e1 + e2 + e3, e4, keys);
        lemma_keys_among_concat(e1 + e2 + e3 + e4, e5, keys);
        lemma_keys_among_concat(e1 + e2 + e3 + e4 + e5, e6, keys);
        lemma_keys_among_concat(e1 + e2 + e3 + e4 + e5 + e6, e7, keys);
        lemma_other_fields_follow(e1 + e2 + e3 + e4 + e5 + e6 + e7, o, keys, key);
    }
}

impl ExecOutput {
    /// The keys of the declared fields.
    pub fn keys() -> (r: Vec<&'static str>)
        ensures
            r.deep_view() == ExecOutputModel::keys(),
    {
        let r = vec!["execId", "stream", "data", "encoding", "eof", "exitCode", "timestampMs"];
        assert(r.deep_view() =~= ExecOutputModel::keys());
        r
    }

    /// Decodes a document; the fields that the type does not declare are
    /// kept in `extra`.
    pub fn decode(value: &JsonValue) -> (r: Option<ExecOutput>)
        ensures
            r.deep_view() == ExecOutputModel::decoded(value@),
    {
        let o = match value {
            JsonValue::Object(o) => o,
            _ => {
                return None;
            },
        };
        let exec_id = optional_text(o, "execId")?;
        let stream = optional_text(o, "stream")?;
        let data = optional_text(o, "data")?;
        let encoding = optional_text(o, "encoding")?;
        let eof = optional_bool(o, "eof")?;
        let exit_code = optional_i32(o, "exitCode")?;
        let timestamp_ms = optional_i64(o, "timestampMs")?;
        let extra = o.without(&Self::keys());
        Some(ExecOutput { exec_id, stream, data, encoding, eof, exit_code, timestamp_ms, extra })
    }

    /// Encodes the value as a document.
    pub fn encode(&self) -> (r: JsonValue)
        ensures
            r@ == self.deep_view().encoded(),
    {
        let mut o = JsonObject::new();
        put_optional_text(&mut o, "execId", &self.exec_id);
        put_optional_text(&mut o, "stream", &self.stream);
        put_optional_text(&mut o, "data", &self.data);
        put_optional_text(&mut o, "encoding", &self.encoding);
        put_optional_bool(&mut o, "eof", &self.eof);
        put_optional_i32(&mut o, "exitCode", &self.exit_code);
        put_optional_i64(&mut o, "timestampMs", &self.timestamp_ms);
        o.extend(&self.extra);
        let r = JsonValue::Object(o);
        assert(r@->Object_0 =~= self.deep_view().encoded()->Object_0);
        r
    }
}

/// Data that arrived on an open stream.
#[derive(Debug, PartialEq, Eq)]
pub struct StreamDataEvent {
    pub stream: String,
    pub stream_id: Option<String>,
    pub channel: Option<String>,
    pub data: Option<String>,
    pub encoding: Option<String>,
    pub cols: Option<u32>,
    pub rows: Option<u32>,
    pub timestamp_ms: Option<i64>,
    /// The fields that the type does not declare.
    pub extra: JsonObject,
}

/// The model of [`StreamDataEvent`].
pub struct StreamDataEventModel {
    pub stream: Seq<char>,
    pub stream_id: Option<Seq<char>>,
    pub channel: Option<Seq<char>>,
    pub data: Option<Seq<char>>,
    pub encoding: Option<Seq<char>>,
    pub cols: Option<u32>,
    pub rows: Option<u32>,
    pub timestamp_ms: Option<i64>,
    pub extra: ObjectModel,
}

impl DeepView for StreamDataEvent {
    type V = StreamDataEventModel;

    open spec fn deep_view(&self) -> StreamDataEventModel {
        StreamDataEventModel {
            stream: self.stream.deep_view(),
            stream_id: self.stream_id.deep_view(),
            channel: self.channel.deep_view(),
            data: self.data.deep_view(),
            encoding: self.encoding.deep_view(),
            cols: self.cols.deep_view(),
            rows: self.rows.deep_view(),
            timestamp_ms: self.timestamp_ms.deep_view(),
            extra: self.extra.deep_view(),
        }
    }
}

impl StreamDataEventModel {
    /// The keys of the declared fields.
    pub open spec fn keys() -> Seq<Seq<char>> {
        seq![
            "stream"@, "streamId"@, "channel"@, "data"@, "encoding"@, "cols"@, "rows"@,
            "timestampMs"@,
        ]
    }

    /// What a document decodes to: nothing unless it is an object whose
    /// declared fields all have their types.
    pub open spec fn decoded(m: JsonModel) -> Option<StreamDataEventModel> {
        match m {
            JsonModel::Object(o) => {
                let stream = required(o, "stream"@, |m: JsonModel| text_of(m));
                let stream_id = optional(o, "streamId"@, |m: JsonModel| text_of(m));
                let channel = optional(o, "channel"@, |m: JsonModel| text_of(m));
                let data = optional(o, "data"@, |m: JsonModel| text_of(m));
                let encoding = optional(o, "encoding"@, |m: JsonModel| text_of(m));
                let cols = optional(o, "cols"@, |m: JsonModel| u32_of(m));
                let rows = optional(o, "rows"@, |m: JsonModel| u32_of(m));
                let timestamp_ms = optional(o, "timestampMs"@, |m: JsonModel| i64_of(m));
                if stream is Some && stream_id is Some && channel is Some && data is Some
                    && encoding is Some && cols is Some && rows is Some && timestamp_ms is Some {
                    Some(
                        StreamDataEventModel {
                            stream: stream->0,
                            stream_id: stream_id->0,
                            channel: channel->0,
                            data: data->0,
                            encoding: encoding->0,
                            cols: cols->0,
                            rows: rows->0,
                            timestamp_ms: timestamp_ms->0,
                            extra: without_keys(o, Self::keys()),
                        },
                    )
                } else {
                    None
                }
            },
            _ => None,
        }
    }

    /// The document that a value is written as: the declared fields in
    /// order, then the others.
    pub open spec fn encoded(self) -> JsonModel {
        JsonModel::Object(
            text_entry("stream"@, self.stream)
                + optional_text_entry("streamId"@, self.stream_id)
                + optional_text_entry("channel"@, self.channel)
                + optional_text_entry("data"@, self.data)
                + optional_text_entry("encoding"@, self.encoding)
                + optional_u32_entry("cols"@, self.cols)
                + optional_u32_entry("rows"@, self.rows)
                + optional_i64_entry("timestampMs"@, self.timestamp_ms)
                + self.extra,
        )
    }

    /// The document of an optional value.
    pub open spec fn encoded_optional(value: Option<StreamDataEventModel>) -> Option<JsonModel> {
        match value {
            Some(v) => Some(v.encoded()),
            None => None,
        }
    }

    /// A field that the type does not declare is written back as it was
    /// read.
    pub proof fn lemma_other_fields_survive(m: JsonModel, key: Seq<char>)
        requires
            Self::decoded(m) is Some,
            !Self::keys().contains(key),
        ensures
            m is Object,
            lookup(Self::decoded(m)->0.encoded()->Object_0, key) == lookup(m->Object_0, key),
    {
        let o = m->Object_0;
        let v = Self::decoded(m)->0;
        let keys = Self::keys();
        let e1 = text_entry("stream"@, v.stream);
        lemma_keys_among_one(e1, "stream"@, keys, 0);
        let e2 = optional_text_entry("streamId"@, v.stream_id);
        lemma_keys_among_one(e2, "streamId"@, keys, 1);
        let e3 = optional_text_entry("channel"@, v.channel);
        lemma_keys_among_one(e3, "channel"@, keys, 2);
        let e4 = optional_text_entry("data"@, v.data);
        lemma_keys_among_one(e4, "data"@, keys, 3);
        let e5 = optional_text_entry("encoding"@, v.encoding);
        lemma_keys_among_one(e5, "encoding"@, keys, 4);
        let e6 = optional_u32_entry("cols"@, v.cols);
        lemma_keys_among_one(e6, "cols"@, keys, 5);
        let e7 = optional_u32_entry("rows"@, v.rows);
        lemma_keys_among_one(e7, "rows"@, keys, 6);
        let e8 = optional_i64_entry("timestampMs"@, v.timestamp_ms);
        lemma_keys_among_one(e8, "timestampMs"@, keys, 7);
        lemma_keys_among_concat(e1, e2, keys);
        lemma_keys_among_concat(e1 + e2, e3, keys);
        lemma_keys_among_concat(e1 + e2 + e3, e4, keys);
        lemma_keys_among_concat(e1 + e2 + e3 + e4, e5, keys);
        lemma_keys_among_concat(e1 + e2 + e3 + e4 + e5, e6, keys);
        lemma_keys_among_concat(e1 + e2 + e3 + e4 + e5 + e6, e7, keys);
        lemma_keys_among_concat(e1 + e2 + e3 + e4 + e5 + e6 + e7, e8, keys);
        lemma_other_fields_follow(e1 + e2 + e3 + e4 + e5 + e6 + e7 + e8, o, keys, key);
    }
}

impl StreamDataEvent {
    /// The keys of the declared fields.
    pub fn keys() -> (r: Vec<&'static str>)
        ensures
            r.deep_view() == StreamDataEventModel::keys(),
    {
        let r = vec![
            "stream", "streamId", "channel", "data", "encoding", "cols", "rows", "timestampMs",
        ];
        assert(r.deep_view() =~= StreamDataEventModel::keys());
        r
    }

    /// Decodes a document; the fields that the type does not declare are
    /// kept in `extra`.
    pub fn decode(value: &JsonValue) -> (r: Option<StreamDataEvent>)
        ensures
            r.deep_view() == StreamDataEventModel::decoded(value@),
    {
        let o = match value {
            JsonValue::Object(o) => o,
            _ => {
                return None;
            },
        };
        let stream = required_text(o, "stream")?;
        let stream_id = optional_text(o, "streamId")?;
        let channel = optional_text(o, "channel")?;
        let data = optional_text(o, "data")?;
        let encoding = optional_text(o, "encoding")?;
        let cols = optional_u32(o, "cols")?;
        let rows = optional_u32(o, "rows")?;
        let timestamp_ms = optional_i64(o, "timestampMs")?;
        let extra = o.without(&Self::keys());
        Some(
            StreamDataEvent {
                stream,
                stream_id,
                channel,
                data,
                encoding,
                cols,
                rows,
                timestamp_ms,
                extra,
            },
        )
    }

    /// Encodes the value as a document.
    pub fn encode(&self) -> (r: JsonValue)
        ensures
            r@ == self.deep_view().encoded(),
    {
        let mut o = JsonObject::new();
        put_text(&mut o, "stream", &self.stream);
        put_optional_text(&mut o, "streamId", &self.stream_id);
        put_optional_text(&mut o, "channel", &self.channel);
        put_optional_text(&mut o, "data", &self.data);
        put_optional_text(&mut o, "encoding", &self.encoding);
        put_optional_u32(&mut o, "cols", &self.cols);
        put_optional_u32(&mut o, "rows", &self.rows);
        put_optional_i64(&mut o, "timestampMs", &self.timestamp_ms);
        o.extend(&self.extra);
        let r = JsonValue::Object(o);
        assert(r@->Object_0 =~= self.deep_view().encoded()->Object_0);
        r
    }
}

impl Default for StreamDataEvent {
    /// The value with every field empty.
    fn default() -> (r: StreamDataEvent)
        ensures
            r.stream@.len() == 0,
            r.stream_id is None,
            r.channel is None,
            r.data is None,
            r.encoding is None,
            r.cols is None,
            r.rows is None,
            r.timestamp_ms is None,
            r.extra@ == Seq::<(Seq<char>, JsonModel)>::empty(),
    {
        StreamDataEvent {
            stream: String::new(),
            stream_id: None,
            channel: None,
            data: None,
            encoding: None,
            cols: None,
            rows: None,
            timestamp_ms: None,
            extra: JsonObject::new(),
        }
    }
}

/// A stream has ended.
#[derive(Debug, PartialEq, Eq)]
pub struct StreamClosedEvent {
    pub stream: String,
    pub stream_id: Option<String>,
    pub exit_code: Option<i32>,
    pub reason: Option<String>,
    /// The fields that the type does not declare.
    pub extra: JsonObject,
}

/// The model of [`StreamClosedEvent`].
pub struct StreamClosedEventModel {
    pub stream: Seq<char>,
    pub stream_id: Option<Seq<char>>,
    pub exit_code: Option<i32>,
    pub reason: Option<Seq<char>>,
    pub extra: ObjectModel,
}

impl DeepView for StreamClosedEvent {
    type V = StreamClosedEventModel;

    open spec fn deep_view(&self) -> StreamClosedEventModel {
        StreamClosedEventModel {
            stream: self.stream.deep_view(),
            stream_id: self.stream_id.deep_view(),
            exit_code: self.exit_code.deep_view(),
            reason: self.reason.deep_view(),
            extra: self.extra.deep_view(),
        }
    }
}

impl StreamClosedEventModel {
    /// The keys of the declared fields.
    pub open spec fn keys() -> Seq<Seq<char>> {
        seq!["stream"@, "streamId"@, "exitCode"@, "reason"@]
    }

    /// What a document decodes to: nothing unless it is an object whose
    /// declared fields all have their types.
    pub open spec fn decoded(m: JsonModel) -> Option<StreamClosedEventModel> {
        match m {
            JsonModel::Object(o) => {
                let stream = required(o, "stream"@, |m: JsonModel| text_of(m));
                let stream_id = optional(o, "streamId"@, |m: JsonModel| text_of(m));
                let exit_code = optional(o, "exitCode"@, |m: JsonModel| i32_of(m));
                let reason = optional(o, "reason"@, |m: JsonModel| text_of(m));
                if stream is Some && stream_id is Some && exit_code is Some && reason is Some {
                    Some(
                        StreamClosedEventModel {
                            stream: stream->0,
                            stream_id: stream_id->0,
                            exit_code: exit_code->0,
                            reason: reason->0,
                            extra: without_keys(o, Self::keys()),
                        },
                    )
                } else {
                    None
                }
            },
            _ => None,
        }
    }

    /// The document that a value is written as: the declared fields in
    /// order, then the others.
    pub open spec fn encoded(self) -> JsonModel {
        JsonModel::Object(
            text_entry("stream"@, self.stream)
                + optional_text_entry("streamId"@, self.stream_id)
                + optional_i32_entry("exitCode"@, self.exit_code)
                + optional_text_entry("reason"@, self.reason)
                + self.extra,
        )
    }

    /// The document of an optional value.
    pub open spec fn encoded_optional(value: Option<StreamClosedEventModel>) -> Option<JsonModel> {
        match value {
            Some(v) => Some(v.encoded()),
            None => None,
        }
    }

    /// A field that the type does not declare is written back as it was
    /// read.
    pub proof fn lemma_other_fields_survive(m: JsonModel, key: Seq<char>)
        requires
            Self::decoded(m) is Some,
            !Self::keys().contains(key),
        ensures
            m is Object,
            lookup(Self::decoded(m)->0.encoded()->Object_0, key) == lookup(m->Object_0, key),
    {
        let o = m->Object_0;
        let v = Self::decoded(m)->0;
        let keys = Self::keys();
        let e1 = text_entry("stream"@, v.stream);
        lemma_keys_among_one(e1, "stream"@, keys, 0);
        let e2 = optional_text_entry("streamId"@, v.stream_id);
        lemma_keys_among_one(e2, "streamId"@, keys, 1);
        let e3 = optional_i32_entry("exitCode"@, v.exit_code);
        lemma_keys_among_one(e3, "exitCode"@, keys, 2);
        let e4 = optional_text_entry("reason"@, v.reason);
        lemma_keys_among_one(e4, "reason"@, keys, 3);
        lemma_keys_among_concat(e1, e2, keys);
        lemma_keys_among_concat(e1 + e2, e3, keys);
        lemma_keys_among_concat(e1 + e2 + e3, e4, keys);
        lemma_other_fields_follow(e1 + e2 + e3 + e4, o, keys, key);
    }
}

impl StreamClosedEvent {
    /// The keys of the declared fields.
    pub fn keys() -> (r: Vec<&'static str>)
        ensures
            r.deep_view() == StreamClosedEventModel::keys(),
    {
        let r = vec!["stream", "streamId", "exitCode", "reason"];
        assert(r.deep_view() =~= StreamClosedEventModel::keys());
        r
    }

    /// Decodes a document; the fields that the type does not declare are
    /// kept in `extra`.
    pub fn decode(value: &JsonValue) -> (r: Option<StreamClosedEvent>)
        ensures
            r.deep_view() == StreamClosedEventModel::decoded(value@),
    {
        let o = match value {
            JsonValue::Object(o) => o,
            _ => {
                return None;
            },
        };
        let stream = required_text(o, "stream")?;
        let stream_id = optional_text(o, "streamId")?;
        let exit_code = optional_i32(o, "exitCode")?;
        let reason = optional_text(o, "reason")?;
        let extra = o.without(&Self::keys());
        Some(StreamClosedEvent { stream, stream_id, exit_code, reason, extra })
    }

    /// Encodes the value as a document.
    pub fn encode(&self) -> (r: JsonValue)
        ensures
            r@ == self.deep_view().encoded(),
    {
        let mut o = JsonObject::new();
        put_text(&mut o, "stream", &self.stream);
        put_optional_text(&mut o, "streamId", &self.stream_id);
        put_optional_i32(&mut o, "exitCode", &self.exit_code);
        put_optional_text(&mut o, "reason", &self.reason);
        o.extend(&self.extra);
        let r = JsonValue::Object(o);
        assert(r@->Object_0 =~= self.deep_view().encoded()->Object_0);
        r
    }
}

impl Default for StreamClosedEvent {
    /// The value with every field empty.
    fn default() -> (r: StreamClosedEvent)
        ensures
            r.stream@.len() == 0,
            r.stream_id is None,
            r.exit_code is None,
            r.reason is None,
            r.extra@ == Seq::<(Seq<char>, JsonModel)>::empty(),
    {
        StreamClosedEvent {
            stream: String::new(),
            stream_id: None,
            exit_code: None,
            reason: None,
            extra: JsonObject::new(),
        }
    }
}

/// One log entry.
#[derive(Debug, PartialEq, Eq)]
pub struct LogEntry {
    pub timestamp: Option<String>,
    pub ts: Option<i64>,
    pub level: Option<String>,
    pub message: Option<String>,
    pub target: Option<String>,
    pub fields: Option<JsonObject>,
    pub span: Option<JsonValue>,
    pub spans: Vec<JsonValue>,
    pub thread_id: Option<u64>,
    pub thread_name: Option<String>,
    /// The fields that the type does not declare.
    pub extra: JsonObject,
}

/// The model of [`LogEntry`].
pub struct LogEntryModel {
    pub timestamp: Option<Seq<char>>,
    pub ts: Option<i64>,
    pub level: Option<Seq<char>>,
    pub message: Option<Seq<char>>,
    pub target: Option<Seq<char>>,
    pub fields: Option<ObjectModel>,
    pub span: Option<JsonModel>,
    pub spans: Seq<JsonModel>,
    pub thread_id: Option<u64>,
    pub thread_name: Option<Seq<char>>,
    pub extra: ObjectModel,
}

impl DeepView for LogEntry {
    type V = LogEntryModel;

    open spec fn deep_view(&self) -> LogEntryModel {
        LogEntryModel {
            timestamp: self.timestamp.deep_view(),
            ts: self.ts.deep_view(),
            level: self.level.deep_view(),
            message: self.message.deep_view(),
            target: self.target.deep_view(),
            fields: self.fields.deep_view(),
            span: self.span.deep_view(),
            spans: self.spans.deep_view(),
            thread_id: self.thread_id.deep_view(),
            thread_name: self.thread_name.deep_view(),
            extra: self.extra.deep_view(),
        }
    }
}

impl LogEntryModel {
    /// The keys of the declared fields.
    pub open spec fn keys() -> Seq<Seq<char>> {
        seq![
            "timestamp"@, "ts"@, "level"@, "message"@, "target"@, "fields"@, "span"@, "spans"@,
            "threadId"@, "threadName"@,
        ]
    }

    /// What a document decodes to: nothing unless it is an object whose
    /// declared fields all have their types.
    pub open spec fn decoded(m: JsonModel) -> Option<LogEntryModel> {
        match m {
            JsonModel::Object(o) => {
                let timestamp = optional(o, "timestamp"@, |m: JsonModel| text_of(m));
                let ts = optional(o, "ts"@, |m: JsonModel| i64_of(m));
                let level = optional(o, "level"@, |m: JsonModel| text_of(m));
                let message = optional(o, "message"@, |m: JsonModel| text_of(m));
                let target = optional(o, "target"@, |m: JsonModel| text_of(m));
                let fields = optional(o, "fields"@, |m: JsonModel| object_of(m));
                let span = optional(o, "span"@, |m: JsonModel| any_of(m));
                let spans = defaulted(o, "spans"@, |m: JsonModel| items_of(m), Seq::empty());
                let thread_id = optional(o, "threadId"@, |m: JsonModel| u64_of(m));
                let thread_name = optional(o, "threadName"@, |m: JsonModel| text_of(m));
                if timestamp is Some && ts is Some && level is Some && message is Some
                    && target is Some && fields is Some && span is Some && spans is Some
                    && thread_id is Some && thread_name is Some {
                    Some(
                        LogEntryModel {
                            timestamp: timestamp->0,
                            ts: ts->0,
                            level: level->0,
                            message: message->0,
                            target: target->0,
                            fields: fields->0,
                            span: span->0,
                            spans: spans->0,
                            thread_id: thread_id->0,
                            thread_name: thread_name->0,
                            extra: without_keys(o, Self::keys()),
                        },
                    )
                } else {
                    None
                }
            },
            _ => None,
        }
    }

    /// The document that a value is written as: the declared fields in
    /// order, then the others.
    pub open spec fn encoded(self) -> JsonModel {
        JsonModel::Object(
            optional_text_entry("timestamp"@, self.timestamp)
                + optional_i64_entry("ts"@, self.ts)
                + optional_text_entry("level"@, self.level)
                + optional_text_entry("message"@, self.message)
                + optional_text_entry("target"@, self.target)
                + optional_object_entry("fields"@, self.fields)
                + optional_value_entry("span"@, self.span)
                + values_entry("spans"@, self.spans)
                + optional_u64_entry("threadId"@, self.thread_id)
                + optional_text_entry("threadName"@, self.thread_name)
                + self.extra,
        )
    }

    /// The document of an optional value.
    pub open spec fn encoded_optional(value: Option<LogEntryModel>) -> Option<JsonModel> {
        match value {
            Some(v) => Some(v.encoded()),
            None => None,
        }
    }

    /// A field that the type does not declare is written back as it was
    /// read.
    pub proof fn lemma_other_fields_survive(m: JsonModel, key: Seq<char>)
        requires
            Self::decoded(m) is Some,
            !Self::keys().contains(key),
        ensures
            m is Object,
            lookup(Self::decoded(m)->0.encoded()->Object_0, key) == lookup(m->Object_0, key),
    {
        let o = m->Object_0;
        let v = Self::decoded(m)->0;
        let keys = Self::keys();
        let e1 = optional_text_entry("timestamp"@, v.timestamp);
        lemma_keys_among_one(e1, "timestamp"@, keys, 0);
        let e2 = optional_i64_entry("ts"@, v.ts);
        lemma_keys_among_one(e2, "ts"@, keys, 1);
        let e3 = optional_text_entry("level"@, v.level);
        lemma_keys_among_one(e3, "level"@, keys, 2);
        let e4 = optional_text_entry("message"@, v.message);
        lemma_keys_among_one(e4, "message"@, keys, 3);
        let e5 = optional_text_entry("target"@, v.target);
        lemma_keys_among_one(e5, "target"@, keys, 4);
        let e6 = optional_object_entry("fields"@, v.fields);
        lemma_keys_among_one(e6, "fields"@, keys, 5);
        let e7 = optional_value_entry("span"@, v.span);
        lemma_keys_among_one(e7, "span"@, keys, 6);
        let e8 = values_entry("spans"@, v.spans);
        lemma_keys_among_one(e8, "spans"@, keys, 7);
        let e9 = optional_u64_entry("threadId"@, v.thread_id);
        lemma_keys_among_one(e9, "threadId"@, keys, 8);
        let e10 = optional_text_entry("threadName"@, v.thread_name);
        lemma_keys_among_one(e10, "threadName"@, keys, 9);
        lemma_keys_among_concat(e1, e2, keys);
        lemma_keys_among_concat(e1 + e2, e3, keys);
        lemma_keys_among_concat(e1 + e2 + e3, e4, keys);
        lemma_keys_among_concat(e1 + e2 + e3 + e4, e5, keys);
        lemma_keys_among_concat(e1 + e2 + e3 + e4 + e5, e6, keys);
        lemma_keys_among_concat(e1 + e2 + e3 + e4 + e5 + e6, e7, keys);
        lemma_keys_among_concat(e1 + e2 + e3 + e4 + e5 + e6 + e7, e8, keys);
        lemma_keys_among_concat(e1 + e2 + e3 + e4 + e5 + e6 + e7 + e8, e9, keys);
        lemma_keys_among_concat(e1 + e2 + e3 + e4 + e5 + e6 + e7 + e8 + e9, e10, keys);
        lemma_other_fields_follow(e1 + e2 + e3 + e4 + e5 + e6 + e7 + e8 + e9 + e10, o, keys, key);
    }

    /// What an array of documents decodes to: nothing unless each item
    /// decodes.
    pub open spec fn decoded_list(m: JsonModel) -> Option<Seq<LogEntryModel>> {
        match m {
            JsonModel::Array(items) => if forall|i: int|
                0 <= i < items.len() ==> (#[trigger] Self::decoded(items[i])) is Some {
                Some(Seq::new(items.len(), |i: int| Self::decoded(items[i])->0))
            } else {
                None
            },
            _ => None,
        }
    }

    /// The array that a list of values is written as.
    pub open spec fn encoded_list(items: Seq<LogEntryModel>) -> JsonModel {
        JsonModel::Array(Seq::new(items.len(), |i: int| items[i].encoded()))
    }
}

impl LogEntry {
    /// The keys of the declared fields.
    pub fn keys() -> (r: Vec<&'static str>)
        ensures
            r.deep_view() == LogEntryModel::keys(),
    {
        let r = vec![
            "timestamp", "ts", "level", "message", "target", "fields", "span", "spans", "threadId",
            "threadName",
        ];
        assert(r.deep_view() =~= LogEntryModel::keys());
        r
    }

    /// Decodes a document; the fields that the type does not declare are
    /// kept in `extra`.
    pub fn decode(value: &JsonValue) -> (r: Option<LogEntry>)
        ensures
            r.deep_view() == LogEntryModel::decoded(value@),
    {
        let o = match value {
            JsonValue::Object(o) => o,
            _ => {
                return None;
            },
        };
        let timestamp = optional_text(o, "timestamp")?;
        let ts = optional_i64(o, "ts")?;
        let level = optional_text(o, "level")?;
        let message = optional_text(o, "message")?;
        let target = optional_text(o, "target")?;
        let fields = optional_object(o, "fields")?;
        let span = optional_value(o, "span")?;
        let spans = defaulted_values(o, "spans")?;
        let thread_id = optional_u64(o, "threadId")?;
        let thread_name = optional_text(o, "threadName")?;
        let extra = o.without(&Self::keys());
        Some(
            LogEntry {
                timestamp,
                ts,
                level,
                message,
                target,
                fields,
                span,
                spans,
                thread_id,
                thread_name,
                extra,
            },
        )
    }

    /// Encodes the value as a document.
    pub fn encode(&self) -> (r: JsonValue)
        ensures
            r@ == self.deep_view().encoded(),
    {
        let mut o = JsonObject::new();
        put_optional_text(&mut o, "timestamp", &self.timestamp);
        put_optional_i64(&mut o, "ts", &self.ts);
        put_optional_text(&mut o, "level", &self.level);
        put_optional_text(&mut o, "message", &self.message);
        put_optional_text(&mut o, "target", &self.target);
        put_optional_object(&mut o, "fields", &self.fields);
        put_optional_value(&mut o, "span", &self.span);
        put_values(&mut o, "spans", &self.spans);
        put_optional_u64(&mut o, "threadId", &self.thread_id);
        put_optional_text(&mut o, "threadName", &self.thread_name);
        o.extend(&self.extra);
        let r = JsonValue::Object(o);
        assert(r@->Object_0 =~= self.deep_view().encoded()->Object_0);
        r
    }

    /// Decodes an array of documents.
    pub fn decode_list(value: &JsonValue) -> (r: Option<Vec<LogEntry>>)
        ensures
            r.deep_view() == LogEntryModel::decoded_list(value@),
    {
        match value {
            JsonValue::Array(items) => {
                let mut out: Vec<LogEntry> = Vec::new();
                let mut i: usize = 0;
                while i < items.len()
                    invariant
                        i <= items.len(),
                        out.len() == i,
                        value@ == JsonModel::Array(items_model(items@)),
                        forall|j: int|
                            0 <= j < i ==> LogEntryModel::decoded(items@[j]@) == Some(
                                out@[j].deep_view(),
                            ),
                    decreases items.len() - i,
                {
                    match LogEntry::decode(&items[i]) {
                        Some(item) => {
                            out.push(item);
                        },
                        None => {
                            assert(LogEntryModel::decoded(items_model(items@)[i as int]) is None);
                            return None;
                        },
                    }
                    i += 1;
                }
                assert forall|j: int| 0 <= j < items@.len() implies
                    (#[trigger] LogEntryModel::decoded(items_model(items@)[j])) is Some by {
                    assert(LogEntryModel::decoded(items@[j]@) == Some(out@[j].deep_view()));
                }
                assert(out.deep_view() =~= LogEntryModel::decoded_list(value@)->0);
                Some(out)
            },
            _ => None,
        }
    }

    /// Encodes a list of values as an array.
    pub fn encode_list(items: &Vec<LogEntry>) -> (r: JsonValue)
        ensures
            r@ == LogEntryModel::encoded_list(items.deep_view()),
    {
        let mut out: Vec<JsonValue> = Vec::new();
        let mut i: usize = 0;
        while i < items.len()
            invariant
                i <= items.len(),
                out.len() == i,
                forall|j: int| 0 <= j < i ==> out@[j]@ == items@[j].deep_view().encoded(),
            decreases items.len() - i,
        {
            out.push(items[i].encode());
            i += 1;
        }
        let r = JsonValue::Array(out);
        assert(r@->Array_0 =~= LogEntryModel::encoded_list(items.deep_view())->Array_0);
        r
    }
}

impl Default for LogEntry {
    /// The value with every field empty.
    fn default() -> (r: LogEntry)
        ensures
            r.timestamp is None,
            r.ts is None,
            r.level is None,
            r.message is None,
            r.target is None,
            r.fields is None,
            r.span is None,
            r.spans@.len() == 0,
            r.thread_id is None,
            r.thread_name is None,
            r.extra@ == Seq::<(Seq<char>, JsonModel)>::empty(),
    {
        LogEntry {
            timestamp: None,
            ts: None,
            level: None,
            message: None,
            target: None,
            fields: None,
            span: None,
            spans: Vec::new(),
            thread_id: None,
            thread_name: None,
            extra: JsonObject::new(),
        }
    }
}

/// Log entries of a subscription.
#[derive(Debug, PartialEq, Eq)]
pub struct LogsEvent {
    pub entries: Vec<LogEntry>,
    pub entry: Option<LogEntry>,
    pub subscription_id: Option<String>,
    /// The fields that the type does not declare.
    pub extra: JsonObject,
}

/// The model of [`LogsEvent`].
pub struct LogsEventModel {
    pub entries: Seq<LogEntryModel>,
    pub entry: Option<LogEntryModel>,
    pub subscription_id: Option<Seq<char>>,
    pub extra: ObjectModel,
}

impl DeepView for LogsEvent {
    type V = LogsEventModel;

    open spec fn deep_view(&self) -> LogsEventModel {
        LogsEventModel {
            entries: self.entries.deep_view(),
            entry: self.entry.deep_view(),
            subscription_id: self.subscription_id.deep_view(),
            extra: self.extra.deep_view(),
        }
    }
}

impl LogsEventModel {
    /// The keys of the declared fields.
    pub open spec fn keys() -> Seq<Seq<char>> {
        seq!["entries"@, "entry"@, "subscriptionId"@]
    }

    /// What a document decodes to: nothing unless it is an object whose
    /// declared fields all have their types.
    pub open spec fn decoded(m: JsonModel) -> Option<LogsEventModel> {
        match m {
            JsonModel::Object(o) => {
                let entries = defaulted(
                    o,
                    "entries"@,
                    |m: JsonModel| LogEntryModel::decoded_list(m),
                    Seq::empty(),
                );
                let entry = optional(o, "entry"@, |m: JsonModel| LogEntryModel::decoded(m));
                let subscription_id = optional(o, "subscriptionId"@, |m: JsonModel| text_of(m));
                if entries is Some && entry is Some && subscription_id is Some {
                    Some(
                        LogsEventModel {
                            entries: entries->0,
                            entry: entry->0,
                            subscription_id: subscription_id->0,
                            extra: without_keys(o, Self::keys()),
                        },
                    )
                } else {
                    None
                }
            },
            _ => None,
        }
    }

    /// The document that a value is written as: the declared fields in
    /// order, then the others.
    pub open spec fn encoded(self) -> JsonModel {
        JsonModel::Object(
            entry("entries"@, LogEntryModel::encoded_list(self.entries))
                + optional_entry("entry"@, LogEntryModel::encoded_optional(self.entry))
                + optional_text_entry("subscriptionId"@, self.subscription_id)
                + self.extra,
        )
    }

    /// The document of an optional value.
    pub open spec fn encoded_optional(value: Option<LogsEventModel>) -> Option<JsonModel> {
        match value {
            Some(v) => Some(v.encoded()),
            None => None,
        }
    }

    /// A field that the type does not declare is written back as it was
    /// read.
    pub proof fn lemma_other_fields_survive(m: JsonModel, key: Seq<char>)
        requires
            Self::decoded(m) is Some,
            !Self::keys().contains(key),
        ensures
            m is Object,
            lookup(Self::decoded(m)->0.encoded()->Object_0, key) == lookup(m->Object_0, key),
    {
        let o = m->Object_0;
        let v = Self::decoded(m)->0;
        let keys = Self::keys();
        let e1 = entry("entries"@, LogEntryModel::encoded_list(v.entries));
        lemma_keys_among_one(e1, "entries"@, keys, 0);
        let e2 = optional_entry("entry"@, LogEntryModel::encoded_optional(v.entry));
        lemma_keys_among_one(e2, "entry"@, keys, 1);
        let e3 = optional_text_entry("subscriptionId"@, v.subscription_id);
        lemma_keys_among_one(e3, "subscriptionId"@, keys, 2);
        lemma_keys_among_concat(e1, e2, keys);
        lemma_keys_among_concat(e1 + e2, e3, keys);
        lemma_other_fields_follow(e1 + e2 + e3, o, keys, key);
    }
}

impl LogsEvent {
    /// The keys of the declared fields.
    pub fn keys() -> (r: Vec<&'static str>)
        ensures
            r.deep_view() == LogsEventModel::keys(),
    {
        let r = vec!["entries", "entry", "subscriptionId"];
        assert(r.deep_view() =~= LogsEventModel::keys());
        r
    }

    /// Decodes a document; the fields that the type does not declare are
    /// kept in `extra`.
    pub fn decode(value: &JsonValue) -> (r: Option<LogsEvent>)
        ensures
            r.deep_view() == LogsEventModel::decoded(value@),
    {
        let o = match value {
            JsonValue::Object(o) => o,
            _ => {
                return None;
            },
        };
        let entries = match o.get("entries") {
            None => {
                let empty: Vec<LogEntry> = Vec::new();
                assert(empty.deep_view() =~= Seq::empty());
                empty
            },
            Some(v) => LogEntry::decode_list(v)?,
        };
        let entry = match o.get("entry") {
            None => None,
            Some(JsonValue::Null) => None,
            Some(v) => Some(LogEntry::decode(v)?),
        };
        let subscription_id = optional_text(o, "subscriptionId")?;
        let extra = o.without(&Self::keys());
        Some(LogsEvent { entries, entry, subscription_id, extra })
    }

    /// Encodes the value as a document.
    pub fn encode(&self) -> (r: JsonValue)
        ensures
            r@ == self.deep_view().encoded(),
    {
        let mut o = JsonObject::new();
        put_json(&mut o, "entries", LogEntry::encode_list(&self.entries));
        match &self.entry {
            Some(v) => {
                put_json(&mut o, "entry", v.encode());
            },
            None => {},
        }
        put_optional_text(&mut o, "subscriptionId", &self.subscription_id);
        o.extend(&self.extra);
        let r = JsonValue::Object(o);
        assert(r@->Object_0 =~= self.deep_view().encoded()->Object_0);
        r
    }
}

impl Default for LogsEvent {
    /// The value with every field empty.
    fn default() -> (r: LogsEvent)
        ensures
            r.entries@.len() == 0,
            r.entry is None,
            r.subscription_id is None,
            r.extra@ == Seq::<(Seq<char>, JsonModel)>::empty(),
    {
        LogsEvent {
            entries: Vec::new(),
            entry: None,
            subscription_id: None,
            extra: JsonObject::new(),
        }
    }
}

} // verus!
