//! Parameters of the requests that a client sends.

use crate::json::{
    bool_of, i64_of, lookup, object_of, text_of, texts_of, u32_of, u64_of, without_keys, JsonModel,
    JsonObject, JsonValue, ObjectModel,
};
use crate::schema::{
    bool_entry, defaulted, defaulted_bool, defaulted_texts, lemma_keys_among_concat,
    lemma_keys_among_one, lemma_other_fields_follow, optional, optional_bool, optional_bool_entry,
    optional_i64, optional_i64_entry, optional_object, optional_object_entry, optional_text,
    optional_text_entry, optional_u32, optional_u32_entry, optional_u64, optional_u64_entry,
    put_bool, put_optional_bool, put_optional_i64, put_optional_object, put_optional_text,
    put_optional_u32, put_optional_u64, put_text, put_texts, required, required_text,
    required_text_under_one_of, required_under_one_of, text_entry, texts_entry,
};
use vstd::prelude::*;

verus! {

/// One turn handed to the agent.
#[derive(Debug, PartialEq, Eq)]
pub struct AgentTurn {
    pub message: String,
    pub model: Option<String>,
    pub thinking: Option<String>,
    pub timeout_seconds: Option<u64>,
    /// The fields that the type does not declare.
    pub extra: JsonObject,
}

/// The model of [`AgentTurn`].
pub struct AgentTurnModel {
    pub message: Seq<char>,
    pub model: Option<Seq<char>>,
    pub thinking: Option<Seq<char>>,
    pub timeout_seconds: Option<u64>,
    pub extra: ObjectModel,
}

impl DeepView for AgentTurn {
    type V = AgentTurnModel;

    open spec fn deep_view(&self) -> AgentTurnModel {
        AgentTurnModel {
            message: self.message.deep_view(),
            model: self.model.deep_view(),
            thinking: self.thinking.deep_view(),
            timeout_seconds: self.timeout_seconds.deep_view(),
            extra: self.extra.deep_view(),
        }
    }
}

impl AgentTurnModel {
    /// The keys of the declared fields.
    pub open spec fn keys() -> Seq<Seq<char>> {
        seq!["message"@, "model"@, "thinking"@, "timeoutSeconds"@]
    }

    /// What a document decodes to: nothing unless it is an object whose
    /// declared fields all have their types.
    pub open spec fn decoded(m: JsonModel) -> Option<AgentTurnModel> {
        match m {
            JsonModel::Object(o) => {
                let message = required(o, "message"@, |m: JsonModel| text_of(m));
                let model = optional(o, "model"@, |m: JsonModel| text_of(m));
                let thinking = optional(o, "thinking"@, |m: JsonModel| text_of(m));
                let timeout_seconds = optional(o, "timeoutSeconds"@, |m: JsonModel| u64_of(m));
                if message is Some && model is Some && thinking is Some && timeout_seconds is Some {
                    Some(
                        AgentTurnModel {
                            message: message->0,
                            model: model->0,
                            thinking: thinking->0,
                            timeout_seconds: timeout_seconds->0,
                            extra: without_keys(o, Self::keys()),
                        },
                    )
                } else {
                    None
                }
            },
            _ => None,
        }
    }

    /// The document that a value is written as: the declared fields in
    /// order, then the others.
    pub open spec fn encoded(self) -> JsonModel {
        JsonModel::Object(
            text_entry("message"@, self.message)
                + optional_text_entry("model"@, self.model)
                + optional_text_entry("thinking"@, self.thinking)
                + optional_u64_entry("timeoutSeconds"@, self.timeout_seconds)
                + self.extra,
        )
    }

    /// The document of an optional value.
    pub open spec fn encoded_optional(value: Option<AgentTurnModel>) -> Option<JsonModel> {
        match value {
            Some(v) => Some(v.encoded()),
            None => None,
        }
    }

    /// A field that the type does not declare is written back as it was
    /// read.
    pub proof fn lemma_other_fields_survive(m: JsonModel, key: Seq<char>)
        requires
            Self::decoded(m) is Some,
            !Self::keys().contains(key),
        ensures
            m is Object,
            lookup(Self::decoded(m)->0.encoded()->Object_0, key) == lookup(m->Object_0, key),
    {
        let o = m->Object_0;
        let v = Self::decoded(m)->0;
        let keys = Self::keys();
        let e1 = text_entry("message"@, v.message);
        lemma_keys_among_one(e1, "message"@, keys, 0);
        let e2 = optional_text_entry("model"@, v.model);
        lemma_keys_among_one(e2, "model"@, keys, 1);
        let e3 = optional_text_entry("thinking"@, v.thinking);
        lemma_keys_among_one(e3, "thinking"@, keys, 2);
        let e4 = optional_u64_entry("timeoutSeconds"@, v.timeout_seconds);
        lemma_keys_among_one(e4, "timeoutSeconds"@, keys, 3);
        lemma_keys_among_concat(e1, e2, keys);
        lemma_keys_among_concat(e1 + e2, e3, keys);
        lemma_keys_among_concat(e1 + e2 + e3, e4, keys);
        lemma_other_fields_follow(e1 + e2 + e3 + e4, o, keys, key);
    }
}

impl AgentTurn {
    /// The keys of the declared fields.
    pub fn keys() -> (r: Vec<&'static str>)
        ensures
            r.deep_view() == AgentTurnModel::keys(),
    {
        let r = vec!["message", "model", "thinking", "timeoutSeconds"];
        assert(r.deep_view() =~= AgentTurnModel::keys());
        r
    }

    /// Decodes a document; the fields that the type does not declare are
    /// kept in `extra`.
    pub fn decode(value: &JsonValue) -> (r: Option<AgentTurn>)
        ensures
            r.deep_view() == AgentTurnModel::decoded(value@),
    {
        let o = match value {
            JsonValue::Object(o) => o,
            _ => {
                return None;
            },
        };
        let message = required_text(o, "message")?;
        let model = optional_text(o, "model")?;
        let thinking = optional_text(o, "thinking")?;
        let timeout_seconds = optional_u64(o, "timeoutSeconds")?;
        let extra = o.without(&Self::keys());
        Some(AgentTurn { message, model, thinking, timeout_seconds, extra })
    }

    /// Encodes the value as a document.
    pub fn encode(&self) -> (r: JsonValue)
        ensures
            r@ == self.deep_view().encoded(),
    {
        let mut o = JsonObject::new();
        put_text(&mut o, "message", &self.message);
        put_optional_text(&mut o, "model", &self.model);
        put_optional_text(&mut o, "thinking", &self.thinking);
        put_optional_u64(&mut o, "timeoutSeconds", &self.timeout_seconds);
        o.extend(&self.extra);
        let r = JsonValue::Object(o);
        assert(r@->Object_0 =~= self.deep_view().encoded()->Object_0);
        r
    }
}

/// A system event to record in a session.
#[derive(Debug, PartialEq, Eq)]
pub struct SystemEvent {
    pub text: Option<String>,
    pub session_key: Option<String>,
    pub mode: Option<String>,
    /// The fields that the type does not declare.
    pub extra: JsonObject,
}

/// The model of [`SystemEvent`].
pub struct SystemEventModel {
    pub text: Option<Seq<char>>,
    pub session_key: Option<Seq<char>>,
    pub mode: Option<Seq<char>>,
    pub extra: ObjectModel,
}

impl DeepView for SystemEvent {
    type V = SystemEventModel;

    open spec fn deep_view(&self) -> SystemEventModel {
        SystemEventModel {
            text: self.text.deep_view(),
            session_key: self.session_key.deep_view(),
            mode: self.mode.deep_view(),
            extra: self.extra.deep_view(),
        }
    }
}

impl SystemEventModel {
    /// The keys of the declared fields.
    pub open spec fn keys() -> Seq<Seq<char>> {
        seq!["text"@, "sessionKey"@, "mode"@]
    }

    /// What a document decodes to: nothing unless it is an object whose
    /// declared fields all have their types.
    pub open spec fn decoded(m: JsonModel) -> Option<SystemEventModel> {
        match m {
            JsonModel::Object(o) => {
                let text = optional(o, "text"@, |m: JsonModel| text_of(m));
                let session_key = optional(o, "sessionKey"@, |m: JsonModel| text_of(m));
                let mode = optional(o, "mode"@, |m: JsonModel| text_of(m));
                if text is Some && session_key is Some && mode is Some {
                    Some(
                        SystemEventModel {
                            text: text->0,
                            session_key: session_key->0,
                            mode: mode->0,
                            extra: without_keys(o, Self::keys()),
                        },
                    )
                } else {
                    None
                }
            },
            _ => None,
        }
    }

    /// The document that a value is written as: the declared fields in
    /// order, then the others.
    pub open spec fn encoded(self) -> JsonModel {
        JsonModel::Object(
            optional_text_entry("text"@, self.text)
                + optional_text_entry("sessionKey"@, self.session_key)
                + optional_text_entry("mode"@, self.mode)
                + self.extra,
        )
    }

    /// The document of an optional value.
    pub open spec fn encoded_optional(value: Option<SystemEventModel>) -> Option<JsonModel> {
        match value {
            Some(v) => Some(v.encoded()),
            None => None,
        }
    }

    /// A field that the type does not declare is written back as it was
    /// read.
    pub proof fn lemma_other_fields_survive(m: JsonModel, key: Seq<char>)
        requires
            Self::decoded(m) is Some,
            !Self::keys().contains(key),
        ensures
            m is Object,
            lookup(Self::decoded(m)->0.encoded()->Object_0, key) == lookup(m->Object_0, key),
    {
        let o = m->Object_0;
        let v = Self::decoded(m)->0;
        let keys = Self::keys();
        let e1 = optional_text_entry("text"@, v.text);
        lemma_keys_among_one(e1, "text"@, keys, 0);
        let e2 = optional_text_entry("sessionKey"@, v.session_key);
        lemma_keys_among_one(e2, "sessionKey"@, keys, 1);
        let e3 = optional_text_entry("mode"@, v.mode);
        lemma_keys_among_one(e3, "mode"@, keys, 2);
        lemma_keys_among_concat(e1, e2, keys);
        lemma_keys_among_concat(e1 + e2, e3, keys);
        lemma_other_fields_follow(e1 + e2 + e3, o, keys, key);
    }
}

impl SystemEvent {
    /// The keys of the declared fields.
    pub fn keys() -> (r: Vec<&'static str>)
        ensures
            r.deep_view() == SystemEventModel::keys(),
    {
        let r = vec!["text", "sessionKey", "mode"];
        assert(r.deep_view() =~= SystemEventModel::keys());
        r
    }

    /// Decodes a document; the fields that the type does not declare are
    /// kept in `extra`.
    pub fn decode(value: &JsonValue) -> (r: Option<SystemEvent>)
        ensures
            r.deep_view() == SystemEventModel::decoded(value@),
    {
        let o = match value {
            JsonValue::Object(o) => o,
            _ => {
                return None;
            },
        };
        let text = optional_text(o, "text")?;
        let session_key = optional_text(o, "sessionKey")?;
        let mode = optional_text(o, "mode")?;
        let extra = o.without(&Self::keys());
        Some(SystemEvent { text, session_key, mode, extra })
    }

    /// Encodes the value as a document.
    pub fn encode(&self) -> (r: JsonValue)
        ensures
            r@ == self.deep_view().encoded(),
    {
        let mut o = JsonObject::new();
        put_optional_text(&mut o, "text", &self.text);
        put_optional_text(&mut o, "sessionKey", &self.session_key);
        put_optional_text(&mut o, "mode", &self.mode);
        o.extend(&self.extra);
        let r = JsonValue::Object(o);
        assert(r@->Object_0 =~= self.deep_view().encoded()->Object_0);
        r
    }
}

/// Which sessions to list.
#[derive(Debug, PartialEq, Eq)]
pub struct SessionsListParams {
    pub limit: Option<u32>,
    pub cursor: Option<String>,
    /// The fields that the type does not declare.
    pub extra: JsonObject,
}

/// The model of [`SessionsListParams`].
pub struct SessionsListParamsModel {
    pub limit: Option<u32>,
    pub cursor: Option<Seq<char>>,
    pub extra: ObjectModel,
}

impl DeepView for SessionsListParams {
    type V = SessionsListParamsModel;

    open spec fn deep_view(&self) -> SessionsListParamsModel {
        SessionsListParamsModel {
            limit: self.limit.deep_view(),
            cursor: self.cursor.deep_view(),
            extra: self.extra.deep_view(),
        }
    }
}

impl SessionsListParamsModel {
    /// The keys of the declared fields.
    pub open spec fn keys() -> Seq<Seq<char>> {
        seq!["limit"@, "cursor"@]
    }

    /// What a document decodes to: nothing unless it is an object whose
    /// declared fields all have their types.
    pub open spec fn decoded(m: JsonModel) -> Option<SessionsListParamsModel> {
        match m {
            JsonModel::Object(o) => {
                let limit = optional(o, "limit"@, |m: JsonModel| u32_of(m));
                let cursor = optional(o, "cursor"@, |m: JsonModel| text_of(m));
                if limit is Some && cursor is Some {
                    Some(
                        SessionsListParamsModel {
                            limit: limit->0,
                            cursor: cursor->0,
                            extra: without_keys(o, Self::keys()),
                        },
                    )
                } else {
                    None
                }
            },
            _ => None,
        }
    }

    /// The document that a value is written as: the declared fields in
    /// order, then the others.
    pub open spec fn encoded(self) -> JsonModel {
        JsonModel::Object(
            optional_u32_entry("limit"@, self.limit)
                + optional_text_entry("cursor"@, self.cursor)
                + self.extra,
        )
    }

    /// The document of an optional value.
    pub open spec fn encoded_optional(value: Option<SessionsListParamsModel>) -> Option<JsonModel> {
        match value {
            Some(v) => Some(v.encoded()),
            None => None,
        }
    }

    /// A field that the type does not declare is written back as it was
    /// read.
    pub proof fn lemma_other_fields_survive(m: JsonModel, key: Seq<char>)
        requires
            Self::decoded(m) is Some,
            !Self::keys().contains(key),
        ensures
            m is Object,
            lookup(Self::decoded(m)->0.encoded()->Object_0, key) == lookup(m->Object_0, key),
    {
        let o = m->Object_0;
        let v = Self::decoded(m)->0;
        let keys = Self::keys();
        let e1 = optional_u32_entry("limit"@, v.limit);
        lemma_keys_among_one(e1, "limit"@, keys, 0);
        let e2 = optional_text_entry("cursor"@, v.cursor);
        lemma_keys_among_one(e2, "cursor"@, keys, 1);
        lemma_keys_among_concat(e1, e2, keys);
        lemma_other_fields_follow(e1 + e2, o, keys, key);
    }
}

impl SessionsListParams {
    /// The keys of the declared fields.
    pub fn keys() -> (r: Vec<&'static str>)
        ensures
            r.deep_view() == SessionsListParamsModel::keys(),
    {
        let r = vec!["limit", "cursor"];
        assert(r.deep_view() =~= SessionsListParamsModel::keys());
        r
    }

    /// Decodes a document; the fields that the type does not declare are
    /// kept in `extra`.
    pub fn decode(value: &JsonValue) -> (r: Option<SessionsListParams>)
        ensures
            r.deep_view() == SessionsListParamsModel::decoded(value@),
    {
        let o = match value {
            JsonValue::Object(o) => o,
            _ => {
                return None;
            },
        };
        let limit = optional_u32(o, "limit")?;
        let cursor = optional_text(o, "cursor")?;
        let extra = o.without(&Self::keys());
        Some(SessionsListParams { limit, cursor, extra })
    }

    /// Encodes the value as a document.
    pub fn encode(&self) -> (r: JsonValue)
        ensures
            r@ == self.deep_view().encoded(),
    {
        let mut o = JsonObject::new();
        put_optional_u32(&mut o, "limit", &self.limit);
        put_optional_text(&mut o, "cursor", &self.cursor);
        o.extend(&self.extra);
        let r = JsonValue::Object(o);
        assert(r@->Object_0 =~= self.deep_view().encoded()->Object_0);
        r
    }
}

impl Default for SessionsListParams {
    /// The value with every field empty.
    fn default() -> (r: SessionsListParams)
        ensures
            r.limit is None,
            r.cursor is None,
            r.extra@ == Seq::<(Seq<char>, JsonModel)>::empty(),
    {
        SessionsListParams {
            limit: None,
            cursor: None,
            extra: JsonObject::new(),
        }
    }
}

/// The session to start.
#[derive(Debug, PartialEq, Eq)]
pub struct SessionsSpawnParams {
    pub parent_session_key: Option<String>,
    pub label: Option<String>,
    pub metadata: Option<JsonObject>,
    /// The fields that the type does not declare.
    pub extra: JsonObject,
}

/// The model of [`SessionsSpawnParams`].
pub struct SessionsSpawnParamsModel {
    pub parent_session_key: Option<Seq<char>>,
    pub label: Option<Seq<char>>,
    pub metadata: Option<ObjectModel>,
    pub extra: ObjectModel,
}

impl DeepView for SessionsSpawnParams {
    type V = SessionsSpawnParamsModel;

    open spec fn deep_view(&self) -> SessionsSpawnParamsModel {
        SessionsSpawnParamsModel {
            parent_session_key: self.parent_session_key.deep_view(),
            label: self.label.deep_view(),
            metadata: self.metadata.deep_view(),
            extra: self.extra.deep_view(),
        }
    }
}

impl SessionsSpawnParamsModel {
    /// The keys of the declared fields.
    pub open spec fn keys() -> Seq<Seq<char>> {
        seq!["parentSessionKey"@, "label"@, "metadata"@]
    }

    /// What a document decodes to: nothing unless it is an object whose
    /// declared fields all have their types.
    pub open spec fn decoded(m: JsonModel) -> Option<SessionsSpawnParamsModel> {
        match m {
            JsonModel::Object(o) => {
                let parent_session_key = optional(
                    o,
                    "parentSessionKey"@,
                    |m: JsonModel| text_of(m),
                );
                let label = optional(o, "label"@, |m: JsonModel| text_of(m));
                let metadata = optional(o, "metadata"@, |m: JsonModel| object_of(m));
                if parent_session_key is Some && label is Some && metadata is Some {
                    Some(
                        SessionsSpawnParamsModel {
                            parent_session_key: parent_session_key->0,
                            label: label->0,
                            metadata: metadata->0,
                            extra: without_keys(o, Self::keys()),
                        },
                    )
                } else {
                    None
                }
            },
            _ => None,
        }
    }

    /// The document that a value is written as: the declared fields in
    /// order, then the others.
    pub open spec fn encoded(self) -> JsonModel {
        JsonModel::Object(
            optional_text_entry("parentSessionKey"@, self.parent_session_key)
                + optional_text_entry("label"@, self.label)
                + optional_object_entry("metadata"@, self.metadata)
                + self.extra,
        )
    }

    /// The document of an optional value.
    pub open spec fn encoded_optional(
        value: Option<SessionsSpawnParamsModel>,
    ) -> Option<JsonModel> {
        match value {
            Some(v) => Some(v.encoded()),
            None => None,
        }
    }

    /// A field that the type does not declare is written back as it was
    /// read.
    pub proof fn lemma_other_fields_survive(m: JsonModel, key: Seq<char>)
        requires
            Self::decoded(m) is Some,
            !Self::keys().contains(key),
        ensures
            m is Object,
            lookup(Self::decoded(m)->0.encoded()->Object_0, key) == lookup(m->Object_0, key),
    {
        let o = m->Object_0;
        let v = Self::decoded(m)->0;
        let keys = Self::keys();
        let e1 = optional_text_entry("parentSessionKey"@, v.parent_session_key);
        lemma_keys_among_one(e1, "parentSessionKey"@, keys, 0);
        let e2 = optional_text_entry("label"@, v.label);
        lemma_keys_among_one(e2, "label"@, keys, 1);
        let e3 = optional_object_entry("metadata"@, v.metadata);
        lemma_keys_among_one(e3, "metadata"@, keys, 2);
        lemma_keys_among_concat(e1, e2, keys);
        lemma_keys_among_concat(e1 + e2, e3, keys);
        lemma_other_fields_follow(e1 + e2 + e3, o, keys, key);
    }
}

impl SessionsSpawnParams {
    /// The keys of the declared fields.
    pub fn keys() -> (r: Vec<&'static str>)
        ensures
            r.deep_view() == SessionsSpawnParamsModel::keys(),
    {
        let r = vec!["parentSessionKey", "label", "metadata"];
        assert(r.deep_view() =~= SessionsSpawnParamsModel::keys());
        r
    }

    /// Decodes a document; the fields that the type does not declare are
    /// kept in `extra`.
    pub fn decode(value: &JsonValue) -> (r: Option<SessionsSpawnParams>)
        ensures
            r.deep_view() == SessionsSpawnParamsModel::decoded(value@),
    {
        let o = match value {
            JsonValue::Object(o) => o,
            _ => {
                return None;
            },
        };
        let parent_session_key = optional_text(o, "parentSessionKey")?;
        let label = optional_text(o, "label")?;
        let metadata = optional_object(o, "metadata")?;
        let extra = o.without(&Self::keys());
        Some(SessionsSpawnParams { parent_session_key, label, metadata, extra })
    }

    /// Encodes the value as a document.
    pub fn encode(&self) -> (r: JsonValue)
        ensures
            r@ == self.deep_view().encoded(),
    {
        let mut o = JsonObject::new();
        put_optional_text(&mut o, "parentSessionKey", &self.parent_session_key);
        put_optional_text(&mut o, "label", &self.label);
        put_optional_object(&mut o, "metadata", &self.metadata);
        o.extend(&self.extra);
        let r = JsonValue::Object(o);
        assert(r@->Object_0 =~= self.deep_view().encoded()->Object_0);
        r
    }
}

impl Default for SessionsSpawnParams {
    /// The value with every field empty.
    fn default() -> (r: SessionsSpawnParams)
        ensures
            r.parent_session_key is None,
            r.label is None,
            r.metadata is None,
            r.extra@ == Seq::<(Seq<char>, JsonModel)>::empty(),
    {
        SessionsSpawnParams {
            parent_session_key: None,
            label: None,
            metadata: None,
            extra: JsonObject::new(),
        }
    }
}

/// The session to close.
#[derive(Debug, PartialEq, Eq)]
pub struct SessionsCloseParams {
    pub session_key: String,
    pub reason: Option<String>,
    pub archive: bool,
    pub metadata: Option<JsonObject>,
    /// The fields that the type does not declare.
    pub extra: JsonObject,
}

/// The model of [`SessionsCloseParams`].
pub struct SessionsCloseParamsModel {
    pub session_key: Seq<char>,
    pub reason: Option<Seq<char>>,
    pub archive: bool,
    pub metadata: Option<ObjectModel>,
    pub extra: ObjectModel,
}

impl DeepView for SessionsCloseParams {
    type V = SessionsCloseParamsModel;

    open spec fn deep_view(&self) -> SessionsCloseParamsModel {
        SessionsCloseParamsModel {
            session_key: self.session_key.deep_view(),
            reason: self.reason.deep_view(),
            archive: self.archive.deep_view(),
            metadata: self.metadata.deep_view(),
            extra: self.extra.deep_view(),
        }
    }
}

impl SessionsCloseParamsModel {
    /// The keys of the declared fields.
    pub open spec fn keys() -> Seq<Seq<char>> {
        seq!["sessionKey"@, "reason"@, "archive"@, "metadata"@]
    }

    /// What a document decodes to: nothing unless it is an object whose
    /// declared fields all have their types.
    pub open spec fn decoded(m: JsonModel) -> Option<SessionsCloseParamsModel> {
        match m {
            JsonModel::Object(o) => {
                let session_key = required(o, "sessionKey"@, |m: JsonModel| text_of(m));
                let reason = optional(o, "reason"@, |m: JsonModel| text_of(m));
                let archive = defaulted(o, "archive"@, |m: JsonModel| bool_of(m), false);
                let metadata = optional(o, "metadata"@, |m: JsonModel| object_of(m));
                if session_key is Some && reason is Some && archive is Some && metadata is Some {
                    Some(
                        SessionsCloseParamsModel {
                            session_key: session_key->0,
                            reason: reason->0,
                            archive: archive->0,
                            metadata: metadata->0,
                            extra: without_keys(o, Self::keys()),
                        },
                    )
                } else {
                    None
                }
            },
            _ => None,
        }
    }

    /// The document that a value is written as: the declared fields in
    /// order, then the others.
    pub open spec fn encoded(self) -> JsonModel {
        JsonModel::Object(
            text_entry("sessionKey"@, self.session_key)
                + optional_text_entry("reason"@, self.reason)
                + bool_entry("archive"@, self.archive)
                + optional_object_entry("metadata"@, self.metadata)
                + self.extra,
        )
    }

    /// The document of an optional value.
    pub open spec fn encoded_optional(
        value: Option<SessionsCloseParamsModel>,
    ) -> Option<JsonModel> {
        match value {
            Some(v) => Some(v.encoded()),
            None => None,
        }
    }

    /// A field that the type does not declare is written back as it was
    /// read.
    pub proof fn lemma_other_fields_survive(m: JsonModel, key: Seq<char>)
        requires
            Self::decoded(m) is Some,
            !Self::keys().contains(key),
        ensures
            m is Object,
            lookup(Self::decoded(m)->0.encoded()->Object_0, key) == lookup(m->Object_0, key),
    {
        let o = m->Object_0;
        let v = Self::decoded(m)->0;
        let keys = Self::keys();
        let e1 = text_entry("sessionKey"@, v.session_key);
        lemma_keys_among_one(e1, "sessionKey"@, keys, 0);
        let e2 = optional_text_entry("reason"@, v.reason);
        lemma_keys_among_one(e2, "reason"@, keys, 1);
        let e3 = bool_entry("archive"@, v.archive);
        lemma_keys_among_one(e3, "archive"@, keys, 2);
        let e4 = optional_object_entry("metadata"@, v.metadata);
        lemma_keys_among_one(e4, "metadata"@, keys, 3);
        lemma_keys_among_concat(e1, e2, keys);
        lemma_keys_among_concat(e1 + e2, e3, keys);
        lemma_keys_among_concat(e1 + e2 + e3, e4, keys);
        lemma_other_fields_follow(e1 + e2 + e3 + e4, o, keys, key);
    }
}

impl SessionsCloseParams {
    /// The keys of the declared fields.
    pub fn keys() -> (r: Vec<&'static str>)
        ensures
            r.deep_view() == SessionsCloseParamsModel::keys(),
    {
        let r = vec!["sessionKey", "reason", "archive", "metadata"];
        assert(r.deep_view() =~= SessionsCloseParamsModel::keys());
        r
    }

    /// Decodes a document; the fields that the type does not declare are
    /// kept in `extra`.
    pub fn decode(value: &JsonValue) -> (r: Option<SessionsCloseParams>)
        ensures
            r.deep_view() == SessionsCloseParamsModel::decoded(value@),
    {
        let o = match value {
            JsonValue::Object(o) => o,
            _ => {
                return None;
            },
        };
        let session_key = required_text(o, "sessionKey")?;
        let reason = optional_text(o, "reason")?;
        let archive = defaulted_bool(o, "archive", false)?;
        let metadata = optional_object(o, "metadata")?;
        let extra = o.without(&Self::keys());
        Some(SessionsCloseParams { session_key, reason, archive, metadata, extra })
    }

    /// Encodes the value as a document.
    pub fn encode(&self) -> (r: JsonValue)
        ensures
            r@ == self.deep_view().encoded(),
    {
        let mut o = JsonObject::new();
        put_text(&mut o, "sessionKey", &self.session_key);
        put_optional_text(&mut o, "reason", &self.reason);
        put_bool(&mut o, "archive", &self.archive);
        put_optional_object(&mut o, "metadata", &self.metadata);
        o.extend(&self.extra);
        let r = JsonValue::Object(o);
        assert(r@->Object_0 =~= self.deep_view().encoded()->Object_0);
        r
    }
}

impl Default for SessionsCloseParams {
    /// An empty value that asks for the session to be archived.
    fn default() -> (r: SessionsCloseParams)
        ensures
            r.session_key@.len() == 0,
            r.reason is None,
            r.archive,
            r.metadata is None,
            r.extra@ == Seq::<(Seq<char>, JsonModel)>::empty(),
    {
        SessionsCloseParams {
            session_key: String::new(),
            reason: None,
            archive: true,
            metadata: None,
            extra: JsonObject::new(),
        }
    }
}

/// The stream to open.
#[derive(Debug, PartialEq, Eq)]
pub struct StreamOpenParams {
    pub stream: String,
    pub term: Option<String>,
    pub cols: Option<u32>,
    pub rows: Option<u32>,
    pub metadata: Option<JsonObject>,
    /// The fields that the type does not declare.
    pub extra: JsonObject,
}

/// The model of [`StreamOpenParams`].
pub struct StreamOpenParamsModel {
    pub stream: Seq<char>,
    pub term: Option<Seq<char>>,
    pub cols: Option<u32>,
    pub rows: Option<u32>,
    pub metadata: Option<ObjectModel>,
    pub extra: ObjectModel,
}

impl DeepView for StreamOpenParams {
    type V = StreamOpenParamsModel;

    open spec fn deep_view(&self) -> StreamOpenParamsModel {
        StreamOpenParamsModel {
            stream: self.stream.deep_view(),
            term: self.term.deep_view(),
            cols: self.cols.deep_view(),
            rows: self.rows.deep_view(),
            metadata: self.metadata.deep_view(),
            extra: self.extra.deep_view(),
        }
    }
}

impl StreamOpenParamsModel {
    /// The keys of the declared fields.
    pub open spec fn keys() -> Seq<Seq<char>> {
        seq!["stream"@, "term"@, "cols"@, "rows"@, "metadata"@]
    }

    /// What a document decodes to: nothing unless it is an object whose
    /// declared fields all have their types.
    pub open spec fn decoded(m: JsonModel) -> Option<StreamOpenParamsModel> {
        match m {
            JsonModel::Object(o) => {
                let stream = required(o, "stream"@, |m: JsonModel| text_of(m));
                let term = optional(o, "term"@, |m: JsonModel| text_of(m));
                let cols = optional(o, "cols"@, |m: JsonModel| u32_of(m));
                let rows = optional(o, "rows"@, |m: JsonModel| u32_of(m));
                let metadata = optional(o, "metadata"@, |m: JsonModel| object_of(m));
                if stream is Some && term is Some && cols is Some && rows is Some
                    && metadata is Some {
                    Some(
                        StreamOpenParamsModel {
                            stream: stream->0,
                            term: term->0,
                            cols: cols->0,
                            rows: rows->0,
                            metadata: metadata->0,
                            extra: without_keys(o, Self::keys()),
                        },
                    )
                } else {
                    None
                }
            },
            _ => None,
        }
    }

    /// The document that a value is written as: the declared fields in
    /// order, then the others.
    pub open spec fn encoded(self) -> JsonModel {
        JsonModel::Object(
            text_entry("stream"@, self.stream)
                + optional_text_entry("term"@, self.term)
                + optional_u32_entry("cols"@, self.cols)
                + optional_u32_entry("rows"@, self.rows)
                + optional_object_entry("metadata"@, self.metadata)
                + self.extra,
        )
    }

    /// The document of an optional value.
    pub open spec fn encoded_optional(value: Option<StreamOpenParamsModel>) -> Option<JsonModel> {
        match value {
            Some(v) => Some(v.encoded()),
            None => None,
        }
    }

    /// A field that the type does not declare is written back as it was
    /// read.
    pub proof fn lemma_other_fields_survive(m: JsonModel, key: Seq<char>)
        requires
            Self::decoded(m) is Some,
            !Self::keys().contains(key),
        ensures
            m is Object,
            lookup(Self::decoded(m)->0.encoded()->Object_0, key) == lookup(m->Object_0, key),
    {
        let o = m->Object_0;
        let v = Self::decoded(m)->0;
        let keys = Self::keys();
        let e1 = text_entry("stream"@, v.stream);
        lemma_keys_among_one(e1, "stream"@, keys, 0);
        let e2 = optional_text_entry("term"@, v.term);
        lemma_keys_among_one(e2, "term"@, keys, 1);
        let e3 = optional_u32_entry("cols"@, v.cols);
        lemma_keys_among_one(e3, "cols"@, keys, 2);
        let e4 = optional_u32_entry("rows"@, v.rows);
        lemma_keys_among_one(e4, "rows"@, keys, 3);
        let e5 = optional_object_entry("metadata"@, v.metadata);
        lemma_keys_among_one(e5, "metadata"@, keys, 4);
        lemma_keys_among_concat(e1, e2, keys);
        lemma_keys_among_concat(e1 + e2, e3, keys);
        lemma_keys_among_concat(e1 + e2 + e3, e4, keys);
        lemma_keys_among_concat(e1 + e2 + e3 + e4, e5, keys);
        lemma_other_fields_follow(e1 + e2 + e3 + e4 + e5, o, keys, key);
    }
}

impl StreamOpenParams {
    /// The keys of the declared fields.
    pub fn keys() -> (r: Vec<&'static str>)
        ensures
            r.deep_view() == StreamOpenParamsModel::keys(),
    {
        let r = vec!["stream", "term", "cols", "rows", "metadata"];
        assert(r.deep_view() =~= StreamOpenParamsModel::keys());
        r
    }

    /// Decodes a document; the fields that the type does not declare are
    /// kept in `extra`.
    pub fn decode(value: &JsonValue) -> (r: Option<StreamOpenParams>)
        ensures
            r.deep_view() == StreamOpenParamsModel::decoded(value@),
    {
        let o = match value {
            JsonValue::Object(o) => o,
            _ => {
                return None;
            },
        };
        let stream = required_text(o, "stream")?;
        let term = optional_text(o, "term")?;
        let cols = optional_u32(o, "cols")?;
        let rows = optional_u32(o, "rows")?;
        let metadata = optional_object(o, "metadata")?;
        let extra = o.without(&Self::keys());
        Some(StreamOpenParams { stream, term, cols, rows, metadata, extra })
    }

    /// Encodes the value as a document.
    pub fn encode(&self) -> (r: JsonValue)
        ensures
            r@ == self.deep_view().encoded(),
    {
        let mut o = JsonObject::new();
        put_text(&mut o, "stream", &self.stream);
        put_optional_text(&mut o, "term", &self.term);
        put_optional_u32(&mut o, "cols", &self.cols);
        put_optional_u32(&mut o, "rows", &self.rows);
        put_optional_object(&mut o, "metadata", &self.metadata);
        o.extend(&self.extra);
        let r = JsonValue::Object(o);
        assert(r@->Object_0 =~= self.deep_view().encoded()->Object_0);
        r
    }
}

impl Default for StreamOpenParams {
    /// The value with every field empty.
    fn default() -> (r: StreamOpenParams)
        ensures
            r.stream@.len() == 0,
            r.term is None,
            r.cols is None,
            r.rows is None,
            r.metadata is None,
            r.extra@ == Seq::<(Seq<char>, JsonModel)>::empty(),
    {
        StreamOpenParams {
            stream: String::new(),
            term: None,
            cols: None,
            rows: None,
            metadata: None,
            extra: JsonObject::new(),
        }
    }
}

/// Data or a control event for an open stream.
#[derive(Debug, PartialEq, Eq)]
pub struct StreamSendParams {
    pub stream: String,
    pub stream_id: Option<String>,
    pub channel: Option<String>,
    pub event: Option<String>,
    pub data: Option<String>,
    pub encoding: Option<String>,
    pub cols: Option<u32>,
    pub rows: Option<u32>,
    /// The fields that the type does not declare.
    pub extra: JsonObject,
}

/// The model of [`StreamSendParams`].
pub struct StreamSendParamsModel {
    pub stream: Seq<char>,
    pub stream_id: Option<Seq<char>>,
    pub channel: Option<Seq<char>>,
    pub event: Option<Seq<char>>,
    pub data: Option<Seq<char>>,
    pub encoding: Option<Seq<char>>,
    pub cols: Option<u32>,
    pub rows: Option<u32>,
    pub extra: ObjectModel,
}

impl DeepView for StreamSendParams {
    type V = StreamSendParamsModel;

    open spec fn deep_view(&self) -> StreamSendParamsModel {
        StreamSendParamsModel {
            stream: self.stream.deep_view(),
            stream_id: self.stream_id.deep_view(),
            channel: self.channel.deep_view(),
            event: self.event.deep_view(),
            data: self.data.deep_view(),
            encoding: self.encoding.deep_view(),
            cols: self.cols.deep_view(),
            rows: self.rows.deep_view(),
            extra: self.extra.deep_view(),
        }
    }
}

impl StreamSendParamsModel {
    /// The keys of the declared fields.
    pub open spec fn keys() -> Seq<Seq<char>> {
        seq!["stream"@, "streamId"@, "channel"@, "event"@, "data"@, "encoding"@, "cols"@, "rows"@]
    }

    /// What a document decodes to: nothing unless it is an object whose
    /// declared fields all have their types.
    pub open spec fn decoded(m: JsonModel) -> Option<StreamSendParamsModel> {
        match m {
            JsonModel::Object(o) => {
                let stream = required(o, "stream"@, |m: JsonModel| text_of(m));
                let stream_id = optional(o, "streamId"@, |m: JsonModel| text_of(m));
                let channel = optional(o, "channel"@, |m: JsonModel| text_of(m));
                let event = optional(o, "event"@, |m: JsonModel| text_of(m));
                let data = optional(o, "data"@, |m: JsonModel| text_of(m));
                let encoding = optional(o, "encoding"@, |m: JsonModel| text_of(m));
                let cols = optional(o, "cols"@, |m: JsonModel| u32_of(m));
                let rows = optional(o, "rows"@, |m: JsonModel| u32_of(m));
                if stream is Some && stream_id is Some && channel is Some && event is Some
                    && data is Some && encoding is Some && cols is Some && rows is Some {
                    Some(
                        StreamSendParamsModel {
                            stream: stream->0,
                            stream_id: stream_id->0,
                            channel: channel->0,
                            event: event->0,
                            data: data->0,
                            encoding: encoding->0,
                            cols: cols->0,
                            rows: rows->0,
                            extra: without_keys(o, Self::keys()),
                        },
                    )
                } else {
                    None
                }
            },
            _ => None,
        }
    }

    /// The document that a value is written as: the declared fields in
    /// order, then the others.
    pub open spec fn encoded(self) -> JsonModel {
        JsonModel::Object(
            text_entry("stream"@, self.stream)
                + optional_text_entry("streamId"@, self.stream_id)
                + optional_text_entry("channel"@, self.channel)
                + optional_text_entry("event"@, self.event)
                + optional_text_entry("data"@, self.data)
                + optional_text_entry("encoding"@, self.encoding)
                + optional_u32_entry("cols"@, self.cols)
                + optional_u32_entry("rows"@, self.rows)
                + self.extra,
        )
    }

    /// The document of an optional value.
    pub open spec fn encoded_optional(value: Option<StreamSendParamsModel>) -> Option<JsonModel> {
        match value {
            Some(v) => Some(v.encoded()),
            None => None,
        }
    }

    /// A field that the type does not declare is written back as it was
    /// read.
    pub proof fn lemma_other_fields_survive(m: JsonModel, key: Seq<char>)
        requires
            Self::decoded(m) is Some,
            !Self::keys().contains(key),
        ensures
            m is Object,
            lookup(Self::decoded(m)->0.encoded()->Object_0, key) == lookup(m->Object_0, key),
    {
        let o = m->Object_0;
        let v = Self::decoded(m)->0;
        let keys = Self::keys();
        let e1 = text_entry("stream"@, v.stream);
        lemma_keys_among_one(e1, "stream"@, keys, 0);
        let e2 = optional_text_entry("streamId"@, v.stream_id);
        lemma_keys_among_one(e2, "streamId"@, keys, 1);
        let e3 = optional_text_entry("channel"@, v.channel);
        lemma_keys_among_one(e3, "channel"@, keys, 2);
        let e4 = optional_text_entry("event"@, v.event);
        lemma_keys_among_one(e4, "event"@, keys, 3);
        let e5 = optional_text_entry("data"@, v.data);
        lemma_keys_among_one(e5, "data"@, keys, 4);
        let e6 = optional_text_entry("encoding"@, v.encoding);
        lemma_keys_among_one(e6, "encoding"@, keys, 5);
        let e7 = optional_u32_entry("cols"@, v.cols);
        lemma_keys_among_one(e7, "cols"@, keys, 6);
        let e8 = optional_u32_entry("rows"@, v.rows);
        lemma_keys_among_one(e8, "rows"@, keys, 7);
        lemma_keys_among_concat(e1, e2, keys);
        lemma_keys_among_concat(e1 + e2, e3, keys);
        lemma_keys_among_concat(e1 + e2 + e3, e4, keys);
        lemma_keys_among_concat(e1 + e2 + e3 + e4, e5, keys);
        lemma_keys_among_concat(e1 + e2 + e3 + e4 + e5, e6, keys);
        lemma_keys_among_concat(e1 + e2 + e3 + e4 + e5 + e6, e7, keys);
        lemma_keys_among_concat(e1 + e2 + e3 + e4 + e5 + e6 + e7, e8, keys);
        lemma_other_fields_follow(e1 + e2 + e3 + e4 + e5 + e6 + e7 + e8, o, keys, key);
    }
}

impl StreamSendParams {
    /// The keys of the declared fields.
    pub fn keys() -> (r: Vec<&'static str>)
        ensures
            r.deep_view() == StreamSendParamsModel::keys(),
    {
        let r = vec!["stream", "streamId", "channel", "event", "data", "encoding", "cols", "rows"];
        assert(r.deep_view() =~= StreamSendParamsModel::keys());
        r
    }

    /// Decodes a document; the fields that the type does not declare are
    /// kept in `extra`.
    pub fn decode(value: &JsonValue) -> (r: Option<StreamSendParams>)
        ensures
            r.deep_view() == StreamSendParamsModel::decoded(value@),
    {
        let o = match value {
            JsonValue::Object(o) => o,
            _ => {
                return None;
            },
        };
        let stream = required_text(o, "stream")?;
        let stream_id = optional_text(o, "streamId")?;
        let channel = optional_text(o, "channel")?;
        let event = optional_text(o, "event")?;
        let data = optional_text(o, "data")?;
        let encoding = optional_text(o, "encoding")?;
        let cols = optional_u32(o, "cols")?;
        let rows = optional_u32(o, "rows")?;
        let extra = o.without(&Self::keys());
        Some(
            StreamSendParams {
                stream,
                stream_id,
                channel,
                event,
                data,
                encoding,
                cols,
                rows,
                extra,
            },
        )
    }

    /// Encodes the value as a document.
    pub fn encode(&self) -> (r: JsonValue)
        ensures
            r@ == self.deep_view().encoded(),
    {
        let mut o = JsonObject::new();
        put_text(&mut o, "stream", &self.stream);
        put_optional_text(&mut o, "streamId", &self.stream_id);
        put_optional_text(&mut o, "channel", &self.channel);
        put_optional_text(&mut o, "event", &self.event);
        put_optional_text(&mut o, "data", &self.data);
        put_optional_text(&mut o, "encoding", &self.encoding);
        put_optional_u32(&mut o, "cols", &self.cols);
        put_optional_u32(&mut o, "rows", &self.rows);
        o.extend(&self.extra);
        let r = JsonValue::Object(o);
        assert(r@->Object_0 =~= self.deep_view().encoded()->Object_0);
        r
    }
}

impl Default for StreamSendParams {
    /// The value with every field empty.
    fn default() -> (r: StreamSendParams)
        ensures
            r.stream@.len() == 0,
            r.stream_id is None,
            r.channel is None,
            r.event is None,
            r.data is None,
            r.encoding is None,
            r.cols is None,
            r.rows is None,
            r.extra@ == Seq::<(Seq<char>, JsonModel)>::empty(),
    {
        StreamSendParams {
            stream: String::new(),
            stream_id: None,
            channel: None,
            event: None,
            data: None,
            encoding: None,
            cols: None,
            rows: None,
            extra: JsonObject::new(),
        }
    }
}

/// The stream to close.
#[derive(Debug, PartialEq, Eq)]
pub struct StreamCloseParams {
    pub stream: String,
    pub stream_id: Option<String>,
    pub reason: Option<String>,
    /// The fields that the type does not declare.
    pub extra: JsonObject,
}

/// The model of [`StreamCloseParams`].
pub struct StreamCloseParamsModel {
    pub stream: Seq<char>,
    pub stream_id: Option<Seq<char>>,
    pub reason: Option<Seq<char>>,
    pub extra: ObjectModel,
}

impl DeepView for StreamCloseParams {
    type V = StreamCloseParamsModel;

    open spec fn deep_view(&self) -> StreamCloseParamsModel {
        StreamCloseParamsModel {
            stream: self.stream.deep_view(),
            stream_id: self.stream_id.deep_view(),
            reason: self.reason.deep_view(),
            extra: self.extra.deep_view(),
        }
    }
}

impl StreamCloseParamsModel {
    /// The keys of the declared fields.
    pub open spec fn keys() -> Seq<Seq<char>> {
        seq!["stream"@, "streamId"@, "reason"@]
    }

    /// What a document decodes to: nothing unless it is an object whose
    /// declared fields all have their types.
    pub open spec fn decoded(m: JsonModel) -> Option<StreamCloseParamsModel> {
        match m {
            JsonModel::Object(o) => {
                let stream = required(o, "stream"@, |m: JsonModel| text_of(m));
                let stream_id = optional(o, "streamId"@, |m: JsonModel| text_of(m));
                let reason = optional(o, "reason"@, |m: JsonModel| text_of(m));
                if stream is Some && stream_id is Some && reason is Some {
                    Some(
                        StreamCloseParamsModel {
                            stream: stream->0,
                            stream_id: stream_id->0,
                            reason: reason->0,
                            extra: without_keys(o, Self::keys()),
                        },
                    )
                } else {
                    None
                }
            },
            _ => None,
        }
    }

    /// The document that a value is written as: the declared fields in
    /// order, then the others.
    pub open spec fn encoded(self) -> JsonModel {
        JsonModel::Object(
            text_entry("stream"@, self.stream)
                + optional_text_entry("streamId"@, self.stream_id)
                + optional_text_entry("reason"@, self.reason)
                + self.extra,
        )
    }

    /// The document of an optional value.
    pub open spec fn encoded_optional(value: Option<StreamCloseParamsModel>) -> Option<JsonModel> {
        match value {
            Some(v) => Some(v.encoded()),
            None => None,
        }
    }

    /// A field that the type does not declare is written back as it was
    /// read.
    pub proof fn lemma_other_fields_survive(m: JsonModel, key: Seq<char>)
        requires
            Self::decoded(m) is Some,
            !Self::keys().contains(key),
        ensures
            m is Object,
            lookup(Self::decoded(m)->0.encoded()->Object_0, key) == lookup(m->Object_0, key),
    {
        let o = m->Object_0;
        let v = Self::decoded(m)->0;
        let keys = Self::keys();
        let e1 = text_entry("stream"@, v.stream);
        lemma_keys_among_one(e1, "stream"@, keys, 0);
        let e2 = optional_text_entry("streamId"@, v.stream_id);
        lemma_keys_among_one(e2, "streamId"@, keys, 1);
        let e3 = optional_text_entry("reason"@, v.reason);
        lemma_keys_among_one(e3, "reason"@, keys, 2);
        lemma_keys_among_concat(e1, e2, keys);
        lemma_keys_among_concat(e1 + e2, e3, keys);
        lemma_other_fields_follow(e1 + e2 + e3, o, keys, key);
    }
}

impl StreamCloseParams {
    /// The keys of the declared fields.
    pub fn keys() -> (r: Vec<&'static str>)
        ensures
            r.deep_view() == StreamCloseParamsModel::keys(),
    {
        let r = vec!["stream", "streamId", "reason"];
        assert(r.deep_view() =~= StreamCloseParamsModel::keys());
        r
    }

    /// Decodes a document; the fields that the type does not declare are
    /// kept in `extra`.
    pub fn decode(value: &JsonValue) -> (r: Option<StreamCloseParams>)
        ensures
            r.deep_view() == StreamCloseParamsModel::decoded(value@),
    {
        let o = match value {
            JsonValue::Object(o) => o,
            _ => {
                return None;
            },
        };
        let stream = required_text(o, "stream")?;
        let stream_id = optional_text(o, "streamId")?;
        let reason = optional_text(o, "reason")?;
        let extra = o.without(&Self::keys());
        Some(StreamCloseParams { stream, stream_id, reason, extra })
    }

    /// Encodes the value as a document.
    pub fn encode(&self) -> (r: JsonValue)
        ensures
            r@ == self.deep_view().encoded(),
    {
        let mut o = JsonObject::new();
        put_text(&mut o, "stream", &self.stream);
        put_optional_text(&mut o, "streamId", &self.stream_id);
        put_optional_text(&mut o, "reason", &self.reason);
        o.extend(&self.extra);
        let r = JsonValue::Object(o);
        assert(r@->Object_0 =~= self.deep_view().encoded()->Object_0);
        r
    }
}

impl Default for StreamCloseParams {
    /// The value with every field empty.
    fn default() -> (r: StreamCloseParams)
        ensures
            r.stream@.len() == 0,
            r.stream_id is None,
            r.reason is None,
            r.extra@ == Seq::<(Seq<char>, JsonModel)>::empty(),
    {
        StreamCloseParams {
            stream: String::new(),
            stream_id: None,
            reason: None,
            extra: JsonObject::new(),
        }
    }
}

/// One camera frame, encoded as text.
#[derive(Debug, PartialEq, Eq)]
pub struct CameraSnapshot {
    pub data: String,
    pub encoding: String,
    pub compression: Option<String>,
    pub format: Option<String>,
    pub width: Option<u32>,
    pub height: Option<u32>,
    pub timestamp_ms: Option<i64>,
    /// The fields that the type does not declare.
    pub extra: JsonObject,
}

/// The model of [`CameraSnapshot`].
pub struct CameraSnapshotModel {
    pub data: Seq<char>,
    pub encoding: Seq<char>,
    pub compression: Option<Seq<char>>,
    pub format: Option<Seq<char>>,
    pub width: Option<u32>,
    pub height: Option<u32>,
    pub timestamp_ms: Option<i64>,
    pub extra: ObjectModel,
}

impl DeepView for CameraSnapshot {
    type V = CameraSnapshotModel;

    open spec fn deep_view(&self) -> CameraSnapshotModel {
        CameraSnapshotModel {
            data: self.data.deep_view(),
            encoding: self.encoding.deep_view(),
            compression: self.compression.deep_view(),
            format: self.format.deep_view(),
            width: self.width.deep_view(),
            height: self.height.deep_view(),
            timestamp_ms: self.timestamp_ms.deep_view(),
            extra: self.extra.deep_view(),
        }
    }
}

impl CameraSnapshotModel {
    /// The keys of the declared fields.
    pub open spec fn keys() -> Seq<Seq<char>> {
        seq!["data"@, "encoding"@, "compression"@, "format"@, "width"@, "height"@, "timestampMs"@]
    }

    /// What a document decodes to: nothing unless it is an object whose
    /// declared fields all have their types.
    pub open spec fn decoded(m: JsonModel) -> Option<CameraSnapshotModel> {
        match m {
            JsonModel::Object(o) => {
                let data = required(o, "data"@, |m: JsonModel| text_of(m));
                let encoding = required(o, "encoding"@, |m: JsonModel| text_of(m));
                let compression = optional(o, "compression"@, |m: JsonModel| text_of(m));
                let format = optional(o, "format"@, |m: JsonModel| text_of(m));
                let width = optional(o, "width"@, |m: JsonModel| u32_of(m));
                let height = optional(o, "height"@, |m: JsonModel| u32_of(m));
                let timestamp_ms = optional(o, "timestampMs"@, |m: JsonModel| i64_of(m));
                if data is Some && encoding is Some && compression is Some && format is Some
                    && width is Some && height is Some && timestamp_ms is Some {
                    Some(
                        CameraSnapshotModel {
                            data: data->0,
                            encoding: encoding->0,
                            compression: compression->0,
                            format: format->0,
                            width: width->0,
                            height: height->0,
                            timestamp_ms: timestamp_ms->0,
                            extra: without_keys(o, Self::keys()),
                        },
                    )
                } else {
                    None
                }
            },
            _ => None,
        }
    }

    /// The document that a value is written as: the declared fields in
    /// order, then the others.
    pub open spec fn encoded(self) -> JsonModel {
        JsonModel::Object(
            text_entry("data"@, self.data)
                + text_entry("encoding"@, self.encoding)
                + optional_text_entry("compression"@, self.compression)
                + optional_text_entry("format"@, self.format)
                + optional_u32_entry("width"@, self.width)
                + optional_u32_entry("height"@, self.height)
                + optional_i64_entry("timestampMs"@, self.timestamp_ms)
                + self.extra,
        )
    }

    /// The document of an optional value.
    pub open spec fn encoded_optional(value: Option<CameraSnapshotModel>) -> Option<JsonModel> {
        match value {
            Some(v) => Some(v.encoded()),
            None => None,
        }
    }

    /// A field that the type does not declare is written back as it was
    /// read.
    pub proof fn lemma_other_fields_survive(m: JsonModel, key: Seq<char>)
        requires
            Self::decoded(m) is Some,
            !Self::keys().contains(key),
        ensures
            m is Object,
            lookup(Self::decoded(m)->0.encoded()->Object_0, key) == lookup(m->Object_0, key),
    {
        let o = m->Object_0;
        let v = Self::decoded(m)->0;
        let keys = Self::keys();
        let e1 = text_entry("data"@, v.data);
        lemma_keys_among_one(e1, "data"@, keys, 0);
        let e2 = text_entry("encoding"@, v.encoding);
        lemma_keys_among_one(e2, "encoding"@, keys, 1);
        let e3 = optional_text_entry("compression"@, v.compression);
        lemma_keys_among_one(e3, "compression"@, keys, 2);
        let e4 = optional_text_entry("format"@, v.format);
        lemma_keys_among_one(e4, "format"@, keys, 3);
        let e5 = optional_u32_entry("width"@, v.width);
        lemma_keys_among_one(e5, "width"@, keys, 4);
        let e6 = optional_u32_entry("height"@, v.height);
        lemma_keys_among_one(e6, "height"@, keys, 5);
        let e7 = optional_i64_entry("timestampMs"@, v.timestamp_ms);
        lemma_keys_among_one(e7, "timestampMs"@, keys, 6);
        lemma_keys_among_concat(e1, e2, keys);
        lemma_keys_among_concat(e1 + e2, e3, keys);
        lemma_keys_among_concat(e1 + e2 + e3, e4, keys);
        lemma_keys_among_concat(e1 + e2 + e3 + e4, e5, keys);
        lemma_keys_among_concat(e1 + e2 + e3 + e4 + e5, e6, keys);
        lemma_keys_among_concat(e1 + e2 + e3 + e4 + e5 + e6, e7, keys);
        lemma_other_fields_follow(e1 + e2 + e3 + e4 + e5 + e6 + e7, o, keys, key);
    }
}

impl CameraSnapshot {
    /// The keys of the declared fields.
    pub fn keys() -> (r: Vec<&'static str>)
        ensures
            r.deep_view() == CameraSnapshotModel::keys(),
    {
        let r = vec!["data", "encoding", "compression", "format", "width", "height", "timestampMs"];
        assert(r.deep_view() =~= CameraSnapshotModel::keys());
        r
    }

    /// Decodes a document; the fields that the type does not declare are
    /// kept in `extra`.
    pub fn decode(value: &JsonValue) -> (r: Option<CameraSnapshot>)
        ensures
            r.deep_view() == CameraSnapshotModel::decoded(value@),
    {
        let o = match value {
            JsonValue::Object(o) => o,
            _ => {
                return None;
            },
        };
        let data = required_text(o, "data")?;
        let encoding = required_text(o, "encoding")?;
        let compression = optional_text(o, "compression")?;
        let format = optional_text(o, "format")?;
        let width = optional_u32(o, "width")?;
        let height = optional_u32(o, "height")?;
        let timestamp_ms = optional_i64(o, "timestampMs")?;
        let extra = o.without(&Self::keys());
        Some(
            CameraSnapshot {
                data,
                encoding,
                compression,
                format,
                width,
                height,
                timestamp_ms,
                extra,
            },
        )
    }

    /// Encodes the value as a document.
    pub fn encode(&self) -> (r: JsonValue)
        ensures
            r@ == self.deep_view().encoded(),
    {
        let mut o = JsonObject::new();
        put_text(&mut o, "data", &self.data);
        put_text(&mut o, "encoding", &self.encoding);
        put_optional_text(&mut o, "compression", &self.compression);
        put_optional_text(&mut o, "format", &self.format);
        put_optional_u32(&mut o, "width", &self.width);
        put_optional_u32(&mut o, "height", &self.height);
        put_optional_i64(&mut o, "timestampMs", &self.timestamp_ms);
        o.extend(&self.extra);
        let r = JsonValue::Object(o);
        assert(r@->Object_0 =~= self.deep_view().encoded()->Object_0);
        r
    }
}

/// A command to run.
#[derive(Debug, PartialEq, Eq)]
pub struct ExecParams {
    pub command: String,
    pub args: Vec<String>,
    pub cwd: Option<String>,
    pub env: Option<JsonObject>,
    pub stdin: Option<String>,
    pub timeout_ms: Option<u64>,
    pub stream: Option<bool>,
    pub exec_id: Option<String>,
    pub kill_on_drop: Option<bool>,
    /// The fields that the type does not declare.
    pub extra: JsonObject,
}

/// The model of [`ExecParams`].
pub struct ExecParamsModel {
    pub command: Seq<char>,
    pub args: Seq<Seq<char>>,
    pub cwd: Option<Seq<char>>,
    pub env: Option<ObjectModel>,
    pub stdin: Option<Seq<char>>,
    pub timeout_ms: Option<u64>,
    pub stream: Option<bool>,
    pub exec_id: Option<Seq<char>>,
    pub kill_on_drop: Option<bool>,
    pub extra: ObjectModel,
}

impl DeepView for ExecParams {
    type V = ExecParamsModel;

    open spec fn deep_view(&self) -> ExecParamsModel {
        ExecParamsModel {
            command: self.command.deep_view(),
            args: self.args.deep_view(),
            cwd: self.cwd.deep_view(),
            env: self.env.deep_view(),
            stdin: self.stdin.deep_view(),
            timeout_ms: self.timeout_ms.deep_view(),
            stream: self.stream.deep_view(),
            exec_id: self.exec_id.deep_view(),
            kill_on_drop: self.kill_on_drop.deep_view(),
            extra: self.extra.deep_view(),
        }
    }
}

impl ExecParamsModel {
    /// The keys of the declared fields.
    pub open spec fn keys() -> Seq<Seq<char>> {
        seq![
            "command"@, "cmd"@, "program"@, "args"@, "cwd"@, "env"@, "stdin"@, "timeoutMs"@,
            "stream"@, "execId"@, "killOnDrop"@,
        ]
    }

    /// What a document decodes to: nothing unless it is an object whose
    /// declared fields all have their types.
    pub open spec fn decoded(m: JsonModel) -> Option<ExecParamsModel> {
        match m {
            JsonModel::Object(o) => {
                let command = required_under_one_of(
                    o,
                    "command"@,
                    "cmd"@,
                    "program"@,
                    |m: JsonModel| text_of(m),
                );
                let args = defaulted(o, "args"@, |m: JsonModel| texts_of(m), Seq::empty());
                let cwd = optional(o, "cwd"@, |m: JsonModel| text_of(m));
                let env = optional(o, "env"@, |m: JsonModel| object_of(m));
                let stdin = optional(o, "stdin"@, |m: JsonModel| text_of(m));
                let timeout_ms = optional(o, "timeoutMs"@, |m: JsonModel| u64_of(m));
                let stream = optional(o, "stream"@, |m: JsonModel| bool_of(m));
                let exec_id = optional(o, "execId"@, |m: JsonModel| text_of(m));
                let kill_on_drop = optional(o, "killOnDrop"@, |m: JsonModel| bool_of(m));
                if command is Some && args is Some && cwd is Some && env is Some
                    && stdin is Some && timeout_ms is Some && stream is Some && exec_id is Some
                    && kill_on_drop is Some {
                    Some(
                        ExecParamsModel {
                            command: command->0,
                            args: args->0,
                            cwd: cwd->0,
                            env: env->0,
                            stdin: stdin->0,
                            timeout_ms: timeout_ms->0,
                            stream: stream->0,
                            exec_id: exec_id->0,
                            kill_on_drop: kill_on_drop->0,
                            extra: without_keys(o, Self::keys()),
                        },
                    )
                } else {
                    None
                }
            },
            _ => None,
        }
    }

    /// The document that a value is written as: the declared fields in
    /// order, then the others.
    pub open spec fn encoded(self) -> JsonModel {
        JsonModel::Object(
            text_entry("command"@, self.command)
                + texts_entry("args"@, self.args)
                + optional_text_entry("cwd"@, self.cwd)
                + optional_object_entry("env"@, self.env)
                + optional_text_entry("stdin"@, self.stdin)
                + optional_u64_entry("timeoutMs"@, self.timeout_ms)
                + optional_bool_entry("stream"@, self.stream)
                + optional_text_entry("execId"@, self.exec_id)
                + optional_bool_entry("killOnDrop"@, self.kill_on_drop)
                + self.extra,
        )
    }

    /// The document of an optional value.
    pub open spec fn encoded_optional(value: Option<ExecParamsModel>) -> Option<JsonModel> {
        match value {
            Some(v) => Some(v.encoded()),
            None => None,
        }
    }

    /// A field that the type does not declare is written back as it was
    /// read.
    pub proof fn lemma_other_fields_survive(m: JsonModel, key: Seq<char>)
        requires
            Self::decoded(m) is Some,
            !Self::keys().contains(key),
        ensures
            m is Object,
            lookup(Self::decoded(m)->0.encoded()->Object_0, key) == lookup(m->Object_0, key),
    {
        let o = m->Object_0;
        let v = Self::decoded(m)->0;
        let keys = Self::keys();
        let e1 = text_entry("command"@, v.command);
        lemma_keys_among_one(e1, "command"@, keys, 0);
        let e2 = texts_entry("args"@, v.args);
        lemma_keys_among_one(e2, "args"@, keys, 3);
        let e3 = optional_text_entry("cwd"@, v.cwd);
        lemma_keys_among_one(e3, "cwd"@, keys, 4);
        let e4 = optional_object_entry("env"@, v.env);
        lemma_keys_among_one(e4, "env"@, keys, 5);
        let e5 = optional_text_entry("stdin"@, v.stdin);
        lemma_keys_among_one(e5, "stdin"@, keys, 6);
        let e6 = optional_u64_entry("timeoutMs"@, v.timeout_ms);
        lemma_keys_among_one(e6, "timeoutMs"@, keys, 7);
        let e7 = optional_bool_entry("stream"@, v.stream);
        lemma_keys_among_one(e7, "stream"@, keys, 8);
        let e8 = optional_text_entry("execId"@, v.exec_id);
        lemma_keys_among_one(e8, "execId"@, keys, 9);
        let e9 = optional_bool_entry("killOnDrop"@, v.kill_on_drop);
        lemma_keys_among_one(e9, "killOnDrop"@, keys, 10);
        lemma_keys_among_concat(e1, e2, keys);
        lemma_keys_among_concat(e1 + e2, e3, keys);
        lemma_keys_among_concat(e1 + e2 + e3, e4, keys);
        lemma_keys_among_concat(e1 + e2 + e3 + e4, e5, keys);
        lemma_keys_among_concat(e1 + e2 + e3 + e4 + e5, e6, keys);
        lemma_keys_among_concat(e1 + e2 + e3 + e4 + e5 + e6, e7, keys);
        lemma_keys_among_concat(e1 + e2 + e3 + e4 + e5 + e6 + e7, e8, keys);
        lemma_keys_among_concat(e1 + e2 + e3 + e4 + e5 + e6 + e7 + e8, e9, keys);
        lemma_other_fields_follow(e1 + e2 + e3 + e4 + e5 + e6 + e7 + e8 + e9, o, keys, key);
    }
}

impl ExecParams {
    /// The keys of the declared fields.
    pub fn keys() -> (r: Vec<&'static str>)
        ensures
            r.deep_view() == ExecParamsModel::keys(),
    {
        let r = vec![
            "command", "cmd", "program", "args", "cwd", "env", "stdin", "timeoutMs", "stream",
            "execId", "killOnDrop",
        ];
        assert(r.deep_view() =~= ExecParamsModel::keys());
        r
    }

    /// Decodes a document; the fields that the type does not declare are
    /// kept in `extra`.
    pub fn decode(value: &JsonValue) -> (r: Option<ExecParams>)
        ensures
            r.deep_view() == ExecParamsModel::decoded(value@),
    {
        let o = match value {
            JsonValue::Object(o) => o,
            _ => {
                return None;
            },
        };
        let command = required_text_under_one_of(o, "command", "cmd", "program")?;
        let args = defaulted_texts(o, "args")?;
        let cwd = optional_text(o, "cwd")?;
        let env = optional_object(o, "env")?;
        let stdin = optional_text(o, "stdin")?;
        let timeout_ms = optional_u64(o, "timeoutMs")?;
        let stream = optional_bool(o, "stream")?;
        let exec_id = optional_text(o, "execId")?;
        let kill_on_drop = optional_bool(o, "killOnDrop")?;
        let extra = o.without(&Self::keys());
        Some(
            ExecParams {
                command,
                args,
                cwd,
                env,
                stdin,
                timeout_ms,
                stream,
                exec_id,
                kill_on_drop,
                extra,
            },
        )
    }

    /// Encodes the value as a document.
    pub fn encode(&self) -> (r: JsonValue)
        ensures
            r@ == self.deep_view().encoded(),
    {
        let mut o = JsonObject::new();
        put_text(&mut o, "command", &self.command);
        put_texts(&mut o, "args", &self.args);
        put_optional_text(&mut o, "cwd", &self.cwd);
        put_optional_object(&mut o, "env", &self.env);
        put_optional_text(&mut o, "stdin", &self.stdin);
        put_optional_u64(&mut o, "timeoutMs", &self.timeout_ms);
        put_optional_bool(&mut o, "stream", &self.stream);
        put_optional_text(&mut o, "execId", &self.exec_id);
        put_optional_bool(&mut o, "killOnDrop", &self.kill_on_drop);
        o.extend(&self.extra);
        let r = JsonValue::Object(o);
        assert(r@->Object_0 =~= self.deep_view().encoded()->Object_0);
        r
    }
}

/// Which log entries to follow.
#[derive(Debug, PartialEq, Eq)]
pub struct LogsSubscribeParams {
    pub level: Option<String>,
    pub tail: Option<u32>,
    pub since: Option<i64>,
    pub include_internal: Option<bool>,
    pub filters: Option<JsonObject>,
    /// The fields that the type does not declare.
    pub extra: JsonObject,
}

/// The model of [`LogsSubscribeParams`].
pub struct LogsSubscribeParamsModel {
    pub level: Option<Seq<char>>,
    pub tail: Option<u32>,
    pub since: Option<i64>,
    pub include_internal: Option<bool>,
    pub filters: Option<ObjectModel>,
    pub extra: ObjectModel,
}

impl DeepView for LogsSubscribeParams {
    type V = LogsSubscribeParamsModel;

    open spec fn deep_view(&self) -> LogsSubscribeParamsModel {
        LogsSubscribeParamsModel {
            level: self.level.deep_view(),
            tail: self.tail.deep_view(),
            since: self.since.deep_view(),
            include_internal: self.include_internal.deep_view(),
            filters: self.filters.deep_view(),
            extra: self.extra.deep_view(),
        }
    }
}

impl LogsSubscribeParamsModel {
    /// The keys of the declared fields.
    pub open spec fn keys() -> Seq<Seq<char>> {
        seq!["level"@, "tail"@, "since"@, "includeInternal"@, "filters"@]
    }

    /// What a document decodes to: nothing unless it is an object whose
    /// declared fields all have their types.
    pub open spec fn decoded(m: JsonModel) -> Option<LogsSubscribeParamsModel> {
        match m {
            JsonModel::Object(o) => {
                let level = optional(o, "level"@, |m: JsonModel| text_of(m));
                let tail = optional(o, "tail"@, |m: JsonModel| u32_of(m));
                let since = optional(o, "since"@, |m: JsonModel| i64_of(m));
                let include_internal = optional(o, "includeInternal"@, |m: JsonModel| bool_of(m));
                let filters = optional(o, "filters"@, |m: JsonModel| object_of(m));
                if level is Some && tail is Some && since is Some && include_internal is Some
                    && filters is Some {
                    Some(
                        LogsSubscribeParamsModel {
                            level: level->0,
                            tail: tail->0,
                            since: since->0,
                            include_internal: include_internal->0,
                            filters: filters->0,
                            extra: without_keys(o, Self::keys()),
                        },
                    )
                } else {
                    None
                }
            },
            _ => None,
        }
    }

    /// The document that a value is written as: the declared fields in
    /// order, then the others.
    pub open spec fn encoded(self) -> JsonModel {
        JsonModel::Object(
            optional_text_entry("level"@, self.level)
                + optional_u32_entry("tail"@, self.tail)
                + optional_i64_entry("since"@, self.since)
                + optional_bool_entry("includeInternal"@, self.include_internal)
                + optional_object_entry("filters"@, self.filters)
                + self.extra,
        )
    }

    /// The document of an optional value.
    pub open spec fn encoded_optional(
        value: Option<LogsSubscribeParamsModel>,
    ) -> Option<JsonModel> {
        match value {
            Some(v) => Some(v.encoded()),
            None => None,
        }
    }

    /// A field that the type does not declare is written back as it was
    /// read.
    pub proof fn lemma_other_fields_survive(m: JsonModel, key: Seq<char>)
        requires
            Self::decoded(m) is Some,
            !Self::keys().contains(key),
        ensures
            m is Object,
            lookup(Self::decoded(m)->0.encoded()->Object_0, key) == lookup(m->Object_0, key),
    {
        let o = m->Object_0;
        let v = Self::decoded(m)->0;
        let keys = Self::keys();
        let e1 = optional_text_entry("level"@, v.level);
        lemma_keys_among_one(e1, "level"@, keys, 0);
        let e2 = optional_u32_entry("tail"@, v.tail);
        lemma_keys_among_one(e2, "tail"@, keys, 1);
        let e3 = optional_i64_entry("since"@, v.since);
        lemma_keys_among_one(e3, "since"@, keys, 2);
        let e4 = optional_bool_entry("includeInternal"@, v.include_internal);
        lemma_keys_among_one(e4, "includeInternal"@, keys, 3);
        let e5 = optional_object_entry("filters"@, v.filters);
        lemma_keys_among_one(e5, "filters"@, keys, 4);
        lemma_keys_among_concat(e1, e2, keys);
        lemma_keys_among_concat(e1 + e2, e3, keys);
        lemma_keys_among_concat(e1 + e2 + e3, e4, keys);
        lemma_keys_among_concat(e1 + e2 + e3 + e4, e5, keys);
        lemma_other_fields_follow(e1 + e2 + e3 + e4 + e5, o, keys, key);
    }
}

impl LogsSubscribeParams {
    /// The keys of the declared fields.
    pub fn keys() -> (r: Vec<&'static str>)
        ensures
            r.deep_view() == LogsSubscribeParamsModel::keys(),
    {
        let r = vec!["level", "tail", "since", "includeInternal", "filters"];
        assert(r.deep_view() =~= LogsSubscribeParamsModel::keys());
        r
    }

    /// Decodes a document; the fields that the type does not declare are
    /// kept in `extra`.
    pub fn decode(value: &JsonValue) -> (r: Option<LogsSubscribeParams>)
        ensures
            r.deep_view() == LogsSubscribeParamsModel::decoded(value@),
    {
        let o = match value {
            JsonValue::Object(o) => o,
            _ => {
                return None;
            },
        };
        let level = optional_text(o, "level")?;
        let tail = optional_u32(o, "tail")?;
        let since = optional_i64(o, "since")?;
        let include_internal = optional_bool(o, "includeInternal")?;
        let filters = optional_object(o, "filters")?;
        let extra = o.without(&Self::keys());
        Some(LogsSubscribeParams { level, tail, since, include_internal, filters, extra })
    }

    /// Encodes the value as a document.
    pub fn encode(&self) -> (r: JsonValue)
        ensures
            r@ == self.deep_view().encoded(),
    {
        let mut o = JsonObject::new();
        put_optional_text(&mut o, "level", &self.level);
        put_optional_u32(&mut o, "tail", &self.tail);
        put_optional_i64(&mut o, "since", &self.since);
        put_optional_bool(&mut o, "includeInternal", &self.include_internal);
        put_optional_object(&mut o, "filters", &self.filters);
        o.extend(&self.extra);
        let r = JsonValue::Object(o);
        assert(r@->Object_0 =~= self.deep_view().encoded()->Object_0);
        r
    }
}

impl Default for LogsSubscribeParams {
    /// The value with every field empty.
    fn default() -> (r: LogsSubscribeParams)
        ensures
            r.level is None,
            r.tail is None,
            r.since is None,
            r.include_internal is None,
            r.filters is None,
            r.extra@ == Seq::<(Seq<char>, JsonModel)>::empty(),
    {
        LogsSubscribeParams {
            level: None,
            tail: None,
            since: None,
            include_internal: None,
            filters: None,
            extra: JsonObject::new(),
        }
    }
}

/// The log subscription to end.
#[derive(Debug, PartialEq, Eq)]
pub struct LogsUnsubscribeParams {
    pub subscription_id: Option<String>,
    /// The fields that the type does not declare.
    pub extra: JsonObject,
}

/// The model of [`LogsUnsubscribeParams`].
pub struct LogsUnsubscribeParamsModel {
    pub subscription_id: Option<Seq<char>>,
    pub extra: ObjectModel,
}

impl DeepView for LogsUnsubscribeParams {
    type V = LogsUnsubscribeParamsModel;

    open spec fn deep_view(&self) -> LogsUnsubscribeParamsModel {
        LogsUnsubscribeParamsModel {
            subscription_id: self.subscription_id.deep_view(),
            extra: self.extra.deep_view(),
        }
    }
}

impl LogsUnsubscribeParamsModel {
    /// The keys of the declared fields.
    pub open spec fn keys() -> Seq<Seq<char>> {
        seq!["subscriptionId"@]
    }

    /// What a document decodes to: nothing unless it is an object whose
    /// declared fields all have their types.
    pub open spec fn decoded(m: JsonModel) -> Option<LogsUnsubscribeParamsModel> {
        match m {
            JsonModel::Object(o) => {
                let subscription_id = optional(o, "subscriptionId"@, |m: JsonModel| text_of(m));
                if subscription_id is Some {
                    Some(
                        LogsUnsubscribeParamsModel {
                            subscription_id: subscription_id->0,
                            extra: without_keys(o, Self::keys()),
                        },
                    )
                } else {
                    None
                }
            },
            _ => None,
        }
    }

    /// The document that a value is written as: the declared fields in
    /// order, then the others.
    pub open spec fn encoded(self) -> JsonModel {
        JsonModel::Object(
            optional_text_entry("subscriptionId"@, self.subscription_id)
                + self.extra,
        )
    }

    /// The document of an optional value.
    pub open spec fn encoded_optional(
        value: Option<LogsUnsubscribeParamsModel>,
    ) -> Option<JsonModel> {
        match value {
            Some(v) => Some(v.encoded()),
            None => None,
        }
    }

    /// A field that the type does not declare is written back as it was
    /// read.
    pub proof fn lemma_other_fields_survive(m: JsonModel, key: Seq<char>)
        requires
            Self::decoded(m) is Some,
            !Self::keys().contains(key),
        ensures
            m is Object,
            lookup(Self::decoded(m)->0.encoded()->Object_0, key) == lookup(m->Object_0, key),
    {
        let o = m->Object_0;
        let v = Self::decoded(m)->0;
        let keys = Self::keys();
        let e1 = optional_text_entry("subscriptionId"@, v.subscription_id);
        lemma_keys_among_one(e1, "subscriptionId"@, keys, 0);
        lemma_other_fields_follow(e1, o, keys, key);
    }
}

impl LogsUnsubscribeParams {
    /// The keys of the declared fields.
    pub fn keys() -> (r: Vec<&'static str>)
        ensures
            r.deep_view() == LogsUnsubscribeParamsModel::keys(),
    {
        let r = vec!["subscriptionId"];
        assert(r.deep_view() =~= LogsUnsubscribeParamsModel::keys());
        r
    }

    /// Decodes a document; the fields that the type does not declare are
    /// kept in `extra`.
    pub fn decode(value: &JsonValue) -> (r: Option<LogsUnsubscribeParams>)
        ensures
            r.deep_view() == LogsUnsubscribeParamsModel::decoded(value@),
    {
        let o = match value {
            JsonValue::Object(o) => o,
            _ => {
                return None;
            },
        };
        let subscription_id = optional_text(o, "subscriptionId")?;
        let extra = o.without(&Self::keys());
        Some(LogsUnsubscribeParams { subscription_id, extra })
    }

    /// Encodes the value as a document.
    pub fn encode(&self) -> (r: JsonValue)
        ensures
            r@ == self.deep_view().encoded(),
    {
        let mut o = JsonObject::new();
        put_optional_text(&mut o, "subscriptionId", &self.subscription_id);
        o.extend(&self.extra);
        let r = JsonValue::Object(o);
        assert(r@->Object_0 =~= self.deep_view().encoded()->Object_0);
        r
    }
}

impl Default for LogsUnsubscribeParams {
    /// The value with every field empty.
    fn default() -> (r: LogsUnsubscribeParams)
        ensures
            r.subscription_id is None,
            r.extra@ == Seq::<(Seq<char>, JsonModel)>::empty(),
    {
        LogsUnsubscribeParams {
            subscription_id: None,
            extra: JsonObject::new(),
        }
    }
}

/// Which parts of the system to probe.
#[derive(Debug, PartialEq, Eq)]
pub struct SystemProbeParams {
    pub network: Option<bool>,
    pub disk: Option<bool>,
    pub gateway: Option<bool>,
    /// The fields that the type does not declare.
    pub extra: JsonObject,
}

/// The model of [`SystemProbeParams`].
pub struct SystemProbeParamsModel {
    pub network: Option<bool>,
    pub disk: Option<bool>,
    pub gateway: Option<bool>,
    pub extra: ObjectModel,
}

impl DeepView for SystemProbeParams {
    type V = SystemProbeParamsModel;

    open spec fn deep_view(&self) -> SystemProbeParamsModel {
        SystemProbeParamsModel {
            network: self.network.deep_view(),
            disk: self.disk.deep_view(),
            gateway: self.gateway.deep_view(),
            extra: self.extra.deep_view(),
        }
    }
}

impl SystemProbeParamsModel {
    /// The keys of the declared fields.
    pub open spec fn keys() -> Seq<Seq<char>> {
        seq!["network"@, "disk"@, "gateway"@]
    }

    /// What a document decodes to: nothing unless it is an object whose
    /// declared fields all have their types.
    pub open spec fn decoded(m: JsonModel) -> Option<SystemProbeParamsModel> {
        match m {
            JsonModel::Object(o) => {
                let network = optional(o, "network"@, |m: JsonModel| bool_of(m));
                let disk = optional(o, "disk"@, |m: JsonModel| bool_of(m));
                let gateway = optional(o, "gateway"@, |m: JsonModel| bool_of(m));
                if network is Some && disk is Some && gateway is Some {
                    Some(
                        SystemProbeParamsModel {
                            network: network->0,
                            disk: disk->0,
                            gateway: gateway->0,
                            extra: without_keys(o, Self::keys()),
                        },
                    )
                } else {
                    None
                }
            },
            _ => None,
        }
    }

    /// The document that a value is written as: the declared fields in
    /// order, then the others.
    pub open spec fn encoded(self) -> JsonModel {
        JsonModel::Object(
            optional_bool_entry("network"@, self.network)
                + optional_bool_entry("disk"@, self.disk)
                + optional_bool_entry("gateway"@, self.gateway)
                + self.extra,
        )
    }

    /// The document of an optional value.
    pub open spec fn encoded_optional(value: Option<SystemProbeParamsModel>) -> Option<JsonModel> {
        match value {
            Some(v) => Some(v.encoded()),
            None => None,
        }
    }

    /// A field that the type does not declare is written back as it was
    /// read.
    pub proof fn lemma_other_fields_survive(m: JsonModel, key: Seq<char>)
        requires
            Self::decoded(m) is Some,
            !Self::keys().contains(key),
        ensures
            m is Object,
            lookup(Self::decoded(m)->0.encoded()->Object_0, key) == lookup(m->Object_0, key),
    {
        let o = m->Object_0;
        let v = Self::decoded(m)->0;
        let keys = Self::keys();
        let e1 = optional_bool_entry("network"@, v.network);
        lemma_keys_among_one(e1, "network"@, keys, 0);
        let e2 = optional_bool_entry("disk"@, v.disk);
        lemma_keys_among_one(e2, "disk"@, keys, 1);
        let e3 = optional_bool_entry("gateway"@, v.gateway);
        lemma_keys_among_one(e3, "gateway"@, keys, 2);
        lemma_keys_among_concat(e1, e2, keys);
        lemma_keys_among_concat(e1 + e2, e3, keys);
        lemma_other_fields_follow(e1 + e2 + e3, o, keys, key);
    }
}

impl SystemProbeParams {
    /// The keys of the declared fields.
    pub fn keys() -> (r: Vec<&'static str>)
        ensures
            r.deep_view() == SystemProbeParamsModel::keys(),
    {
        let r = vec!["network", "disk", "gateway"];
        assert(r.deep_view() =~= SystemProbeParamsModel::keys());
        r
    }

    /// Decodes a document; the fields that the type does not declare are
    /// kept in `extra`.
    pub fn decode(value: &JsonValue) -> (r: Option<SystemProbeParams>)
        ensures
            r.deep_view() == SystemProbeParamsModel::decoded(value@),
    {
        let o = match value {
            JsonValue::Object(o) => o,
            _ => {
                return None;
            },
        };
        let network = optional_bool(o, "network")?;
        let disk = optional_bool(o, "disk")?;
        let gateway = optional_bool(o, "gateway")?;
        let extra = o.without(&Self::keys());
        Some(SystemProbeParams { network, disk, gateway, extra })
    }

    /// Encodes the value as a document.
    pub fn encode(&self) -> (r: JsonValue)
        ensures
            r@ == self.deep_view().encoded(),
    {
        let mut o = JsonObject::new();
        put_optional_bool(&mut o, "network", &self.network);
        put_optional_bool(&mut o, "disk", &self.disk);
        put_optional_bool(&mut o, "gateway", &self.gateway);
        o.extend(&self.extra);
        let r = JsonValue::Object(o);
        assert(r@->Object_0 =~= self.deep_view().encoded()->Object_0);
        r
    }
}

impl Default for SystemProbeParams {
    /// The value with every field empty.
    fn default() -> (r: SystemProbeParams)
        ensures
            r.network is None,
            r.disk is None,
            r.gateway is None,
            r.extra@ == Seq::<(Seq<char>, JsonModel)>::empty(),
    {
        SystemProbeParams {
            network: None,
            disk: None,
            gateway: None,
            extra: JsonObject::new(),
        }
    }
}

} // verus!
