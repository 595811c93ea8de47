//! Payloads of the responses that the gateway sends.

use crate::json::{
    any_of, bool_of, lookup, text_of, u64_of, without_keys, JsonModel, JsonObject, JsonValue,
    ObjectModel,
};
use crate::schema::{
    lemma_keys_among_concat, lemma_keys_among_one, lemma_other_fields_follow, optional,
    optional_bool, optional_bool_entry, optional_entry, optional_text, optional_text_entry,
    optional_u64, optional_u64_entry, optional_value, optional_value_entry, put_json,
    put_optional_bool, put_optional_text, put_optional_u64, put_optional_value,
};
use vstd::prelude::*;

verus! {

/// The outcome of one probe.
#[derive(Debug, PartialEq, Eq)]
pub struct SystemProbeCheck {
    pub ok: Option<bool>,
    pub message: Option<String>,
    pub latency_ms: Option<u64>,
    pub details: Option<JsonValue>,
    /// The fields that the type does not declare.
    pub extra: JsonObject,
}

/// The model of [`SystemProbeCheck`].
pub struct SystemProbeCheckModel {
    pub ok: Option<bool>,
    pub message: Option<Seq<char>>,
    pub latency_ms: Option<u64>,
    pub details: Option<JsonModel>,
    pub extra: ObjectModel,
}

impl DeepView for SystemProbeCheck {
    type V = SystemProbeCheckModel;

    open spec fn deep_view(&self) -> SystemProbeCheckModel {
        SystemProbeCheckModel {
            ok: self.ok.deep_view(),
            message: self.message.deep_view(),
            latency_ms: self.latency_ms.deep_view(),
            details: self.details.deep_view(),
            extra: self.extra.deep_view(),
        }
    }
}

impl SystemProbeCheckModel {
    /// The keys of the declared fields.
    pub open spec fn keys() -> Seq<Seq<char>> {
        seq!["ok"@, "message"@, "latencyMs"@, "details"@]
    }

    /// What a document decodes to: nothing unless it is an object whose
    /// declared fields all have their types.
    pub open spec fn decoded(m: JsonModel) -> Option<SystemProbeCheckModel> {
        match m {
            JsonModel::Object(o) => {
                let ok = optional(o, "ok"@, |m: JsonModel| bool_of(m));
                let message = optional(o, "message"@, |m: JsonModel| text_of(m));
                let latency_ms = optional(o, "latencyMs"@, |m: JsonModel| u64_of(m));
                let details = optional(o, "details"@, |m: JsonModel| any_of(m));
                if ok is Some && message is Some && latency_ms is Some && details is Some {
                    Some(
                        SystemProbeCheckModel {
                            ok: ok->0,
                            message: message->0,
                            latency_ms: latency_ms->0,
                            details: details->0,
                            extra: without_keys(o, Self::keys()),
                        },
                    )
                } else {
                    None
                }
            },
            _ => None,
        }
    }

    /// The document that a value is written as: the declared fields in
    /// order, then the others.
    pub open spec fn encoded(self) -> JsonModel {
        JsonModel::Object(
            optional_bool_entry("ok"@, self.ok)
                + optional_text_entry("message"@, self.message)
                + optional_u64_entry("latencyMs"@, self.latency_ms)
                + optional_value_entry("details"@, self.details)
                + self.extra,
        )
    }

    /// The document of an optional value.
    pub open spec fn encoded_optional(value: Option<SystemProbeCheckModel>) -> Option<JsonModel> {
        match value {
            Some(v) => Some(v.encoded()),
            None => None,
        }
    }

    /// A field that the type does not declare is written back as it was
    /// read.
    pub proof fn lemma_other_fields_survive(m: JsonModel, key: Seq<char>)
        requires
            Self::decoded(m) is Some,
            !Self::keys().contains(key),
        ensures
            m is Object,
            lookup(Self::decoded(m)->0.encoded()->Object_0, key) == lookup(m->Object_0, key),
    {
        let o = m->Object_0;
        let v = Self::decoded(m)->0;
        let keys = Self::keys();
        let e1 = optional_bool_entry("ok"@, v.ok);
        lemma_keys_among_one(e1, "ok"@, keys, 0);
        let e2 = optional_text_entry("message"@, v.message);
        lemma_keys_among_one(e2, "message"@, keys, 1);
        let e3 = optional_u64_entry("latencyMs"@, v.latency_ms);
        lemma_keys_among_one(e3, "latencyMs"@, keys, 2);
        let e4 = optional_value_entry("details"@, v.details);
        lemma_keys_among_one(e4, "details"@, keys, 3);
        lemma_keys_among_concat(e1, e2, keys);
        lemma_keys_among_concat(e1 + e2, e3, keys);
        lemma_keys_among_concat(e1 + e2 + e3, e4, keys);
        lemma_other_fields_follow(e1 + e2 + e3 + e4, o, keys, key);
    }
}

impl SystemProbeCheck {
    /// The keys of the declared fields.
    pub fn keys() -> (r: Vec<&'static str>)
        ensures
            r.deep_view() == SystemProbeCheckModel::keys(),
    {
        let r = vec!["ok", "message", "latencyMs", "details"];
        assert(r.deep_view() =~= SystemProbeCheckModel::keys());
        r
    }

    /// Decodes a document; the fields that the type does not declare are
    /// kept in `extra`.
    pub fn decode(value: &JsonValue) -> (r: Option<SystemProbeCheck>)
        ensures
            r.deep_view() == SystemProbeCheckModel::decoded(value@),
    {
        let o = match value {
            JsonValue::Object(o) => o,
            _ => {
                return None;
            },
        };
        let ok = optional_bool(o, "ok")?;
        let message = optional_text(o, "message")?;
        let latency_ms = optional_u64(o, "latencyMs")?;
        let details = optional_value(o, "details")?;
        let extra = o.without(&Self::keys());
        Some(SystemProbeCheck { ok, message, latency_ms, details, extra })
    }

    /// Encodes the value as a document.
    pub fn encode(&self) -> (r: JsonValue)
        ensures
            r@ == self.deep_view().encoded(),
    {
        let mut o = JsonObject::new();
        put_optional_bool(&mut o, "ok", &self.ok);
        put_optional_text(&mut o, "message", &self.message);
        put_optional_u64(&mut o, "latencyMs", &self.latency_ms);
        put_optional_value(&mut o, "details", &self.details);
        o.extend(&self.extra);
        let r = JsonValue::Object(o);
        assert(r@->Object_0 =~= self.deep_view().encoded()->Object_0);
        r
    }
}

impl Default for SystemProbeCheck {
    /// The value with every field empty.
    fn default() -> (r: SystemProbeCheck)
        ensures
            r.ok is None,
            r.message is None,
            r.latency_ms is None,
            r.details is None,
            r.extra@ == Seq::<(Seq<char>, JsonModel)>::empty(),
    {
        SystemProbeCheck {
            ok: None,
            message: None,
            latency_ms: None,
            details: None,
            extra: JsonObject::new(),
        }
    }
}

/// The outcome of a system probe.
#[derive(Debug, PartialEq, Eq)]
pub struct SystemProbeResult {
    pub network: Option<SystemProbeCheck>,
    pub disk: Option<SystemProbeCheck>,
    pub gateway: Option<SystemProbeCheck>,
    /// The fields that the type does not declare.
    pub extra: JsonObject,
}

/// The model of [`SystemProbeResult`].
pub struct SystemProbeResultModel {
    pub network: Option<SystemProbeCheckModel>,
    pub disk: Option<SystemProbeCheckModel>,
    pub gateway: Option<SystemProbeCheckModel>,
    pub extra: ObjectModel,
}

impl DeepView for SystemProbeResult {
    type V = SystemProbeResultModel;

    open spec fn deep_view(&self) -> SystemProbeResultModel {
        SystemProbeResultModel {
            network: self.network.deep_view(),
            disk: self.disk.deep_view(),
            gateway: self.gateway.deep_view(),
            extra: self.extra.deep_view(),
        }
    }
}

impl SystemProbeResultModel {
    /// The keys of the declared fields.
    pub open spec fn keys() -> Seq<Seq<char>> {
        seq!["network"@, "disk"@, "gateway"@]
    }

    /// What a document decodes to: nothing unless it is an object whose
    /// declared fields all have their types.
    pub open spec fn decoded(m: JsonModel) -> Option<SystemProbeResultModel> {
        match m {
            JsonModel::Object(o) => {
                let network = optional(
                    o,
                    "network"@,
                    |m: JsonModel| SystemProbeCheckModel::decoded(m),
                );
                let disk = optional(o, "disk"@, |m: JsonModel| SystemProbeCheckModel::decoded(m));
                let gateway = optional(
                    o,
                    "gateway"@,
                    |m: JsonModel| SystemProbeCheckModel::decoded(m),
                );
                if network is Some && disk is Some && gateway is Some {
                    Some(
                        SystemProbeResultModel {
                            network: network->0,
                            disk: disk->0,
                            gateway: gateway->0,
                            extra: without_keys(o, Self::keys()),
                        },
                    )
                } else {
                    None
                }
            },
            _ => None,
        }
    }

    /// The document that a value is written as: the declared fields in
    /// order, then the others.
    pub open spec fn encoded(self) -> JsonModel {
        JsonModel::Object(
            optional_entry("network"@, SystemProbeCheckModel::encoded_optional(self.network))
                + optional_entry("disk"@, SystemProbeCheckModel::encoded_optional(self.disk))
                + optional_entry("gateway"@, SystemProbeCheckModel::encoded_optional(self.gateway))
                + self.extra,
        )
    }

    /// The document of an optional value.
    pub open spec fn encoded_optional(value: Option<SystemProbeResultModel>) -> Option<JsonModel> {
        match value {
            Some(v) => Some(v.encoded()),
            None => None,
        }
    }

    /// A field that the type does not declare is written back as it was
    /// read.
    pub proof fn lemma_other_fields_survive(m: JsonModel, key: Seq<char>)
        requires
            Self::decoded(m) is Some,
            !Self::keys().contains(key),
        ensures
            m is Object,
            lookup(Self::decoded(m)->0.encoded()->Object_0, key) == lookup(m->Object_0, key),
    {
        let o = m->Object_0;
        let v = Self::decoded(m)->0;
        let keys = Self::keys();
        let e1 = optional_entry("network"@, SystemProbeCheckModel::encoded_optional(v.network));
        lemma_keys_among_one(e1, "network"@, keys, 0);
        let e2 = optional_entry("disk"@, SystemProbeCheckModel::encoded_optional(v.disk));
        lemma_keys_among_one(e2, "disk"@, keys, 1);
        let e3 = optional_entry("gateway"@, SystemProbeCheckModel::encoded_optional(v.gateway));
        lemma_keys_among_one(e3, "gateway"@, keys, 2);
        lemma_keys_among_concat(e1, e2, keys);
        lemma_keys_among_concat(e1 + e2, e3, keys);
        lemma_other_fields_follow(e1 + e2 + e3, o, keys, key);
    }
}

impl SystemProbeResult {
    /// The keys of the declared fields.
    pub fn keys() -> (r: Vec<&'static str>)
        ensures
            r.deep_view() == SystemProbeResultModel::keys(),
    {
        let r = vec!["network", "disk", "gateway"];
        assert(r.deep_view() =~= SystemProbeResultModel::keys());
        r
    }

    /// Decodes a document; the fields that the type does not declare are
    /// kept in `extra`.
    pub fn decode(value: &JsonValue) -> (r: Option<SystemProbeResult>)
        ensures
            r.deep_view() == SystemProbeResultModel::decoded(value@),
    {
        let o = match value {
            JsonValue::Object(o) => o,
            _ => {
                return None;
            },
        };
        let network = match o.get("network") {
            None => None,
            Some(JsonValue::Null) => None,
            Some(v) => Some(SystemProbeCheck::decode(v)?),
        };
        let disk = match o.get("disk") {
            None => None,
            Some(JsonValue::Null) => None,
            Some(v) => Some(SystemProbeCheck::decode(v)?),
        };
        let gateway = match o.get("gateway") {
            None => None,
            Some(JsonValue::Null) => None,
            Some(v) => Some(SystemProbeCheck::decode(v)?),
        };
        let extra = o.without(&Self::keys());
        Some(SystemProbeResult { network, disk, gateway, extra })
    }

    /// Encodes the value as a document.
    pub fn encode(&self) -> (r: JsonValue)
        ensures
            r@ == self.deep_view().encoded(),
    {
        let mut o = JsonObject::new();
        match &self.network {
            Some(v) => {
                put_json(&mut o, "network", v.encode());
            },
            None => {},
        }
        match &self.disk {
            Some(v) => {
                put_json(&mut o, "disk", v.encode());
            },
            None => {},
        }
        match &self.gateway {
            Some(v) => {
                put_json(&mut o, "gateway", v.encode());
            },
            None => {},
        }
        o.extend(&self.extra);
        let r = JsonValue::Object(o);
        assert(r@->Object_0 =~= self.deep_view().encoded()->Object_0);
        r
    }
}

impl Default for SystemProbeResult {
    /// The value with every field empty.
    fn default() -> (r: SystemProbeResult)
        ensures
            r.network is None,
            r.disk is None,
            r.gateway is None,
            r.extra@ == Seq::<(Seq<char>, JsonModel)>::empty(),
    {
        SystemProbeResult {
            network: None,
            disk: None,
            gateway: None,
            extra: JsonObject::new(),
        }
    }
}

/// Why a request failed.
#[derive(Debug, PartialEq, Eq)]
pub struct GatewayError {
    pub code: Option<String>,
    pub message: Option<String>,
    pub details: Option<JsonValue>,
    pub retryable: Option<bool>,
    pub retry_after_ms: Option<u64>,
    /// The fields that the type does not declare.
    pub extra: JsonObject,
}

/// The model of [`GatewayError`].
pub struct GatewayErrorModel {
    pub code: Option<Seq<char>>,
    pub message: Option<Seq<char>>,
    pub details: Option<JsonModel>,
    pub retryable: Option<bool>,
    pub retry_after_ms: Option<u64>,
    pub extra: ObjectModel,
}

impl DeepView for GatewayError {
    type V = GatewayErrorModel;

    open spec fn deep_view(&self) -> GatewayErrorModel {
        GatewayErrorModel {
            code: self.code.deep_view(),
            message: self.message.deep_view(),
            details: self.details.deep_view(),
            retryable: self.retryable.deep_view(),
            retry_after_ms: self.retry_after_ms.deep_view(),
            extra: self.extra.deep_view(),
        }
    }
}

impl GatewayErrorModel {
    /// The keys of the declared fields.
    pub open spec fn keys() -> Seq<Seq<char>> {
        seq!["code"@, "message"@, "details"@, "retryable"@, "retryAfterMs"@]
    }

    /// What a document decodes to: nothing unless it is an object whose
    /// declared fields all have their types.
    pub open spec fn decoded(m: JsonModel) -> Option<GatewayErrorModel> {
        match m {
            JsonModel::Object(o) => {
                let code = optional(o, "code"@, |m: JsonModel| text_of(m));
                let message = optional(o, "message"@, |m: JsonModel| text_of(m));
                let details = optional(o, "details"@, |m: JsonModel| any_of(m));
                let retryable = optional(o, "retryable"@, |m: JsonModel| bool_of(m));
                let retry_after_ms = optional(o, "retryAfterMs"@, |m: JsonModel| u64_of(m));
                if code is Some && message is Some && details is Some && retryable is Some
                    && retry_after_ms is Some {
                    Some(
                        GatewayErrorModel {
                            code: code->0,
                            message: message->0,
                            details: details->0,
                            retryable: retryable->0,
                            retry_after_ms: retry_after_ms->0,
                            extra: without_keys(o, Self::keys()),
                        },
                    )
                } else {
                    None
                }
            },
            _ => None,
        }
    }

    /// The document that a value is written as: the declared fields in
    /// order, then the others.
    pub open spec fn encoded(self) -> JsonModel {
        JsonModel::Object(
            optional_text_entry("code"@, self.code)
                + optional_text_entry("message"@, self.message)
                + optional_value_entry("details"@, self.details)
                + optional_bool_entry("retryable"@, self.retryable)
                + optional_u64_entry("retryAfterMs"@, self.retry_after_ms)
                + self.extra,
        )
    }

    /// The document of an optional value.
    pub open spec fn encoded_optional(value: Option<GatewayErrorModel>) -> Option<JsonModel> {
        match value {
            Some(v) => Some(v.encoded()),
            None => None,
        }
    }

    /// A field that the type does not declare is written back as it was
    /// read.
    pub proof fn lemma_other_fields_survive(m: JsonModel, key: Seq<char>)
        requires
            Self::decoded(m) is Some,
            !Self::keys().contains(key),
        ensures
            m is Object,
            lookup(Self::decoded(m)->0.encoded()->Object_0, key) == lookup(m->Object_0, key),
    {
        let o = m->Object_0;
        let v = Self::decoded(m)->0;
        let keys = Self::keys();
        let e1 = optional_text_entry("code"@, v.code);
        lemma_keys_among_one(e1, "code"@, keys, 0);
        let e2 = optional_text_entry("message"@, v.message);
        lemma_keys_among_one(e2, "message"@, keys, 1);
        let e3 = optional_value_entry("details"@, v.details);
        lemma_keys_among_one(e3, "details"@, keys, 2);
        let e4 = optional_bool_entry("retryable"@, v.retryable);
        lemma_keys_among_one(e4, "retryable"@, keys, 3);
        let e5 = optional_u64_entry("retryAfterMs"@, v.retry_after_ms);
        lemma_keys_among_one(e5, "retryAfterMs"@, keys, 4);
        lemma_keys_among_concat(e1, e2, keys);
        lemma_keys_among_concat(e1 + e2, e3, keys);
        lemma_keys_among_concat(e1 + e2 + e3, e4, keys);
        lemma_keys_among_concat(e1 + e2 + e3 + e4, e5, keys);
        lemma_other_fields_follow(e1 + e2 + e3 + e4 + e5, o, keys, key);
    }
}

impl GatewayError {
    /// The keys of the declared fields.
    pub fn keys() -> (r: Vec<&'static str>)
        ensures
            r.deep_view() == GatewayErrorModel::keys(),
    {
        let r = vec!["code", "message", "details", "retryable", "retryAfterMs"];
        assert(r.deep_view() =~= GatewayErrorModel::keys());
        r
    }

    /// Decodes a document; the fields that the type does not declare are
    /// kept in `extra`.
    pub fn decode(value: &JsonValue) -> (r: Option<GatewayError>)
        ensures
            r.deep_view() == GatewayErrorModel::decoded(value@),
    {
        let o = match value {
            JsonValue::Object(o) => o,
            _ => {
                return None;
            },
        };
        let code = optional_text(o, "code")?;
        let message = optional_text(o, "message")?;
        let details = optional_value(o, "details")?;
        let retryable = optional_bool(o, "retryable")?;
        let retry_after_ms = optional_u64(o, "retryAfterMs")?;
        let extra = o.without(&Self::keys());
        Some(GatewayError { code, message, details, retryable, retry_after_ms, extra })
    }

    /// Encodes the value as a document.
    pub fn encode(&self) -> (r: JsonValue)
        ensures
            r@ == self.deep_view().encoded(),
    {
        let mut o = JsonObject::new();
        put_optional_text(&mut o, "code", &self.code);
        put_optional_text(&mut o, "message", &self.message);
        put_optional_value(&mut o, "details", &self.details);
        put_optional_bool(&mut o, "retryable", &self.retryable);
        put_optional_u64(&mut o, "retryAfterMs", &self.retry_after_ms);
        o.extend(&self.extra);
        let r = JsonValue::Object(o);
        assert(r@->Object_0 =~= self.deep_view().encoded()->Object_0);
        r
    }
}

impl Default for GatewayError {
    /// The value with every field empty.
    fn default() -> (r: GatewayError)
        ensures
            r.code is None,
            r.message is None,
            r.details is None,
            r.retryable is None,
            r.retry_after_ms is None,
            r.extra@ == Seq::<(Seq<char>, JsonModel)>::empty(),
    {
        GatewayError {
            code: None,
            message: None,
            details: None,
            retryable: None,
            retry_after_ms: None,
            extra: JsonObject::new(),
        }
    }
}

} // verus!
