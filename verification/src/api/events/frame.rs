//! Frames: the envelope around each payload, and the events handed to the
//! host.

use crate::api::events::payloads::{
    event_kind, request_kind, resolve_event_kind, resolve_request_kind, resolve_response_kind,
    response_kind, GatewayEventPayload, GatewayEventPayloadModel, GatewayRequestParams,
    GatewayRequestParamsModel, GatewayResponsePayload, GatewayResponsePayloadModel,
};
use crate::api::events::responses::{GatewayError, GatewayErrorModel};
use crate::json::{
    lookup, number_i64, number_u64, text_of, JsonModel, JsonObject, JsonValue, ObjectModel,
};
use crate::json_text::{
    exported, parse_json, parsed_json, render_json, rendered_json, written_as,
};
use crate::schema::{
    entry, optional, optional_text, optional_text_entry, put_json, put_optional_text, put_text,
    required, required_text, text_entry,
};
use crate::text::{decimal, signed_decimal, signed_text, text_eq, unsigned_text};
use vstd::prelude::*;

verus! {

/// What the host is told: the life of the connection, and each frame that
/// arrives.
#[allow(inconsistent_fields)]
#[derive(Debug, PartialEq, Eq)]
pub enum GatewayEvent {
    Connected,
    Disconnected { reason: String },
    /// A text frame that is not a protocol frame.
    Message { message: String },
    Error { message: String },
    Binary { data: Vec<u8> },
    ProtocolRequest {
        id: String,
        method: String,
        params: GatewayRequestParams,
        session_key: String,
    },
    ProtocolResponse {
        id: String,
        ok: bool,
        payload: GatewayResponsePayload,
        error: GatewayError,
        session_key: String,
    },
    ProtocolEvent {
        event: String,
        payload: GatewayEventPayload,
        seq: String,
        state_version: String,
        session_key: String,
    },
}

/// The model of [`GatewayEvent`].
#[allow(inconsistent_fields)]
pub enum GatewayEventModel {
    Connected,
    Disconnected { reason: Seq<char> },
    Message { message: Seq<char> },
    Error { message: Seq<char> },
    Binary { data: Seq<u8> },
    ProtocolRequest {
        id: Seq<char>,
        method: Seq<char>,
        params: GatewayRequestParamsModel,
        session_key: Seq<char>,
    },
    ProtocolResponse {
        id: Seq<char>,
        ok: bool,
        payload: GatewayResponsePayloadModel,
        error: GatewayErrorModel,
        session_key: Seq<char>,
    },
    ProtocolEvent {
        event: Seq<char>,
        payload: GatewayEventPayloadModel,
        seq: Seq<char>,
        state_version: Seq<char>,
        session_key: Seq<char>,
    },
}

impl DeepView for GatewayEvent {
    type V = GatewayEventModel;

    open spec fn deep_view(&self) -> GatewayEventModel {
        match self {
            GatewayEvent::Connected => GatewayEventModel::Connected,
            GatewayEvent::Disconnected { reason } => GatewayEventModel::Disconnected {
                reason: reason@,
            },
            GatewayEvent::Message { message } => GatewayEventModel::Message { message: message@ },
            GatewayEvent::Error { message } => GatewayEventModel::Error { message: message@ },
            GatewayEvent::Binary { data } => GatewayEventModel::Binary { data: data@ },
            GatewayEvent::ProtocolRequest {
                id,
                method,
                params,
                session_key,
            } => GatewayEventModel::ProtocolRequest {
                id: id@,
                method: method@,
                params: params.deep_view(),
                session_key: session_key@,
            },
            GatewayEvent::ProtocolResponse {
                id,
                ok,
                payload,
                error,
                session_key,
            } => GatewayEventModel::ProtocolResponse {
                id: id@,
                ok: *ok,
                payload: payload.deep_view(),
                error: error.deep_view(),
                session_key: session_key@,
            },
            GatewayEvent::ProtocolEvent {
                event,
                payload,
                seq,
                state_version,
                session_key,
            } => GatewayEventModel::ProtocolEvent {
                event: event@,
                payload: payload.deep_view(),
                seq: seq@,
                state_version: state_version@,
                session_key: session_key@,
            },
        }
    }
}

/// The parameters of a request with the given method.
#[verifier::opaque]
pub open spec fn request_params_of(method: Seq<char>, m: JsonModel) -> GatewayRequestParamsModel {
    GatewayRequestParamsModel::of_kind(request_kind(method), m)
}

/// The payload of an event with the given name.
pub open spec fn event_payload_of(event: Seq<char>, m: JsonModel) -> GatewayEventPayloadModel {
    GatewayEventPayloadModel::of_kind(event_kind(event), m)
}

/// The text under `type` in a response payload; empty where the payload is
/// no object or holds no text there.
pub open spec fn response_tag(m: JsonModel) -> Seq<char> {
    match m {
        JsonModel::Object(o) => match lookup(o, "type"@) {
            Some(JsonModel::String(s)) => s,
            _ => Seq::empty(),
        },
        _ => Seq::empty(),
    }
}

/// The payload of a response.
pub open spec fn response_payload_of(m: JsonModel) -> GatewayResponsePayloadModel {
    GatewayResponsePayloadModel::of_kind(response_kind(response_tag(m)), m)
}

/// The error of a response: all empty where the document does not decode.
pub open spec fn error_of(m: JsonModel) -> GatewayErrorModel {
    match GatewayErrorModel::decoded(m) {
        Some(e) => e,
        None => GatewayErrorModel {
            code: None,
            message: None,
            details: None,
            retryable: None,
            retry_after_ms: None,
            extra: Seq::empty(),
        },
    }
}

/// A value rendered as text: the text of a string, the decimal digits of an
/// integer, with a minus sign below zero, and the JSON text of any other
/// value.
pub open spec fn scalar_of(m: JsonModel) -> Seq<char> {
    match m {
        JsonModel::String(s) => s,
        JsonModel::Number(n) => match number_i64(n) {
            Some(i) => signed_decimal(i as int),
            None => match number_u64(n) {
                Some(u) => decimal(u as nat),
                None => rendered_json(exported(m)),
            },
        },
        _ => rendered_json(exported(m)),
    }
}

/// A field rendered as text: empty where it is missing.
pub open spec fn scalar_text(o: ObjectModel, key: Seq<char>) -> Seq<char> {
    match lookup(o, key) {
        None => Seq::empty(),
        Some(m) => scalar_of(m),
    }
}

/// The value under `key`, or `null` where there is none.
pub open spec fn value_or_null(o: ObjectModel, key: Seq<char>) -> JsonModel {
    match lookup(o, key) {
        Some(m) => m,
        None => JsonModel::Null,
    }
}

/// What a `req` envelope decodes to: it needs a text `id`, a text `method`
/// and `params`.
pub open spec fn request_frame_of(o: ObjectModel) -> Option<GatewayEventModel> {
    match (lookup(o, "id"@), lookup(o, "method"@), lookup(o, "params"@)) {
        (Some(JsonModel::String(id)), Some(JsonModel::String(method)), Some(params)) => Some(
            GatewayEventModel::ProtocolRequest {
                id,
                method,
                params: request_params_of(method, params),
                session_key: scalar_text(o, "sessionKey"@),
            },
        ),
        _ => None,
    }
}

/// What a `res` envelope decodes to: it needs a text `id` and a boolean
/// `ok`.
pub open spec fn response_frame_of(o: ObjectModel) -> Option<GatewayEventModel> {
    match (lookup(o, "id"@), lookup(o, "ok"@)) {
        (Some(JsonModel::String(id)), Some(JsonModel::Bool(ok))) => Some(
            GatewayEventModel::ProtocolResponse {
                id,
                ok,
                payload: response_payload_of(value_or_null(o, "payload"@)),
                error: error_of(value_or_null(o, "error"@)),
                session_key: scalar_text(o, "sessionKey"@),
            },
        ),
        _ => None,
    }
}

/// What an `event` envelope decodes to: it needs a text `event` and a
/// `payload`.
pub open spec fn event_frame_of(o: ObjectModel) -> Option<GatewayEventModel> {
    match (lookup(o, "event"@), lookup(o, "payload"@)) {
        (Some(JsonModel::String(event)), Some(payload)) => Some(
            GatewayEventModel::ProtocolEvent {
                event,
                payload: event_payload_of(event, payload),
                seq: scalar_text(o, "seq"@),
                state_version: scalar_text(o, "stateVersion"@),
                session_key: scalar_text(o, "sessionKey"@),
            },
        ),
        _ => None,
    }
}

/// What a document decodes to: nothing unless it is an object whose `type`
/// is `req`, `res` or `event` and that holds what that kind of envelope
/// needs.
pub open spec fn frame_of(m: JsonModel) -> Option<GatewayEventModel> {
    match m {
        JsonModel::Object(o) => match lookup(o, "type"@) {
            Some(JsonModel::String(kind)) => if kind == "req"@ {
                request_frame_of(o)
            } else if kind == "res"@ {
                response_frame_of(o)
            } else if kind == "event"@ {
                event_frame_of(o)
            } else {
                None
            },
            _ => None,
        },
        _ => None,
    }
}

/// What a text frame decodes to: nothing where it is not JSON or not a
/// protocol frame.
pub open spec fn text_frame_of(text: Seq<char>) -> Option<GatewayEventModel> {
    match parsed_json(text) {
        Some(m) => frame_of(m),
        None => None,
    }
}

/// A request envelope.
#[derive(Debug, PartialEq, Eq)]
pub struct GatewayRequestFrame {
    pub frame_type: String,
    pub id: String,
    pub method: String,
    pub params: GatewayRequestParams,
    pub session_key: Option<String>,
}

/// The model of [`GatewayRequestFrame`].
pub struct GatewayRequestFrameModel {
    pub frame_type: Seq<char>,
    pub id: Seq<char>,
    pub method: Seq<char>,
    pub params: GatewayRequestParamsModel,
    pub session_key: Option<Seq<char>>,
}

impl DeepView for GatewayRequestFrame {
    type V = GatewayRequestFrameModel;

    open spec fn deep_view(&self) -> GatewayRequestFrameModel {
        GatewayRequestFrameModel {
            frame_type: self.frame_type@,
            id: self.id@,
            method: self.method@,
            params: self.params.deep_view(),
            session_key: self.session_key.deep_view(),
        }
    }
}

impl GatewayRequestFrameModel {
    /// The envelope of a request: its `type` is `req`.
    pub open spec fn request(
        id: Seq<char>,
        method: Seq<char>,
        params: GatewayRequestParamsModel,
        session_key: Option<Seq<char>>,
    ) -> GatewayRequestFrameModel {
        GatewayRequestFrameModel { frame_type: "req"@, id, method, params, session_key }
    }

    /// The document that an envelope is written as.
    pub open spec fn encoded(self) -> JsonModel {
        JsonModel::Object(
            text_entry("type"@, self.frame_type) + text_entry("id"@, self.id) + text_entry(
                "method"@,
                self.method,
            ) + entry("params"@, self.params.encoded()) + optional_text_entry(
                "sessionKey"@,
                self.session_key,
            ),
        )
    }

    /// The text that an envelope is sent as.
    pub open spec fn text(self) -> Seq<char> {
        rendered_json(exported(self.encoded()))
    }

    /// Whether `text` is the text that the envelope is sent as: the text of
    /// a value that holds, in ascending order of the keys, what each field
    /// of the envelope is written from.
    pub open spec fn is_text(self, text: Seq<char>) -> bool {
        &&& text == self.text()
        &&& written_as(exported(self.encoded()), self.encoded())
    }

    /// What a document decodes to: nothing unless it is an object with a
    /// text `type`, a text `id`, a text `method`, `params`, and a
    /// `sessionKey` that is a text where it is there. The parameters are
    /// read by the method; other fields of the envelope are not kept.
    pub open spec fn decoded(m: JsonModel) -> Option<GatewayRequestFrameModel> {
        match m {
            JsonModel::Object(o) => {
                let frame_type = required(o, "type"@, |m: JsonModel| text_of(m));
                let id = required(o, "id"@, |m: JsonModel| text_of(m));
                let method = required(o, "method"@, |m: JsonModel| text_of(m));
                let params = lookup(o, "params"@);
                let session_key = optional(o, "sessionKey"@, |m: JsonModel| text_of(m));
                if frame_type is Some && id is Some && method is Some && params is Some
                    && session_key is Some {
                    Some(
                        GatewayRequestFrameModel {
                            frame_type: frame_type->0,
                            id: id->0,
                            method: method->0,
                            params: request_params_of(method->0, params->0),
                            session_key: session_key->0,
                        },
                    )
                } else {
                    None
                }
            },
            _ => None,
        }
    }
}

impl GatewayRequestFrame {
    /// The envelope of a request.
    pub fn new(
        id: String,
        method: &str,
        params: GatewayRequestParams,
        session_key: Option<String>,
    ) -> (r: GatewayRequestFrame)
        ensures
            r.deep_view() == GatewayRequestFrameModel::request(
                id@,
                method@,
                params.deep_view(),
                session_key.deep_view(),
            ),
    {
        GatewayRequestFrame {
            frame_type: "req".to_owned(),
            id,
            method: method.to_owned(),
            params,
            session_key,
        }
    }

    /// Encodes the envelope as a document.
    pub fn encode(&self) -> (r: JsonValue)
        ensures
            r@ == self.deep_view().encoded(),
    {
        let mut o = JsonObject::new();
        put_text(&mut o, "type", &self.frame_type);
        put_text(&mut o, "id", &self.id);
        put_text(&mut o, "method", &self.method);
        put_json(&mut o, "params", self.params.encode());
        put_optional_text(&mut o, "sessionKey", &self.session_key);
        let r = JsonValue::Object(o);
        assert(r@->Object_0 =~= self.deep_view().encoded()->Object_0);
        r
    }

    /// Writes the envelope as JSON text.
    pub fn to_json(&self) -> (r: String)
        ensures
            r@ == self.deep_view().text(),
            self.deep_view().is_text(r@),
    {
        render_json(&self.encode())
    }

    /// Decodes a document as an envelope.
    pub fn decode(value: &JsonValue) -> (r: Option<GatewayRequestFrame>)
        ensures
            r.deep_view() == GatewayRequestFrameModel::decoded(value@),
    {
        let o = match value {
            JsonValue::Object(o) => o,
            _ => {
                return None;
            },
        };
        let frame_type = required_text(o, "type")?;
        let id = required_text(o, "id")?;
        let method = required_text(o, "method")?;
        let params = match o.get("params") {
            Some(v) => parse_request_params(method.as_str(), v.clone()),
            None => {
                return None;
            },
        };
        let session_key = optional_text(o, "sessionKey")?;
        Some(GatewayRequestFrame { frame_type, id, method, params, session_key })
    }
}

/// Reads the parameters of a request with the given method. A document that
/// does not fit the method's shape, or any document under a method that is
/// not known, is kept as it came.
pub fn parse_request_params(method: &str, value: JsonValue) -> (r: GatewayRequestParams)
    ensures
        r.deep_view() == request_params_of(method@, value@),
{
    proof {
        reveal(request_params_of);
    }
    GatewayRequestParams::of_kind(resolve_request_kind(method), value)
}

/// Reads the payload of an event with the given name, in the same way.
pub fn parse_event_payload(event: &str, value: JsonValue) -> (r: GatewayEventPayload)
    ensures
        r.deep_view() == event_payload_of(event@, value@),
{
    GatewayEventPayload::of_kind(resolve_event_kind(event), value)
}

/// Reads the payload of a response; its shape is named by the text under
/// `type` in the payload.
pub fn parse_response_payload(value: JsonValue) -> (r: GatewayResponsePayload)
    ensures
        r.deep_view() == response_payload_of(value@),
{
    let kind = match &value {
        JsonValue::Object(o) => match o.get("type") {
            Some(JsonValue::String(s)) => resolve_response_kind(s.as_str()),
            _ => resolve_response_kind(""),
        },
        _ => resolve_response_kind(""),
    };
    proof {
        reveal_strlit("");
        assert(""@ =~= Seq::<char>::empty());
    }
    GatewayResponsePayload::of_kind(kind, value)
}

/// Reads the error of a response; all fields are empty where the document
/// does not decode.
pub fn parse_error_payload(value: &JsonValue) -> (r: GatewayError)
    ensures
        r.deep_view() == error_of(value@),
{
    match GatewayError::decode(value) {
        Some(e) => e,
        None => GatewayError::default(),
    }
}

/// Renders a value as text.
pub fn scalar_value(value: &JsonValue) -> (r: String)
    ensures
        r@ == scalar_of(value@),
{
    match value {
        JsonValue::String(s) => s.clone(),
        JsonValue::Number(_) => match value.to_i64() {
            Some(i) => signed_text(i),
            None => match value.to_u64() {
                Some(u) => unsigned_text(u),
                None => render_json(value),
            },
        },
        _ => render_json(value),
    }
}

/// Renders a field as text.
pub fn scalar_field(o: &JsonObject, key: &str) -> (r: String)
    ensures
        r@ == scalar_text(o@, key@),
{
    match o.get(key) {
        None => String::new(),
        Some(v) => scalar_value(v),
    }
}

/// A copy of the value under `key`, or `null` where there is none.
fn get_or_null(o: &JsonObject, key: &str) -> (r: JsonValue)
    ensures
        r@ == value_or_null(o@, key@),
{
    match o.get(key) {
        Some(v) => v.clone(),
        None => JsonValue::Null,
    }
}

fn decode_request_frame(o: &JsonObject) -> (r: Option<GatewayEvent>)
    ensures
        r.deep_view() == request_frame_of(o@),
{
    match (o.get("id"), o.get("method"), o.get("params")) {
        (Some(JsonValue::String(id)), Some(JsonValue::String(method)), Some(params)) => {
            let params = parse_request_params(method.as_str(), params.clone());
            let session_key = scalar_field(o, "sessionKey");
            Some(
                GatewayEvent::ProtocolRequest {
                    id: id.clone(),
                    method: method.clone(),
                    params,
                    session_key,
                },
            )
        },
        _ => None,
    }
}

fn decode_response_frame(o: &JsonObject) -> (r: Option<GatewayEvent>)
    ensures
        r.deep_view() == response_frame_of(o@),
{
    match (o.get("id"), o.get("ok")) {
        (Some(JsonValue::String(id)), Some(JsonValue::Bool(ok))) => {
            let payload = parse_response_payload(get_or_null(o, "payload"));
            let error = parse_error_payload(&get_or_null(o, "error"));
            let session_key = scalar_field(o, "sessionKey");
            Some(
                GatewayEvent::ProtocolResponse {
                    id: id.clone(),
                    ok: *ok,
                    payload,
                    error,
                    session_key,
                },
            )
        },
        _ => None,
    }
}

fn decode_event_frame(o: &JsonObject) -> (r: Option<GatewayEvent>)
    ensures
        r.deep_view() == event_frame_of(o@),
{
    match (o.get("event"), o.get("payload")) {
        (Some(JsonValue::String(event)), Some(payload)) => {
            let payload = parse_event_payload(event.as_str(), payload.clone());
            let seq = scalar_field(o, "seq");
            let state_version = scalar_field(o, "stateVersion");
            let session_key = scalar_field(o, "sessionKey");
            Some(
                GatewayEvent::ProtocolEvent {
                    event: event.clone(),
                    payload,
                    seq,
                    state_version,
                    session_key,
                },
            )
        },
        _ => None,
    }
}

/// Decodes a document as a protocol frame. An envelope of a known kind with
/// the fields it needs always decodes: a payload that fits no known shape is
/// kept as it came.
pub fn decode_frame(value: &JsonValue) -> (r: Option<GatewayEvent>)
    ensures
        r.deep_view() == frame_of(value@),
{
    match value {
        JsonValue::Object(o) => match o.get("type") {
            Some(JsonValue::String(kind)) => {
                if text_eq(kind.as_str(), "req") {
                    decode_request_frame(o)
                } else if text_eq(kind.as_str(), "res") {
                    decode_response_frame(o)
                } else if text_eq(kind.as_str(), "event") {
                    decode_event_frame(o)
                } else {
                    None
                }
            },
            _ => None,
        },
        _ => None,
    }
}

/// Decodes a text frame: nothing where the text is not JSON or not a
/// protocol frame.
pub fn parse_gateway_frame(text: &str) -> (r: Option<GatewayEvent>)
    ensures
        r.deep_view() == text_frame_of(text@),
{
    match parse_json(text) {
        Some(value) => decode_frame(&value),
        None => None,
    }
}

} // verus!
