//! What decoding makes of what the library itself encodes.

use crate::api::connection::{
    camera_snapshot_of, close_metadata_of, frame_data_of, is_request_text, snapshot_of,
    RequestError,
};
use crate::api::events::frame::{
    error_of, event_payload_of, frame_of, request_params_of, response_payload_of, scalar_text,
    value_or_null, GatewayEventModel, GatewayRequestFrameModel,
};
use crate::api::events::payloads::{
    lemma_request_methods, request_kind, GatewayRequestParamsModel,
};
use crate::api::events::requests::CameraSnapshotModel;
use crate::codec::base64_text;
use crate::json::{
    i64_of, keys_ascend, lemma_lookup_concat, lemma_lookup_one, lemma_without_all_keys, lookup,
    text_of, u32_of, without_keys, JsonModel, ObjectModel,
};
use crate::json_text::{exported, exported_at, rendered_json};
use crate::schema::{
    entry, lemma_keys_among_concat, lemma_keys_among_one, lemma_lookup_entry, optional,
    optional_i64_entry, optional_text_entry, optional_u32_entry, required, text_entry,
};
use vstd::prelude::*;

verus! {

/// A request whose method selects no payload shape decodes with its
/// parameters kept as they came, and those parameters are written back as
/// the same document.
pub proof fn lemma_unknown_method_keeps_params(
    o: ObjectModel,
    id: Seq<char>,
    method: Seq<char>,
    params: JsonModel,
)
    requires
        lookup(o, "type"@) == Some(JsonModel::String("req"@)),
        lookup(o, "id"@) == Some(JsonModel::String(id)),
        lookup(o, "method"@) == Some(JsonModel::String(method)),
        lookup(o, "params"@) == Some(params),
        request_kind(method) is None,
    ensures
        frame_of(JsonModel::Object(o)) matches Some(
            GatewayEventModel::ProtocolRequest { id: i, method: m, params: p, .. },
        ) && i == id && m == method && p == GatewayRequestParamsModel::Unknown(params),
        request_params_of(method, params).encoded() == params,
{
    reveal(request_params_of);
}

/// The three kinds of envelope differ.
proof fn lemma_kinds_differ()
    ensures
        "req"@ != "res"@,
        "req"@ != "event"@,
        "res"@ != "event"@,
{
    reveal_strlit("req");
    reveal_strlit("res");
    reveal_strlit("event");
    assert("req"@.len() == 3 && "res"@.len() == 3 && "event"@.len() == 5);
    assert("req"@[2] != "res"@[2]);
}

/// A request envelope with a text `id`, a text `method` and `params`
/// decodes, whatever the method and the parameters are, and keeps its
/// identifier and method as they came.
pub proof fn lemma_request_envelope_decodes(
    o: ObjectModel,
    id: Seq<char>,
    method: Seq<char>,
    params: JsonModel,
)
    requires
        lookup(o, "type"@) == Some(JsonModel::String("req"@)),
        lookup(o, "id"@) == Some(JsonModel::String(id)),
        lookup(o, "method"@) == Some(JsonModel::String(method)),
        lookup(o, "params"@) == Some(params),
    ensures
        frame_of(JsonModel::Object(o)) == Some(
            GatewayEventModel::ProtocolRequest {
                id,
                method,
                params: request_params_of(method, params),
                session_key: scalar_text(o, "sessionKey"@),
            },
        ),
{
}

/// A response envelope with a text `id` and a boolean `ok` decodes,
/// whatever its payload and error are, and keeps its identifier as it came.
pub proof fn lemma_response_envelope_decodes(o: ObjectModel, id: Seq<char>, ok: bool)
    requires
        lookup(o, "type"@) == Some(JsonModel::String("res"@)),
        lookup(o, "id"@) == Some(JsonModel::String(id)),
        lookup(o, "ok"@) == Some(JsonModel::Bool(ok)),
    ensures
        frame_of(JsonModel::Object(o)) == Some(
            GatewayEventModel::ProtocolResponse {
                id,
                ok,
                payload: response_payload_of(value_or_null(o, "payload"@)),
                error: error_of(value_or_null(o, "error"@)),
                session_key: scalar_text(o, "sessionKey"@),
            },
        ),
{
    lemma_kinds_differ();
}

/// An event envelope with a text `event` and a `payload` decodes, whatever
/// the event and the payload are.
pub proof fn lemma_event_envelope_decodes(o: ObjectModel, event: Seq<char>, payload: JsonModel)
    requires
        lookup(o, "type"@) == Some(JsonModel::String("event"@)),
        lookup(o, "event"@) == Some(JsonModel::String(event)),
        lookup(o, "payload"@) == Some(payload),
    ensures
        frame_of(JsonModel::Object(o)) == Some(
            GatewayEventModel::ProtocolEvent {
                event,
                payload: event_payload_of(event, payload),
                seq: scalar_text(o, "seq"@),
                state_version: scalar_text(o, "stateVersion"@),
                session_key: scalar_text(o, "sessionKey"@),
            },
        ),
{
    lemma_kinds_differ();
}

/// The metadata of a `sessions.close` request holds under `archive` what the
/// caller's metadata holds there, and `true` where the caller's metadata
/// holds nothing there or there is none; under every other key it holds what
/// the caller's metadata holds.
pub proof fn lemma_close_metadata_keeps_archive(metadata: Option<ObjectModel>, key: Seq<char>)
    ensures
        lookup(close_metadata_of(metadata), "archive"@) == match metadata {
            Some(o) => match lookup(o, "archive"@) {
                Some(v) => Some(v),
                None => Some(JsonModel::Bool(true)),
            },
            None => Some(JsonModel::Bool(true)),
        },
        key != "archive"@ ==> lookup(close_metadata_of(metadata), key) == match metadata {
            Some(o) => lookup(o, key),
            None => None,
        },
{
    let o = match metadata {
        Some(o) => o,
        None => Seq::empty(),
    };
    let added = seq![("archive"@, JsonModel::Bool(true))];
    assert(o.push(("archive"@, JsonModel::Bool(true))) =~= o + added);
    lemma_lookup_concat(o, added, "archive"@);
    lemma_lookup_concat(o, added, key);
    lemma_lookup_one("archive"@, JsonModel::Bool(true), "archive"@);
    lemma_lookup_one("archive"@, JsonModel::Bool(true), key);
}

/// The message of a request that was refused for want of shell access says
/// `elevated permission`.
pub proof fn lemma_not_elevated_message()
    ensures
        RequestError::NotElevated.message_text().subrange(22, 41) == "elevated permission"@,
{
    reveal_strlit("Shell access requires elevated permission.");
    reveal_strlit("elevated permission");
    assert(RequestError::NotElevated.message_text().subrange(22, 41) =~= "elevated permission"@);
}

/// The keys of a camera snapshot differ from one another.
proof fn lemma_snapshot_keys_differ()
    ensures
        "data"@ != "encoding"@,
        "data"@ != "compression"@,
        "data"@ != "format"@,
        "data"@ != "width"@,
        "data"@ != "height"@,
        "data"@ != "timestampMs"@,
        "encoding"@ != "compression"@,
        "encoding"@ != "format"@,
        "encoding"@ != "width"@,
        "encoding"@ != "height"@,
        "encoding"@ != "timestampMs"@,
        "compression"@ != "format"@,
        "compression"@ != "width"@,
        "compression"@ != "height"@,
        "compression"@ != "timestampMs"@,
        "format"@ != "width"@,
        "format"@ != "height"@,
        "format"@ != "timestampMs"@,
        "width"@ != "height"@,
        "width"@ != "timestampMs"@,
        "height"@ != "timestampMs"@,
{
    reveal_strlit("data");
    reveal_strlit("encoding");
    reveal_strlit("compression");
    reveal_strlit("format");
    reveal_strlit("width");
    reveal_strlit("height");
    reveal_strlit("timestampMs");
    assert("data"@.len() == 4);
    assert("encoding"@.len() == 8);
    assert("compression"@.len() == 11);
    assert("format"@.len() == 6);
    assert("width"@.len() == 5);
    assert("height"@.len() == 6);
    assert("timestampMs"@.len() == 11);
    assert("format"@[0] != "height"@[0]);
    assert("compression"@[0] != "timestampMs"@[0]);
}

/// A lookup in seven lists of entries, one after the other.
proof fn lemma_lookup_in_seven(
    e1: ObjectModel,
    e2: ObjectModel,
    e3: ObjectModel,
    e4: ObjectModel,
    e5: ObjectModel,
    e6: ObjectModel,
    e7: ObjectModel,
    key: Seq<char>,
)
    ensures
        lookup(e1 + e2 + e3 + e4 + e5 + e6 + e7, key) == if lookup(e1, key) is Some {
            lookup(e1, key)
        } else if lookup(e2, key) is Some {
            lookup(e2, key)
        } else if lookup(e3, key) is Some {
            lookup(e3, key)
        } else if lookup(e4, key) is Some {
            lookup(e4, key)
        } else if lookup(e5, key) is Some {
            lookup(e5, key)
        } else if lookup(e6, key) is Some {
            lookup(e6, key)
        } else {
            lookup(e7, key)
        },
{
    lemma_lookup_concat(e1 + e2 + e3 + e4 + e5 + e6, e7, key);
    lemma_lookup_concat(e1 + e2 + e3 + e4 + e5, e6, key);
    lemma_lookup_concat(e1 + e2 + e3 + e4, e5, key);
    lemma_lookup_concat(e1 + e2 + e3, e4, key);
    lemma_lookup_concat(e1 + e2, e3, key);
    lemma_lookup_concat(e1, e2, key);
}

/// The entries of a snapshot that the library builds.
pub open spec fn snapshot_entries(
    data: Seq<char>,
    compression: Option<Seq<char>>,
    format: Option<Seq<char>>,
    width: Option<u32>,
    height: Option<u32>,
    timestamp_ms: Option<i64>,
) -> ObjectModel {
    text_entry("data"@, data) + text_entry("encoding"@, "base64"@) + optional_text_entry(
        "compression"@,
        compression,
    ) + optional_text_entry("format"@, format) + optional_u32_entry("width"@, width)
        + optional_u32_entry("height"@, height) + optional_i64_entry("timestampMs"@, timestamp_ms)
}

/// Nothing but declared fields stands in a snapshot that the library builds.
proof fn lemma_snapshot_has_no_others(
    data: Seq<char>,
    compression: Option<Seq<char>>,
    format: Option<Seq<char>>,
    width: Option<u32>,
    height: Option<u32>,
    timestamp_ms: Option<i64>,
)
    ensures
        without_keys(
            snapshot_entries(data, compression, format, width, height, timestamp_ms),
            CameraSnapshotModel::keys(),
        ) == Seq::<(Seq<char>, JsonModel)>::empty(),
{
    let e1 = text_entry("data"@, data);
    let e2 = text_entry("encoding"@, "base64"@);
    let e3 = optional_text_entry("compression"@, compression);
    let e4 = optional_text_entry("format"@, format);
    let e5 = optional_u32_entry("width"@, width);
    let e6 = optional_u32_entry("height"@, height);
    let e7 = optional_i64_entry("timestampMs"@, timestamp_ms);
    let keys = CameraSnapshotModel::keys();
    lemma_keys_among_one(e1, "data"@, keys, 0);
    lemma_keys_among_one(e2, "encoding"@, keys, 1);
    lemma_keys_among_one(e3, "compression"@, keys, 2);
    lemma_keys_among_one(e4, "format"@, keys, 3);
    lemma_keys_among_one(e5, "width"@, keys, 4);
    lemma_keys_among_one(e6, "height"@, keys, 5);
    lemma_keys_among_one(e7, "timestampMs"@, keys, 6);
    lemma_keys_among_concat(e1, e2, keys);
    lemma_keys_among_concat(e1 + e2, e3, keys);
    lemma_keys_among_concat(e1 + e2 + e3, e4, keys);
    lemma_keys_among_concat(e1 + e2 + e3 + e4, e5, keys);
    lemma_keys_among_concat(e1 + e2 + e3 + e4 + e5, e6, keys);
    lemma_keys_among_concat(e1 + e2 + e3 + e4 + e5 + e6, e7, keys);
    lemma_without_all_keys(e1 + e2 + e3 + e4 + e5 + e6 + e7, keys);
}

/// What stands under each declared key of a snapshot that the library
/// builds.
proof fn lemma_snapshot_lookups(
    data: Seq<char>,
    compression: Option<Seq<char>>,
    format: Option<Seq<char>>,
    width: Option<u32>,
    height: Option<u32>,
    timestamp_ms: Option<i64>,
)
    ensures
        ({
            let o = snapshot_entries(data, compression, format, width, height, timestamp_ms);
            &&& lookup(o, "data"@) == Some(JsonModel::String(data))
            &&& lookup(o, "encoding"@) == Some(JsonModel::String("base64"@))
            &&& lookup(o, "compression"@) == lookup(
                optional_text_entry("compression"@, compression),
                "compression"@,
            )
            &&& lookup(o, "format"@) == lookup(optional_text_entry("format"@, format), "format"@)
            &&& lookup(o, "width"@) == lookup(optional_u32_entry("width"@, width), "width"@)
            &&& lookup(o, "height"@) == lookup(optional_u32_entry("height"@, height), "height"@)
            &&& lookup(o, "timestampMs"@) == lookup(
                optional_i64_entry("timestampMs"@, timestamp_ms),
                "timestampMs"@,
            )
        }),
{
    broadcast use lemma_lookup_entry;

    let e1 = text_entry("data"@, data);
    let e2 = text_entry("encoding"@, "base64"@);
    let e3 = optional_text_entry("compression"@, compression);
    let e4 = optional_text_entry("format"@, format);
    let e5 = optional_u32_entry("width"@, width);
    let e6 = optional_u32_entry("height"@, height);
    let e7 = optional_i64_entry("timestampMs"@, timestamp_ms);
    lemma_snapshot_keys_differ();
    lemma_lookup_in_seven(e1, e2, e3, e4, e5, e6, e7, "data"@);
    lemma_lookup_in_seven(e1, e2, e3, e4, e5, e6, e7, "encoding"@);
    lemma_lookup_in_seven(e1, e2, e3, e4, e5, e6, e7, "compression"@);
    lemma_lookup_in_seven(e1, e2, e3, e4, e5, e6, e7, "format"@);
    lemma_lookup_in_seven(e1, e2, e3, e4, e5, e6, e7, "width"@);
    lemma_lookup_in_seven(e1, e2, e3, e4, e5, e6, e7, "height"@);
    lemma_lookup_in_seven(e1, e2, e3, e4, e5, e6, e7, "timestampMs"@);
}

/// What each declared field of a snapshot that the library builds reads as.
proof fn lemma_snapshot_fields(
    data: Seq<char>,
    compression: Option<Seq<char>>,
    format: Option<Seq<char>>,
    width: Option<u32>,
    height: Option<u32>,
    timestamp_ms: Option<i64>,
)
    ensures
        ({
            let o = snapshot_entries(data, compression, format, width, height, timestamp_ms);
            &&& required(o, "data"@, |m: JsonModel| text_of(m)) == Some(data)
            &&& required(o, "encoding"@, |m: JsonModel| text_of(m)) == Some("base64"@)
            &&& optional(o, "compression"@, |m: JsonModel| text_of(m)) == Some(compression)
            &&& optional(o, "format"@, |m: JsonModel| text_of(m)) == Some(format)
            &&& optional(o, "width"@, |m: JsonModel| u32_of(m)) == Some(width)
            &&& optional(o, "height"@, |m: JsonModel| u32_of(m)) == Some(height)
            &&& optional(o, "timestampMs"@, |m: JsonModel| i64_of(m)) == Some(timestamp_ms)
        }),
{
    broadcast use lemma_lookup_entry;

    lemma_snapshot_lookups(data, compression, format, width, height, timestamp_ms);
}

/// The document that a snapshot built by the library is written as.
proof fn lemma_snapshot_encoded(
    data: Seq<char>,
    compression: Option<Seq<char>>,
    format: Option<Seq<char>>,
    width: Option<u32>,
    height: Option<u32>,
    timestamp_ms: Option<i64>,
)
    ensures
        snapshot_of(data, compression, format, width, height, timestamp_ms).encoded()
            == JsonModel::Object(
            snapshot_entries(data, compression, format, width, height, timestamp_ms),
        ),
{
    let o = snapshot_entries(data, compression, format, width, height, timestamp_ms);
    assert(o + Seq::<(Seq<char>, JsonModel)>::empty() =~= o);
}

/// A snapshot that the library builds decodes, from the document it is
/// written as, to itself: the decoded snapshot names the encoding `base64`,
/// and names a compression exactly where the built one does.
pub proof fn lemma_snapshot_round_trip(
    data: Seq<char>,
    compression: Option<Seq<char>>,
    format: Option<Seq<char>>,
    width: Option<u32>,
    height: Option<u32>,
    timestamp_ms: Option<i64>,
)
    ensures
        CameraSnapshotModel::decoded(
            snapshot_of(data, compression, format, width, height, timestamp_ms).encoded(),
        ) == Some(snapshot_of(data, compression, format, width, height, timestamp_ms)),
{
    lemma_snapshot_encoded(data, compression, format, width, height, timestamp_ms);
    lemma_snapshot_has_no_others(data, compression, format, width, height, timestamp_ms);
    lemma_snapshot_fields(data, compression, format, width, height, timestamp_ms);
}

/// The keys of a request envelope differ from one another.
proof fn lemma_envelope_keys_differ()
    ensures
        "type"@ != "id"@,
        "type"@ != "method"@,
        "type"@ != "params"@,
        "type"@ != "sessionKey"@,
        "id"@ != "method"@,
        "id"@ != "params"@,
        "id"@ != "sessionKey"@,
        "method"@ != "params"@,
        "method"@ != "sessionKey"@,
        "params"@ != "sessionKey"@,
{
    reveal_strlit("type");
    reveal_strlit("id");
    reveal_strlit("method");
    reveal_strlit("params");
    reveal_strlit("sessionKey");
    assert("type"@.len() == 4);
    assert("id"@.len() == 2);
    assert("method"@.len() == 6);
    assert("params"@.len() == 6);
    assert("sessionKey"@.len() == 10);
    assert("method"@[0] != "params"@[0]);
}

/// The entries of a request envelope.
pub open spec fn envelope_entries(
    id: Seq<char>,
    method: Seq<char>,
    params: JsonModel,
    session_key: Option<Seq<char>>,
) -> ObjectModel {
    text_entry("type"@, "req"@) + text_entry("id"@, id) + text_entry("method"@, method) + entry(
        "params"@,
        params,
    ) + optional_text_entry("sessionKey"@, session_key)
}

/// A lookup in five lists of entries, one after the other.
proof fn lemma_lookup_in_five(
    e1: ObjectModel,
    e2: ObjectModel,
    e3: ObjectModel,
    e4: ObjectModel,
    e5: ObjectModel,
    key: Seq<char>,
)
    ensures
        lookup(e1 + e2 + e3 + e4 + e5, key) == if lookup(e1, key) is Some {
            lookup(e1, key)
        } else if lookup(e2, key) is Some {
            lookup(e2, key)
        } else if lookup(e3, key) is Some {
            lookup(e3, key)
        } else if lookup(e4, key) is Some {
            lookup(e4, key)
        } else {
            lookup(e5, key)
        },
{
    lemma_lookup_concat(e1 + e2 + e3 + e4, e5, key);
    lemma_lookup_concat(e1 + e2 + e3, e4, key);
    lemma_lookup_concat(e1 + e2, e3, key);
    lemma_lookup_concat(e1, e2, key);
}

/// What stands under each key of a request envelope.
proof fn lemma_envelope_lookups(
    id: Seq<char>,
    method: Seq<char>,
    params: JsonModel,
    session_key: Option<Seq<char>>,
)
    ensures
        ({
            let o = envelope_entries(id, method, params, session_key);
            &&& lookup(o, "type"@) == Some(JsonModel::String("req"@))
            &&& lookup(o, "id"@) == Some(JsonModel::String(id))
            &&& lookup(o, "method"@) == Some(JsonModel::String(method))
            &&& lookup(o, "params"@) == Some(params)
            &&& lookup(o, "sessionKey"@) == match session_key {
                Some(k) => Some(JsonModel::String(k)),
                None => None,
            }
        }),
{
    broadcast use lemma_lookup_entry;

    let e1 = text_entry("type"@, "req"@);
    let e2 = text_entry("id"@, id);
    let e3 = text_entry("method"@, method);
    let e4 = entry("params"@, params);
    let e5 = optional_text_entry("sessionKey"@, session_key);
    lemma_envelope_keys_differ();
    lemma_lookup_in_five(e1, e2, e3, e4, e5, "type"@);
    lemma_lookup_in_five(e1, e2, e3, e4, e5, "id"@);
    lemma_lookup_in_five(e1, e2, e3, e4, e5, "method"@);
    lemma_lookup_in_five(e1, e2, e3, e4, e5, "params"@);
    lemma_lookup_in_five(e1, e2, e3, e4, e5, "sessionKey"@);
}

/// The session key that a decoded request carries: the one it was built
/// with, or the empty text where it was built with none.
pub open spec fn session_key_or_empty(session_key: Option<Seq<char>>) -> Seq<char> {
    match session_key {
        Some(k) => k,
        None => Seq::empty(),
    }
}

/// The document that a request envelope is written as decodes as a request
/// with the same identifier, method and session key, and with the
/// parameters that the method reads from the document of the parameters.
pub proof fn lemma_request_frame_decodes(
    id: Seq<char>,
    method: Seq<char>,
    params: GatewayRequestParamsModel,
    session_key: Option<Seq<char>>,
)
    ensures
        frame_of(GatewayRequestFrameModel::request(id, method, params, session_key).encoded())
            == Some(
            GatewayEventModel::ProtocolRequest {
                id,
                method,
                params: request_params_of(method, params.encoded()),
                session_key: session_key_or_empty(session_key),
            },
        ),
{
    let o = envelope_entries(id, method, params.encoded(), session_key);
    assert(GatewayRequestFrameModel::request(id, method, params, session_key).encoded()
        == JsonModel::Object(o));
    lemma_envelope_lookups(id, method, params.encoded(), session_key);
    lemma_request_envelope_decodes(o, id, method, params.encoded());
}

/// The method `camera_snap` reads a document that decodes as a snapshot as
/// that snapshot.
proof fn lemma_camera_params_read(m: JsonModel, snapshot: CameraSnapshotModel)
    requires
        CameraSnapshotModel::decoded(m) == Some(snapshot),
    ensures
        request_params_of("camera_snap"@, m) == GatewayRequestParamsModel::CameraSnapshot(snapshot),
{
    reveal(request_params_of);
    lemma_request_methods();
}

/// The method `camera_snap` reads the document of a snapshot that the
/// library builds as that snapshot.
proof fn lemma_camera_params_round_trip(
    data: Seq<char>,
    compression: Option<Seq<char>>,
    format: Option<Seq<char>>,
    width: Option<u32>,
    height: Option<u32>,
    timestamp_ms: Option<i64>,
)
    ensures
        request_params_of(
            "camera_snap"@,
            GatewayRequestParamsModel::CameraSnapshot(
                snapshot_of(data, compression, format, width, height, timestamp_ms),
            ).encoded(),
        ) == GatewayRequestParamsModel::CameraSnapshot(
            snapshot_of(data, compression, format, width, height, timestamp_ms),
        ),
{
    let snapshot = snapshot_of(data, compression, format, width, height, timestamp_ms);
    lemma_snapshot_encoded(data, compression, format, width, height, timestamp_ms);
    lemma_snapshot_has_no_others(data, compression, format, width, height, timestamp_ms);
    lemma_snapshot_fields(data, compression, format, width, height, timestamp_ms);
    lemma_camera_params_read(snapshot.encoded(), snapshot);
}

/// The text of a request is the text of a value that holds the fields of the
/// envelope and no others, in ascending order of their keys: `req` under
/// `type`, the identifier, the method, what the parameters are written from,
/// and the session key where there is one.
pub proof fn lemma_request_text_holds_fields(
    text: Seq<char>,
    id: Seq<char>,
    method: Seq<char>,
    params: GatewayRequestParamsModel,
    session_key: Option<Seq<char>>,
    key: Seq<char>,
)
    requires
        is_request_text(text, id, method, params, session_key),
    ensures
        ({
            let content = exported(
                GatewayRequestFrameModel::request(id, method, params, session_key).encoded(),
            );
            &&& text == rendered_json(content)
            &&& content is Object
            &&& keys_ascend(content->Object_0)
            &&& lookup(content->Object_0, "type"@) == Some(JsonModel::String("req"@))
            &&& lookup(content->Object_0, "id"@) == Some(JsonModel::String(id))
            &&& lookup(content->Object_0, "method"@) == Some(JsonModel::String(method))
            &&& lookup(content->Object_0, "params"@) == Some(exported(params.encoded()))
            &&& lookup(content->Object_0, "sessionKey"@) == match session_key {
                Some(k) => Some(JsonModel::String(k)),
                None => None,
            }
            &&& key != "type"@ && key != "id"@ && key != "method"@ && key != "params"@ && key
                != "sessionKey"@ ==> lookup(content->Object_0, key) is None
        }),
{
    let o = envelope_entries(id, method, params.encoded(), session_key);
    let document = GatewayRequestFrameModel::request(id, method, params, session_key).encoded();
    assert(document == JsonModel::Object(o));
    lemma_envelope_lookups(id, method, params.encoded(), session_key);
    if key != "type"@ && key != "id"@ && key != "method"@ && key != "params"@ && key
        != "sessionKey"@ {
        lemma_envelope_has_no_others(id, method, params.encoded(), session_key, key);
    }
    let content = exported(document);
    assert(lookup(content->Object_0, "type"@) == exported_at(o, "type"@));
    assert(lookup(content->Object_0, "id"@) == exported_at(o, "id"@));
    assert(lookup(content->Object_0, "method"@) == exported_at(o, "method"@));
    assert(lookup(content->Object_0, "params"@) == exported_at(o, "params"@));
    assert(lookup(content->Object_0, "sessionKey"@) == exported_at(o, "sessionKey"@));
    assert(lookup(content->Object_0, key) == exported_at(o, key));
}

/// A request envelope holds nothing under a key that is not one of its
/// five.
proof fn lemma_envelope_has_no_others(
    id: Seq<char>,
    method: Seq<char>,
    params: JsonModel,
    session_key: Option<Seq<char>>,
    key: Seq<char>,
)
    requires
        key != "type"@,
        key != "id"@,
        key != "method"@,
        key != "params"@,
        key != "sessionKey"@,
    ensures
        lookup(envelope_entries(id, method, params, session_key), key) is None,
{
    broadcast use lemma_lookup_entry;

    let e1 = text_entry("type"@, "req"@);
    let e2 = text_entry("id"@, id);
    let e3 = text_entry("method"@, method);
    let e4 = entry("params"@, params);
    let e5 = optional_text_entry("sessionKey"@, session_key);
    lemma_lookup_in_five(e1, e2, e3, e4, e5, key);
}

/// A `camera_snap` request that the library builds decodes, from the
/// document it is written as, to a request with the same identifier and the
/// same snapshot: the encoding is `base64`, the compression is named exactly
/// where the snapshot was built with one, and no other field is added.
pub proof fn lemma_camera_request_decodes(
    id: Seq<char>,
    session_key: Option<Seq<char>>,
    data: Seq<char>,
    compression: Option<Seq<char>>,
    format: Option<Seq<char>>,
    width: Option<u32>,
    height: Option<u32>,
    timestamp_ms: Option<i64>,
)
    ensures
        frame_of(
            GatewayRequestFrameModel::request(
                id,
                "camera_snap"@,
                GatewayRequestParamsModel::CameraSnapshot(
                    snapshot_of(data, compression, format, width, height, timestamp_ms),
                ),
                session_key,
            ).encoded(),
        ) == Some(
            GatewayEventModel::ProtocolRequest {
                id,
                method: "camera_snap"@,
                params: GatewayRequestParamsModel::CameraSnapshot(
                    snapshot_of(data, compression, format, width, height, timestamp_ms),
                ),
                session_key: session_key_or_empty(session_key),
            },
        ),
{
    let snapshot = snapshot_of(data, compression, format, width, height, timestamp_ms);
    let params = GatewayRequestParamsModel::CameraSnapshot(snapshot);
    lemma_request_frame_decodes(id, "camera_snap"@, params, session_key);
    lemma_camera_params_round_trip(data, compression, format, width, height, timestamp_ms);
}

/// The snapshot that a `camera_snap` request is built with names the
/// encoding `base64`; it names the compression `gzip` where compression was
/// asked for and none where it was not, and then its data is the base64
/// text of the bytes as they are. Decoding the document of the request gives
/// that snapshot back.
pub proof fn lemma_camera_snap_round_trip(
    id: Seq<char>,
    session_key: Option<Seq<char>>,
    bytes: Seq<u8>,
    format: Option<Seq<char>>,
    width: Option<u32>,
    height: Option<u32>,
    timestamp_ms: Option<i64>,
    compress: bool,
)
    requires
        camera_snapshot_of(bytes, format, width, height, timestamp_ms, compress) is Ok,
    ensures
        ({
            let built = camera_snapshot_of(
                bytes,
                format,
                width,
                height,
                timestamp_ms,
                compress,
            )->Ok_0;
            &&& built.encoding == "base64"@
            &&& compress ==> built.compression == Some("gzip"@)
            &&& !compress ==> built.compression is None && built.data == base64_text(bytes)
            &&& built.format == format && built.width == width && built.height == height
            &&& built.timestamp_ms == timestamp_ms && built.extra.len() == 0
            &&& frame_of(
                GatewayRequestFrameModel::request(
                    id,
                    "camera_snap"@,
                    GatewayRequestParamsModel::CameraSnapshot(built),
                    session_key,
                ).encoded(),
            ) == Some(
                GatewayEventModel::ProtocolRequest {
                    id,
                    method: "camera_snap"@,
                    params: GatewayRequestParamsModel::CameraSnapshot(built),
                    session_key: session_key_or_empty(session_key),
                },
            )
        }),
{
    let data = frame_data_of(bytes, compress)->Ok_0;
    lemma_camera_request_decodes(
        id,
        session_key,
        data.0,
        data.1,
        format,
        width,
        height,
        timestamp_ms,
    );
}

} // verus!
