//! Building requests: validation of what the caller supplies, and one
//! builder per method.

use crate::api::events::frame::{GatewayRequestFrame, GatewayRequestFrameModel};
use crate::api::events::payloads::{GatewayRequestParams, GatewayRequestParamsModel};
use crate::api::events::requests::{
    AgentTurn, AgentTurnModel, CameraSnapshot, CameraSnapshotModel, ExecParams, ExecParamsModel,
    LogsSubscribeParams, LogsSubscribeParamsModel, LogsUnsubscribeParams,
    LogsUnsubscribeParamsModel, SessionsCloseParams, SessionsCloseParamsModel, SessionsListParams,
    SessionsListParamsModel, SessionsSpawnParams, SessionsSpawnParamsModel, StreamCloseParams,
    StreamCloseParamsModel, StreamOpenParams, StreamOpenParamsModel, StreamSendParams,
    StreamSendParamsModel, SystemEvent, SystemEventModel, SystemProbeParams,
    SystemProbeParamsModel,
};
use crate::codec::{base64_encode, base64_text, gzip_bytes, gzip_compress, trim_text, trimmed};
use crate::json::{lookup, JsonModel, JsonObject, JsonValue, ObjectModel};
use crate::schema::{
    optional_bool_entry, optional_text_entry, optional_u32_entry, put_optional_bool,
    put_optional_text, put_optional_u32,
};
use crate::json_text::{parse_json, parsed_json};
use crate::text::{clone_opt_text, decimal, join3, unsigned_text};
use vstd::prelude::*;

verus! {

/// Why a request was not built or not handed on.
#[derive(Clone, Copy, Debug, PartialEq, Eq, Structural)]
pub enum RequestError {
    /// A text that should hold JSON does not.
    InvalidJson,
    /// Metadata that is neither `null` nor a JSON object.
    MetadataNotObject,
    /// Shell access was asked for without a permissions descriptor whose
    /// `elevated` is `true`.
    NotElevated,
    /// The frame bytes could not be compressed.
    CompressionFailed,
    /// A frame handed in for sending is not a request envelope.
    NotRequestFrame,
    /// No connection is live.
    NotConnected,
    /// The live connection is being torn down.
    ConnectionClosed,
}

impl RequestError {
    /// The message of an error.
    pub open spec fn message_text(self) -> Seq<char> {
        match self {
            RequestError::InvalidJson => "invalid JSON"@,
            RequestError::MetadataNotObject => "metadata must be a JSON object"@,
            RequestError::NotElevated => "Shell access requires elevated permission."@,
            RequestError::CompressionFailed => "frame compression failed"@,
            RequestError::NotRequestFrame => {
                "Only GatewayRequestFrame payloads with type=req can be sent"@
            },
            RequestError::NotConnected => "gateway is not connected"@,
            RequestError::ConnectionClosed => "Failed to send request: connection is closed"@,
        }
    }

    /// The message of an error, for the caller to show.
    pub fn message(&self) -> (r: String)
        ensures
            r@ == self.message_text(),
    {
        match self {
            RequestError::InvalidJson => "invalid JSON".to_owned(),
            RequestError::MetadataNotObject => "metadata must be a JSON object".to_owned(),
            RequestError::NotElevated => "Shell access requires elevated permission.".to_owned(),
            RequestError::CompressionFailed => "frame compression failed".to_owned(),
            RequestError::NotRequestFrame => {
                "Only GatewayRequestFrame payloads with type=req can be sent".to_owned()
            },
            RequestError::NotConnected => "gateway is not connected".to_owned(),
            RequestError::ConnectionClosed => {
                "Failed to send request: connection is closed".to_owned()
            },
        }
    }
}

/// The metadata that a parsed document stands for: none for `null`, the
/// entries of an object, and an error for anything else.
pub open spec fn metadata_of_json(parsed: Option<JsonModel>) -> Result<
    Option<ObjectModel>,
    RequestError,
> {
    match parsed {
        None => Err(RequestError::InvalidJson),
        Some(JsonModel::Null) => Ok(None),
        Some(JsonModel::Object(o)) => Ok(Some(o)),
        Some(_) => Err(RequestError::MetadataNotObject),
    }
}

/// The metadata that an optional text stands for: none where the text is
/// missing or blank.
pub open spec fn metadata_of(text: Option<Seq<char>>) -> Result<Option<ObjectModel>, RequestError> {
    match text {
        None => Ok(None),
        Some(t) => if trimmed(t).len() == 0 {
            Ok(None)
        } else {
            metadata_of_json(parsed_json(trimmed(t)))
        },
    }
}

/// Whether a parsed permissions descriptor grants shell access: it is an
/// object whose `elevated` is `true`.
pub open spec fn grants_shell(parsed: Option<JsonModel>) -> bool {
    match parsed {
        Some(JsonModel::Object(o)) => lookup(o, "elevated"@) == Some(JsonModel::Bool(true)),
        _ => false,
    }
}

/// Whether an optional permissions text grants shell access.
pub open spec fn elevated(text: Option<Seq<char>>) -> bool {
    match text {
        Some(t) => grants_shell(parsed_json(trimmed(t))),
        None => false,
    }
}

/// The metadata of a `sessions.close` request: the caller's metadata, with
/// `archive` set to `true` unless the caller has set it.
pub open spec fn close_metadata_of(metadata: Option<ObjectModel>) -> ObjectModel {
    let o = match metadata {
        Some(o) => o,
        None => Seq::empty(),
    };
    if lookup(o, "archive"@) is Some {
        o
    } else {
        o.push(("archive"@, JsonModel::Bool(true)))
    }
}

/// The text of a request.
pub open spec fn request_text(
    id: Seq<char>,
    method: Seq<char>,
    params: GatewayRequestParamsModel,
    session_key: Option<Seq<char>>,
) -> Seq<char> {
    GatewayRequestFrameModel::request(id, method, params, session_key).text()
}

/// Whether `text` is the text of a request: the text of a value that holds,
/// in ascending order of the keys, what each field of the envelope is
/// written from.
pub open spec fn is_request_text(
    text: Seq<char>,
    id: Seq<char>,
    method: Seq<char>,
    params: GatewayRequestParamsModel,
    session_key: Option<Seq<char>>,
) -> bool {
    GatewayRequestFrameModel::request(id, method, params, session_key).is_text(text)
}

/// The snapshot that carries the given data.
pub open spec fn snapshot_of(
    data: Seq<char>,
    compression: Option<Seq<char>>,
    format: Option<Seq<char>>,
    width: Option<u32>,
    height: Option<u32>,
    timestamp_ms: Option<i64>,
) -> CameraSnapshotModel {
    CameraSnapshotModel {
        data,
        encoding: "base64"@,
        compression,
        format,
        width,
        height,
        timestamp_ms,
        extra: Seq::empty(),
    }
}

/// Reads metadata from a parsed document.
pub fn metadata_from_json(parsed: Option<JsonValue>) -> (r: Result<
    Option<JsonObject>,
    RequestError,
>)
    ensures
        match metadata_of_json(parsed.deep_view()) {
            Ok(m) => r matches Ok(o) && o.deep_view() == m,
            Err(e) => r matches Err(x) && x == e,
        },
{
    match parsed {
        None => Err(RequestError::InvalidJson),
        Some(JsonValue::Null) => Ok(None),
        Some(JsonValue::Object(o)) => Ok(Some(o)),
        Some(_) => Err(RequestError::MetadataNotObject),
    }
}

/// Reads free-form metadata from an optional JSON text. A missing or blank
/// text and `null` stand for no metadata.
pub fn parse_metadata(metadata_json: Option<String>) -> (r: Result<
    Option<JsonObject>,
    RequestError,
>)
    ensures
        match metadata_of(metadata_json.deep_view()) {
            Ok(m) => r matches Ok(o) && o.deep_view() == m,
            Err(e) => r matches Err(x) && x == e,
        },
{
    match metadata_json {
        None => Ok(None),
        Some(text) => {
            let inner = trim_text(text.as_str());
            if inner.is_empty() {
                Ok(None)
            } else {
                metadata_from_json(parse_json(inner))
            }
        },
    }
}

/// Whether a parsed permissions descriptor grants shell access.
pub fn permission_grants_shell(parsed: &Option<JsonValue>) -> (r: bool)
    ensures
        r == grants_shell(parsed.deep_view()),
{
    match parsed {
        Some(JsonValue::Object(o)) => match o.get("elevated") {
            Some(JsonValue::Bool(b)) => *b,
            _ => false,
        },
        _ => false,
    }
}

/// Accepts a permissions descriptor that grants shell access, and rejects
/// any other, a text that is no descriptor, and a missing one.
pub fn ensure_elevated_permission(permissions_json: Option<String>) -> (r: Result<(), RequestError>)
    ensures
        elevated(permissions_json.deep_view()) ==> r is Ok,
        !elevated(permissions_json.deep_view()) ==> r == Err::<(), RequestError>(
            RequestError::NotElevated,
        ),
{
    match permissions_json {
        None => Err(RequestError::NotElevated),
        Some(text) => {
            let parsed = parse_json(trim_text(text.as_str()));
            if permission_grants_shell(&parsed) {
                Ok(())
            } else {
                Err(RequestError::NotElevated)
            }
        },
    }
}

/// The metadata of a `sessions.close` request: `archive` is set to `true`
/// unless the caller's metadata already sets it.
pub fn close_metadata(metadata: Option<JsonObject>) -> (r: JsonObject)
    ensures
        r@ == close_metadata_of(metadata.deep_view()),
{
    let mut o = match metadata {
        Some(o) => o,
        None => JsonObject::new(),
    };
    if !o.contains_key("archive") {
        o.push("archive".to_owned(), JsonValue::Bool(true));
    }
    o
}

/// The data of a frame and the name of its compression: the base64 text of
/// the bytes as they are, or of their gzip stream where compression is
/// asked for. Compression fails where the encoder reports an error or the
/// stream is too long to encode.
pub open spec fn frame_data_of(bytes: Seq<u8>, compress: bool) -> Result<
    (Seq<char>, Option<Seq<char>>),
    RequestError,
> {
    if compress {
        match gzip_bytes(bytes) {
            Some(stream) => if stream.len() <= isize::MAX {
                Ok((base64_text(stream), Some("gzip"@)))
            } else {
                Err(RequestError::CompressionFailed)
            },
            None => Err(RequestError::CompressionFailed),
        }
    } else {
        Ok((base64_text(bytes), None))
    }
}

/// The data of a compressed frame: its base64 text and the name of the
/// compression, or an error where compression gave nothing.
pub fn encode_compressed_frame(compressed: Option<Vec<u8>>) -> (r: Result<
    (String, Option<String>),
    RequestError,
>)
    requires
        compressed matches Some(bytes) ==> bytes@.len() <= isize::MAX,
    ensures
        match compressed {
            Some(bytes) => r matches Ok(pair) && pair.0@ == base64_text(bytes@)
                && pair.1.deep_view() == Some("gzip"@),
            None => r == Err::<(String, Option<String>), RequestError>(
                RequestError::CompressionFailed,
            ),
        },
{
    match compressed {
        Some(bytes) => Ok((base64_encode(bytes.as_slice()), Some("gzip".to_owned()))),
        None => Err(RequestError::CompressionFailed),
    }
}

/// Encodes frame bytes as base64 text, gzip-compressed first where asked;
/// the second part names the compression used.
pub fn encode_frame_bytes(frame_bytes: &[u8], compress: bool) -> (r: Result<
    (String, Option<String>),
    RequestError,
>)
    requires
        frame_bytes@.len() <= isize::MAX,
    ensures
        match frame_data_of(frame_bytes@, compress) {
            Ok(data) => r matches Ok(pair) && pair.0@ == data.0 && pair.1.deep_view() == data.1,
            Err(e) => r matches Err(x) && x == e,
        },
{
    if compress {
        match gzip_compress(frame_bytes) {
            Some(compressed) => {
                if compressed.len() > isize::MAX as usize {
                    return Err(RequestError::CompressionFailed);
                }
                encode_compressed_frame(Some(compressed))
            },
            None => encode_compressed_frame(None),
        }
    } else {
        Ok((base64_encode(frame_bytes), None))
    }
}

/// The snapshot of a camera frame, or why there is none.
pub open spec fn camera_snapshot_of(
    bytes: Seq<u8>,
    format: Option<Seq<char>>,
    width: Option<u32>,
    height: Option<u32>,
    timestamp_ms: Option<i64>,
    compress: bool,
) -> Result<CameraSnapshotModel, RequestError> {
    match frame_data_of(bytes, compress) {
        Ok(data) => Ok(snapshot_of(data.0, data.1, format, width, height, timestamp_ms)),
        Err(e) => Err(e),
    }
}

/// Builds the snapshot of a camera frame.
pub fn encode_camera_snapshot(
    frame_bytes: Vec<u8>,
    format: Option<String>,
    width: Option<u32>,
    height: Option<u32>,
    timestamp_ms: Option<i64>,
    compress: bool,
) -> (r: Result<CameraSnapshot, RequestError>)
    requires
        frame_bytes@.len() <= isize::MAX,
    ensures
        match camera_snapshot_of(
            frame_bytes@,
            format.deep_view(),
            width,
            height,
            timestamp_ms,
            compress,
        ) {
            Ok(snapshot) => r matches Ok(s) && s.deep_view() == snapshot,
            Err(e) => r matches Err(x) && x == e,
        },
{
    match encode_frame_bytes(frame_bytes.as_slice(), compress) {
        Ok((data, compression)) => Ok(
            CameraSnapshot {
                data,
                encoding: "base64".to_owned(),
                compression,
                format,
                width,
                height,
                timestamp_ms,
                extra: JsonObject::new(),
            },
        ),
        Err(e) => Err(e),
    }
}

/// Writes the envelope of a request as JSON text.
pub fn build_request_json(
    request_id: String,
    method: &str,
    params: GatewayRequestParams,
    session_key: Option<String>,
) -> (r: String)
    ensures
        is_request_text(
            r@,
            request_id@,
            method@,
            params.deep_view(),
            session_key.deep_view(),
        ),
{
    let frame = GatewayRequestFrame::new(request_id, method, params, session_key);
    frame.to_json()
}

/// The source of request identifiers: a counter that starts at 1.
pub struct RequestCounter {
    next: u64,
}

impl RequestCounter {
    /// The number that the next identifier will carry.
    pub closed spec fn upcoming(&self) -> u64 {
        self.next
    }

    /// A counter at its start.
    pub fn new() -> (r: RequestCounter)
        ensures
            r.upcoming() == 1,
    {
        RequestCounter { next: 1 }
    }

    /// Hands out the current number and moves on by one; past the largest
    /// number the counter starts again at zero.
    pub fn take(&mut self) -> (r: u64)
        ensures
            r == old(self).upcoming(),
            final(self).upcoming() == if old(self).upcoming() == u64::MAX {
                0
            } else {
                old(self).upcoming() + 1
            },
    {
        let current = self.next;
        self.next = if current == u64::MAX {
            0
        } else {
            current + 1
        };
        current
    }
}

/// The identifier with the given prefix and number: the two joined by a
/// hyphen.
pub open spec fn request_id_text(prefix: Seq<char>, number: u64) -> Seq<char> {
    prefix + "-"@ + decimal(number as nat)
}

/// Hands out the next request identifier with the given prefix.
pub fn next_request_id(prefix: &str, counter: &mut RequestCounter) -> (r: String)
    ensures
        r@ == request_id_text(prefix@, old(counter).upcoming()),
        final(counter).upcoming() == if old(counter).upcoming() == u64::MAX {
            0
        } else {
            old(counter).upcoming() + 1
        },
{
    let number = counter.take();
    let digits = unsigned_text(number);
    join3(prefix, "-", digits.as_str())
}

/// The fields that an `exec` request for a command under a terminal adds to
/// the declared ones.
pub open spec fn exec_command_extra_of(
    pty: Option<bool>,
    cols: Option<u32>,
    rows: Option<u32>,
    term: Option<Seq<char>>,
    has_stdin: bool,
) -> ObjectModel {
    optional_bool_entry("pty"@, pty) + optional_u32_entry("cols"@, cols) + optional_u32_entry(
        "rows"@,
        rows,
    ) + optional_text_entry("term"@, term) + optional_text_entry(
        "stdinEncoding"@,
        if has_stdin {
            Some("base64"@)
        } else {
            None
        },
    )
}

/// Builds the fields that an `exec` request for a command under a terminal
/// adds to the declared ones; `stdinEncoding` is there where input is sent.
pub fn exec_command_extra(
    pty: Option<bool>,
    cols: Option<u32>,
    rows: Option<u32>,
    term: Option<String>,
    has_stdin: bool,
) -> (r: JsonObject)
    ensures
        r@ == exec_command_extra_of(pty, cols, rows, term.deep_view(), has_stdin),
{
    let mut o = JsonObject::new();
    put_optional_bool(&mut o, "pty", &pty);
    put_optional_u32(&mut o, "cols", &cols);
    put_optional_u32(&mut o, "rows", &rows);
    put_optional_text(&mut o, "term", &term);
    let encoding = if has_stdin {
        Some("base64".to_owned())
    } else {
        None
    };
    put_optional_text(&mut o, "stdinEncoding", &encoding);
    assert(o@ =~= exec_command_extra_of(pty, cols, rows, term.deep_view(), has_stdin));
    o
}

/// The base64 text of optional bytes.
pub open spec fn optional_base64(bytes: Option<Vec<u8>>) -> Option<Seq<char>> {
    match bytes {
        Some(b) => Some(base64_text(b@)),
        None => None,
    }
}

/// The channel of shell input: `stdin` where the caller names none.
pub open spec fn channel_or_stdin(channel: Option<Seq<char>>) -> Seq<char> {
    match channel {
        Some(c) => c,
        None => "stdin"@,
    }
}

/// A client of one gateway.
pub struct GatewayClient {
    pub url: String,
}

impl GatewayClient {
    /// A client of the gateway at the given address.
    pub fn new(url: String) -> (r: GatewayClient)
        ensures
            r.url@ == url@,
    {
        GatewayClient { url }
    }

    /// The address of the gateway.
    pub fn get_url(&self) -> (r: String)
        ensures
            r@ == self.url@,
    {
        self.url.clone()
    }

    /// Hands out the next request identifier, with the prefix `req`.
    pub fn next_request_id(&self, counter: &mut RequestCounter) -> (r: String)
        ensures
            r@ == request_id_text("req"@, old(counter).upcoming()),
            final(counter).upcoming() == if old(counter).upcoming() == u64::MAX {
                0
            } else {
                old(counter).upcoming() + 1
            },
    {
        next_request_id("req", counter)
    }

    /// Builds a `sessions.list` request.
    pub fn sessions_list_request(
        &self,
        request_id: String,
        limit: Option<u32>,
        cursor: Option<String>,
        session_key: Option<String>,
    ) -> (r: Result<String, RequestError>)
        ensures
            r matches Ok(text) && is_request_text(
                text@,
                request_id@,
                "sessions.list"@,
                GatewayRequestParamsModel::SessionsList(
                    SessionsListParamsModel {
                        limit,
                        cursor: cursor.deep_view(),
                        extra: Seq::empty(),
                    },
                ),
                session_key.deep_view(),
            ),
    {
        let params = SessionsListParams { limit, cursor, extra: JsonObject::new() };
        Ok(
            build_request_json(
                request_id,
                "sessions.list",
                GatewayRequestParams::SessionsList(params),
                session_key,
            ),
        )
    }

    /// Builds a `sessions.spawn` request; fails where the metadata is not
    /// JSON or not an object.
    pub fn sessions_spawn_request(
        &self,
        request_id: String,
        parent_session_key: Option<String>,
        label: Option<String>,
        metadata_json: Option<String>,
        session_key: Option<String>,
    ) -> (r: Result<String, RequestError>)
        ensures
            match metadata_of(metadata_json.deep_view()) {
                Ok(metadata) => r matches Ok(text) && is_request_text(
                    text@,
                    request_id@,
                    "sessions.spawn"@,
                    GatewayRequestParamsModel::SessionsSpawn(
                        SessionsSpawnParamsModel {
                            parent_session_key: parent_session_key.deep_view(),
                            label: label.deep_view(),
                            metadata,
                            extra: Seq::empty(),
                        },
                    ),
                    session_key.deep_view(),
                ),
                Err(e) => r matches Err(x) && x == e,
            },
    {
        let metadata = parse_metadata(metadata_json)?;
        let params = SessionsSpawnParams {
            parent_session_key,
            label,
            metadata,
            extra: JsonObject::new(),
        };
        Ok(
            build_request_json(
                request_id,
                "sessions.spawn",
                GatewayRequestParams::SessionsSpawn(params),
                session_key,
            ),
        )
    }

    /// Builds a `sessions.close` request. The metadata asks for the session
    /// to be archived unless the caller's metadata sets `archive` itself.
    pub fn sessions_close_request(
        &self,
        request_id: String,
        session_key: String,
        reason: Option<String>,
        metadata_json: Option<String>,
    ) -> (r: Result<String, RequestError>)
        ensures
            match metadata_of(metadata_json.deep_view()) {
                Ok(metadata) => r matches Ok(text) && is_request_text(
                    text@,
                    request_id@,
                    "sessions.close"@,
                    GatewayRequestParamsModel::SessionsClose(
                        SessionsCloseParamsModel {
                            session_key: session_key@,
                            reason: reason.deep_view(),
                            archive: true,
                            metadata: Some(close_metadata_of(metadata)),
                            extra: Seq::empty(),
                        },
                    ),
                    Some(session_key@),
                ),
                Err(e) => r matches Err(x) && x == e,
            },
    {
        let metadata = close_metadata(parse_metadata(metadata_json)?);
        let params = SessionsCloseParams {
            session_key: session_key.clone(),
            reason,
            archive: true,
            metadata: Some(metadata),
            extra: JsonObject::new(),
        };
        Ok(
            build_request_json(
                request_id,
                "sessions.close",
                GatewayRequestParams::SessionsClose(params),
                Some(session_key),
            ),
        )
    }

    /// Builds a `camera_snap` request: the frame bytes go out as base64
    /// text, gzip-compressed first where asked.
    pub fn camera_snap_request(
        &self,
        request_id: String,
        frame_bytes: Vec<u8>,
        format: Option<String>,
        width: Option<u32>,
        height: Option<u32>,
        timestamp_ms: Option<i64>,
        compress: bool,
        session_key: Option<String>,
    ) -> (r: Result<String, RequestError>)
        requires
            frame_bytes@.len() <= isize::MAX,
        ensures
            match camera_snapshot_of(
                frame_bytes@,
                format.deep_view(),
                width,
                height,
                timestamp_ms,
                compress,
            ) {
                Ok(snapshot) => r matches Ok(text) && is_request_text(
                    text@,
                    request_id@,
                    "camera_snap"@,
                    GatewayRequestParamsModel::CameraSnapshot(snapshot),
                    session_key.deep_view(),
                ),
                Err(e) => r matches Err(x) && x == e,
            },
    {
        let snapshot = encode_camera_snapshot(
            frame_bytes,
            format,
            width,
            height,
            timestamp_ms,
            compress,
        )?;
        Ok(
            build_request_json(
                request_id,
                "camera_snap",
                GatewayRequestParams::CameraSnapshot(snapshot),
                session_key,
            ),
        )
    }

    /// Builds an `exec` request; fails where the environment is not JSON or
    /// not an object.
    pub fn exec_request(
        &self,
        request_id: String,
        command: String,
        args: Vec<String>,
        cwd: Option<String>,
        env_json: Option<String>,
        stdin: Option<String>,
        timeout_ms: Option<u64>,
        stream: Option<bool>,
        exec_id: Option<String>,
        kill_on_drop: Option<bool>,
        session_key: Option<String>,
    ) -> (r: Result<String, RequestError>)
        ensures
            match metadata_of(env_json.deep_view()) {
                Ok(env) => r matches Ok(text) && is_request_text(
                    text@,
                    request_id@,
                    "exec"@,
                    GatewayRequestParamsModel::Exec(
                        ExecParamsModel {
                            command: command@,
                            args: args.deep_view(),
                            cwd: cwd.deep_view(),
                            env,
                            stdin: stdin.deep_view(),
                            timeout_ms,
                            stream,
                            exec_id: exec_id.deep_view(),
                            kill_on_drop,
                            extra: Seq::empty(),
                        },
                    ),
                    session_key.deep_view(),
                ),
                Err(e) => r matches Err(x) && x == e,
            },
    {
        let env = parse_metadata(env_json)?;
        let params = ExecParams {
            command,
            args,
            cwd,
            env,
            stdin,
            timeout_ms,
            stream,
            exec_id,
            kill_on_drop,
            extra: JsonObject::new(),
        };
        Ok(build_request_json(request_id, "exec", GatewayRequestParams::Exec(params), session_key))
    }

    /// Builds the `exec` request of a command whose output is streamed and
    /// whose input is sent as base64 text. Needs a permissions descriptor
    /// that grants shell access, which is checked first.
    pub fn exec_command_request(
        &self,
        request_id: String,
        command: String,
        args: Vec<String>,
        stdin_bytes: Option<Vec<u8>>,
        cwd: Option<String>,
        env_json: Option<String>,
        timeout_ms: Option<u64>,
        exec_id: Option<String>,
        kill_on_drop: Option<bool>,
        pty: Option<bool>,
        cols: Option<u32>,
        rows: Option<u32>,
        term: Option<String>,
        permissions_json: Option<String>,
        session_key: Option<String>,
    ) -> (r: Result<String, RequestError>)
        requires
            stdin_bytes matches Some(bytes) ==> bytes@.len() <= isize::MAX,
        ensures
            !elevated(permissions_json.deep_view()) ==> r == Err::<String, RequestError>(
                RequestError::NotElevated,
            ),
            elevated(permissions_json.deep_view()) ==> match metadata_of(env_json.deep_view()) {
                Ok(env) => r matches Ok(text) && is_request_text(
                    text@,
                    request_id@,
                    "exec"@,
                    GatewayRequestParamsModel::Exec(
                        ExecParamsModel {
                            command: command@,
                            args: args.deep_view(),
                            cwd: cwd.deep_view(),
                            env,
                            stdin: optional_base64(stdin_bytes),
                            timeout_ms,
                            stream: Some(true),
                            exec_id: exec_id.deep_view(),
                            kill_on_drop,
                            extra: exec_command_extra_of(
                                pty,
                                cols,
                                rows,
                                term.deep_view(),
                                stdin_bytes is Some,
                            ),
                        },
                    ),
                    session_key.deep_view(),
                ),
                Err(e) => r matches Err(x) && x == e,
            },
    {
        ensure_elevated_permission(permissions_json)?;
        let env = parse_metadata(env_json)?;
        let stdin = match &stdin_bytes {
            Some(bytes) => Some(base64_encode(bytes.as_slice())),
            None => None,
        };
        let extra = exec_command_extra(pty, cols, rows, term, stdin.is_some());
        let params = ExecParams {
            command,
            args,
            cwd,
            env,
            stdin,
            timeout_ms,
            stream: Some(true),
            exec_id,
            kill_on_drop,
            extra,
        };
        Ok(build_request_json(request_id, "exec", GatewayRequestParams::Exec(params), session_key))
    }

    /// Builds the `streams.open` request of an interactive shell. Needs a
    /// permissions descriptor that grants shell access, which is checked
    /// first.
    pub fn interactive_shell_open_request(
        &self,
        request_id: String,
        cols: Option<u32>,
        rows: Option<u32>,
        term: Option<String>,
        metadata_json: Option<String>,
        permissions_json: Option<String>,
        session_key: Option<String>,
    ) -> (r: Result<String, RequestError>)
        ensures
            !elevated(permissions_json.deep_view()) ==> r == Err::<String, RequestError>(
                RequestError::NotElevated,
            ),
            elevated(permissions_json.deep_view()) ==> match metadata_of(
                metadata_json.deep_view(),
            ) {
                Ok(metadata) => r matches Ok(text) && is_request_text(
                    text@,
                    request_id@,
                    "streams.open"@,
                    GatewayRequestParamsModel::StreamOpen(
                        StreamOpenParamsModel {
                            stream: "interactive_shell"@,
                            term: term.deep_view(),
                            cols,
                            rows,
                            metadata,
                            extra: Seq::empty(),
                        },
                    ),
                    session_key.deep_view(),
                ),
                Err(e) => r matches Err(x) && x == e,
            },
    {
        ensure_elevated_permission(permissions_json)?;
        let metadata = parse_metadata(metadata_json)?;
        let params = StreamOpenParams {
            stream: "interactive_shell".to_owned(),
            term,
            cols,
            rows,
            metadata,
            extra: JsonObject::new(),
        };
        Ok(
            build_request_json(
                request_id,
                "streams.open",
                GatewayRequestParams::StreamOpen(params),
                session_key,
            ),
        )
    }

    /// Builds the `streams.send` request that carries shell input as base64
    /// text, on the channel `stdin` where none is named. Needs a
    /// permissions descriptor that grants shell access.
    pub fn interactive_shell_send_request(
        &self,
        request_id: String,
        stream_id: Option<String>,
        input_bytes: Vec<u8>,
        channel: Option<String>,
        permissions_json: Option<String>,
        session_key: Option<String>,
    ) -> (r: Result<String, RequestError>)
        requires
            input_bytes@.len() <= isize::MAX,
        ensures
            !elevated(permissions_json.deep_view()) ==> r == Err::<String, RequestError>(
                RequestError::NotElevated,
            ),
            elevated(permissions_json.deep_view()) ==> (r matches Ok(text) && is_request_text(
                text@,
                request_id@,
                "streams.send"@,
                GatewayRequestParamsModel::StreamSend(
                    StreamSendParamsModel {
                        stream: "interactive_shell"@,
                        stream_id: stream_id.deep_view(),
                        channel: Some(channel_or_stdin(channel.deep_view())),
                        event: None,
                        data: Some(base64_text(input_bytes@)),
                        encoding: Some("base64"@),
                        cols: None,
                        rows: None,
                        extra: Seq::empty(),
                    },
                ),
                session_key.deep_view(),
            )),
    {
        ensure_elevated_permission(permissions_json)?;
        let data = base64_encode(input_bytes.as_slice());
        let channel = match channel {
            Some(c) => c,
            None => "stdin".to_owned(),
        };
        let params = StreamSendParams {
            stream: "interactive_shell".to_owned(),
            stream_id,
            channel: Some(channel),
            event: None,
            data: Some(data),
            encoding: Some("base64".to_owned()),
            cols: None,
            rows: None,
            extra: JsonObject::new(),
        };
        Ok(
            build_request_json(
                request_id,
                "streams.send",
                GatewayRequestParams::StreamSend(params),
                session_key,
            ),
        )
    }

    /// Builds the `streams.send` request that resizes a shell. Needs a
    /// permissions descriptor that grants shell access.
    pub fn interactive_shell_resize_request(
        &self,
        request_id: String,
        stream_id: Option<String>,
        cols: u32,
        rows: u32,
        permissions_json: Option<String>,
        session_key: Option<String>,
    ) -> (r: Result<String, RequestError>)
        ensures
            !elevated(permissions_json.deep_view()) ==> r == Err::<String, RequestError>(
                RequestError::NotElevated,
            ),
            elevated(permissions_json.deep_view()) ==> (r matches Ok(text) && is_request_text(
                text@,
                request_id@,
                "streams.send"@,
                GatewayRequestParamsModel::StreamSend(
                    StreamSendParamsModel {
                        stream: "interactive_shell"@,
                        stream_id: stream_id.deep_view(),
                        channel: None,
                        event: Some("resize"@),
                        data: None,
                        encoding: None,
                        cols: Some(cols),
                        rows: Some(rows),
                        extra: Seq::empty(),
                    },
                ),
                session_key.deep_view(),
            )),
    {
        ensure_elevated_permission(permissions_json)?;
        let params = StreamSendParams {
            stream: "interactive_shell".to_owned(),
            stream_id,
            channel: None,
            event: Some("resize".to_owned()),
            data: None,
            encoding: None,
            cols: Some(cols),
            rows: Some(rows),
            extra: JsonObject::new(),
        };
        Ok(
            build_request_json(
                request_id,
                "streams.send",
                GatewayRequestParams::StreamSend(params),
                session_key,
            ),
        )
    }

    /// Builds the `streams.close` request of a shell. Needs a permissions
    /// descriptor that grants shell access.
    pub fn interactive_shell_close_request(
        &self,
        request_id: String,
        stream_id: Option<String>,
        reason: Option<String>,
        permissions_json: Option<String>,
        session_key: Option<String>,
    ) -> (r: Result<String, RequestError>)
        ensures
            !elevated(permissions_json.deep_view()) ==> r == Err::<String, RequestError>(
                RequestError::NotElevated,
            ),
            elevated(permissions_json.deep_view()) ==> (r matches Ok(text) && is_request_text(
                text@,
                request_id@,
                "streams.close"@,
                GatewayRequestParamsModel::StreamClose(
                    StreamCloseParamsModel {
                        stream: "interactive_shell"@,
                        stream_id: stream_id.deep_view(),
                        reason: reason.deep_view(),
                        extra: Seq::empty(),
                    },
                ),
                session_key.deep_view(),
            )),
    {
        ensure_elevated_permission(permissions_json)?;
        let params = StreamCloseParams {
            stream: "interactive_shell".to_owned(),
            stream_id,
            reason,
            extra: JsonObject::new(),
        };
        Ok(
            build_request_json(
                request_id,
                "streams.close",
                GatewayRequestParams::StreamClose(params),
                session_key,
            ),
        )
    }

    /// Builds a `logs.subscribe` request; fails where the filters are not
    /// JSON or not an object.
    pub fn logs_subscribe_request(
        &self,
        request_id: String,
        level: Option<String>,
        tail: Option<u32>,
        since: Option<i64>,
        include_internal: Option<bool>,
        filters_json: Option<String>,
        session_key: Option<String>,
    ) -> (r: Result<String, RequestError>)
        ensures
            match metadata_of(filters_json.deep_view()) {
                Ok(filters) => r matches Ok(text) && is_request_text(
                    text@,
                    request_id@,
                    "logs.subscribe"@,
                    GatewayRequestParamsModel::LogsSubscribe(
                        LogsSubscribeParamsModel {
                            level: level.deep_view(),
                            tail,
                            since,
                            include_internal,
                            filters,
                            extra: Seq::empty(),
                        },
                    ),
                    session_key.deep_view(),
                ),
                Err(e) => r matches Err(x) && x == e,
            },
    {
        let filters = parse_metadata(filters_json)?;
        let params = LogsSubscribeParams {
            level,
            tail,
            since,
            include_internal,
            filters,
            extra: JsonObject::new(),
        };
        Ok(
            build_request_json(
                request_id,
                "logs.subscribe",
                GatewayRequestParams::LogsSubscribe(params),
                session_key,
            ),
        )
    }

    /// Builds a `logs.unsubscribe` request.
    pub fn logs_unsubscribe_request(
        &self,
        request_id: String,
        subscription_id: Option<String>,
        session_key: Option<String>,
    ) -> (r: Result<String, RequestError>)
        ensures
            r matches Ok(text) && is_request_text(
                text@,
                request_id@,
                "logs.unsubscribe"@,
                GatewayRequestParamsModel::LogsUnsubscribe(
                    LogsUnsubscribeParamsModel {
                        subscription_id: subscription_id.deep_view(),
                        extra: Seq::empty(),
                    },
                ),
                session_key.deep_view(),
            ),
    {
        let params = LogsUnsubscribeParams { subscription_id, extra: JsonObject::new() };
        Ok(
            build_request_json(
                request_id,
                "logs.unsubscribe",
                GatewayRequestParams::LogsUnsubscribe(params),
                session_key,
            ),
        )
    }

    /// Builds a `system.probe` request.
    pub fn system_probe_request(
        &self,
        request_id: String,
        network: Option<bool>,
        disk: Option<bool>,
        gateway: Option<bool>,
        session_key: Option<String>,
    ) -> (r: Result<String, RequestError>)
        ensures
            r matches Ok(text) && is_request_text(
                text@,
                request_id@,
                "system.probe"@,
                GatewayRequestParamsModel::SystemProbe(
                    SystemProbeParamsModel { network, disk, gateway, extra: Seq::empty() },
                ),
                session_key.deep_view(),
            ),
    {
        let params = SystemProbeParams { network, disk, gateway, extra: JsonObject::new() };
        Ok(
            build_request_json(
                request_id,
                "system.probe",
                GatewayRequestParams::SystemProbe(params),
                session_key,
            ),
        )
    }

    /// Builds an `agent` request.
    pub fn agent_turn_request(
        &self,
        request_id: String,
        message: String,
        model: Option<String>,
        thinking: Option<String>,
        timeout_seconds: Option<u64>,
        session_key: Option<String>,
    ) -> (r: Result<String, RequestError>)
        ensures
            r matches Ok(text) && is_request_text(
                text@,
                request_id@,
                "agent"@,
                GatewayRequestParamsModel::AgentTurn(
                    AgentTurnModel {
                        message: message@,
                        model: model.deep_view(),
                        thinking: thinking.deep_view(),
                        timeout_seconds,
                        extra: Seq::empty(),
                    },
                ),
                session_key.deep_view(),
            ),
    {
        let params = AgentTurn {
            message,
            model,
            thinking,
            timeout_seconds,
            extra: JsonObject::new(),
        };
        Ok(
            build_request_json(
                request_id,
                "agent",
                GatewayRequestParams::AgentTurn(params),
                session_key,
            ),
        )
    }

    /// Builds a `system-event` request; the session key stands in the
    /// parameters and on the envelope.
    pub fn system_event_request(
        &self,
        request_id: String,
        text: Option<String>,
        mode: Option<String>,
        session_key: Option<String>,
    ) -> (r: Result<String, RequestError>)
        ensures
            r matches Ok(out) && is_request_text(
                out@,
                request_id@,
                "system-event"@,
                GatewayRequestParamsModel::SystemEvent(
                    SystemEventModel {
                        text: text.deep_view(),
                        session_key: session_key.deep_view(),
                        mode: mode.deep_view(),
                        extra: Seq::empty(),
                    },
                ),
                session_key.deep_view(),
            ),
    {
        let params = SystemEvent {
            text,
            session_key: clone_opt_text(&session_key),
            mode,
            extra: JsonObject::new(),
        };
        Ok(
            build_request_json(
                request_id,
                "system-event",
                GatewayRequestParams::SystemEvent(params),
                session_key,
            ),
        )
    }
}

} // verus!
