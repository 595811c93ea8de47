//! The payloads of the three kinds of frame: a closed set of typed shapes
//! each, and a fallback that keeps any other document as it came.

use crate::api::events::connect::{
    ConnectChallenge, ConnectChallengeModel, ConnectParams, ConnectParamsModel, HelloOk,
    HelloOkModel,
};
use crate::api::events::media::{MediaEvent, MediaEventModel};
use crate::api::events::notices::{
    ExecOutput, ExecOutputModel, LogsEvent, LogsEventModel, PresenceEvent, PresenceEventModel,
    ShutdownEvent, ShutdownEventModel, StreamClosedEvent, StreamClosedEventModel, StreamDataEvent,
    StreamDataEventModel,
};
use crate::api::events::requests::{
    AgentTurn, AgentTurnModel, CameraSnapshot, CameraSnapshotModel, ExecParams, ExecParamsModel,
    LogsSubscribeParams, LogsSubscribeParamsModel, LogsUnsubscribeParams,
    LogsUnsubscribeParamsModel, SessionsCloseParams, SessionsCloseParamsModel, SessionsListParams,
    SessionsListParamsModel, SessionsSpawnParams, SessionsSpawnParamsModel, StreamCloseParams,
    StreamCloseParamsModel, StreamOpenParams, StreamOpenParamsModel, StreamSendParams,
    StreamSendParamsModel, SystemEvent, SystemEventModel, SystemProbeParams, SystemProbeParamsModel,
};
use crate::api::events::responses::{SystemProbeResult, SystemProbeResultModel};
use crate::json::{JsonModel, JsonValue};
use crate::text::text_eq;
use vstd::prelude::*;

verus! {

/// The payload shapes of requests.
#[derive(Clone, Copy, Debug, PartialEq, Eq, Structural)]
pub enum RequestKind {
    AgentTurn,
    SystemEvent,
    Connect,
    CameraSnapshot,
    SessionsList,
    SessionsSpawn,
    SessionsClose,
    StreamOpen,
    StreamSend,
    StreamClose,
    Exec,
    LogsSubscribe,
    LogsUnsubscribe,
    SystemProbe,
}

/// The parameters of a request.
#[derive(Debug, PartialEq, Eq)]
pub enum GatewayRequestParams {
    AgentTurn(AgentTurn),
    SystemEvent(SystemEvent),
    Connect(ConnectParams),
    CameraSnapshot(CameraSnapshot),
    SessionsList(SessionsListParams),
    SessionsSpawn(SessionsSpawnParams),
    SessionsClose(SessionsCloseParams),
    StreamOpen(StreamOpenParams),
    StreamSend(StreamSendParams),
    StreamClose(StreamCloseParams),
    Exec(ExecParams),
    LogsSubscribe(LogsSubscribeParams),
    LogsUnsubscribe(LogsUnsubscribeParams),
    SystemProbe(SystemProbeParams),
    /// Any other payload, kept as it came.
    Unknown(JsonValue),
}

/// The model of [`GatewayRequestParams`].
pub enum GatewayRequestParamsModel {
    AgentTurn(AgentTurnModel),
    SystemEvent(SystemEventModel),
    Connect(ConnectParamsModel),
    CameraSnapshot(CameraSnapshotModel),
    SessionsList(SessionsListParamsModel),
    SessionsSpawn(SessionsSpawnParamsModel),
    SessionsClose(SessionsCloseParamsModel),
    StreamOpen(StreamOpenParamsModel),
    StreamSend(StreamSendParamsModel),
    StreamClose(StreamCloseParamsModel),
    Exec(ExecParamsModel),
    LogsSubscribe(LogsSubscribeParamsModel),
    LogsUnsubscribe(LogsUnsubscribeParamsModel),
    SystemProbe(SystemProbeParamsModel),
    Unknown(JsonModel),
}

impl DeepView for GatewayRequestParams {
    type V = GatewayRequestParamsModel;

    open spec fn deep_view(&self) -> GatewayRequestParamsModel {
        match self {
            GatewayRequestParams::AgentTurn(p) => GatewayRequestParamsModel::AgentTurn(
                p.deep_view(),
            ),
            GatewayRequestParams::SystemEvent(p) => GatewayRequestParamsModel::SystemEvent(
                p.deep_view(),
            ),
            GatewayRequestParams::Connect(p) => GatewayRequestParamsModel::Connect(p.deep_view()),
            GatewayRequestParams::CameraSnapshot(p) => GatewayRequestParamsModel::CameraSnapshot(
                p.deep_view(),
            ),
            GatewayRequestParams::SessionsList(p) => GatewayRequestParamsModel::SessionsList(
                p.deep_view(),
            ),
            GatewayRequestParams::SessionsSpawn(p) => GatewayRequestParamsModel::SessionsSpawn(
                p.deep_view(),
            ),
            GatewayRequestParams::SessionsClose(p) => GatewayRequestParamsModel::SessionsClose(
                p.deep_view(),
            ),
            GatewayRequestParams::StreamOpen(p) => GatewayRequestParamsModel::StreamOpen(
                p.deep_view(),
            ),
            GatewayRequestParams::StreamSend(p) => GatewayRequestParamsModel::StreamSend(
                p.deep_view(),
            ),
            GatewayRequestParams::StreamClose(p) => GatewayRequestParamsModel::StreamClose(
                p.deep_view(),
            ),
            GatewayRequestParams::Exec(p) => GatewayRequestParamsModel::Exec(p.deep_view()),
            GatewayRequestParams::LogsSubscribe(p) => GatewayRequestParamsModel::LogsSubscribe(
                p.deep_view(),
            ),
            GatewayRequestParams::LogsUnsubscribe(p) => GatewayRequestParamsModel::LogsUnsubscribe(
                p.deep_view(),
            ),
            GatewayRequestParams::SystemProbe(p) => GatewayRequestParamsModel::SystemProbe(
                p.deep_view(),
            ),
            GatewayRequestParams::Unknown(v) => GatewayRequestParamsModel::Unknown(v@),
        }
    }
}

/// The payload shape that a request method selects, if any. Two spellings of one
/// method select the same shape.
pub open spec fn request_kind(method: Seq<char>) -> Option<RequestKind> {
    if method == "agent"@ {
        Some(RequestKind::AgentTurn)
    } else if method == "system-event"@ {
        Some(RequestKind::SystemEvent)
    } else if method == "connect"@ {
        Some(RequestKind::Connect)
    } else if method == "camera_snap"@ {
        Some(RequestKind::CameraSnapshot)
    } else if method == "sessions.list"@ {
        Some(RequestKind::SessionsList)
    } else if method == "sessions.spawn"@ {
        Some(RequestKind::SessionsSpawn)
    } else if method == "sessions.close"@ {
        Some(RequestKind::SessionsClose)
    } else if method == "streams.open"@ || method == "stream.open"@ {
        Some(RequestKind::StreamOpen)
    } else if method == "streams.send"@ || method == "stream.send"@ {
        Some(RequestKind::StreamSend)
    } else if method == "streams.close"@ || method == "stream.close"@ {
        Some(RequestKind::StreamClose)
    } else if method == "exec"@ {
        Some(RequestKind::Exec)
    } else if method == "logs.subscribe"@ || method == "logs_subscribe"@ {
        Some(RequestKind::LogsSubscribe)
    } else if method == "logs.unsubscribe"@ || method == "logs_unsubscribe"@ {
        Some(RequestKind::LogsUnsubscribe)
    } else if method == "system.probe"@ || method == "system_probe"@ {
        Some(RequestKind::SystemProbe)
    } else {
        None
    }
}

/// Selects the payload shape for a request method.
pub fn resolve_request_kind(method: &str) -> (r: Option<RequestKind>)
    ensures
        r == request_kind(method@),
{
    if text_eq(method, "agent") {
        Some(RequestKind::AgentTurn)
    } else if text_eq(method, "system-event") {
        Some(RequestKind::SystemEvent)
    } else if text_eq(method, "connect") {
        Some(RequestKind::Connect)
    } else if text_eq(method, "camera_snap") {
        Some(RequestKind::CameraSnapshot)
    } else if text_eq(method, "sessions.list") {
        Some(RequestKind::SessionsList)
    } else if text_eq(method, "sessions.spawn") {
        Some(RequestKind::SessionsSpawn)
    } else if text_eq(method, "sessions.close") {
        Some(RequestKind::SessionsClose)
    } else if text_eq(method, "streams.open") || text_eq(method, "stream.open") {
        Some(RequestKind::StreamOpen)
    } else if text_eq(method, "streams.send") || text_eq(method, "stream.send") {
        Some(RequestKind::StreamSend)
    } else if text_eq(method, "streams.close") || text_eq(method, "stream.close") {
        Some(RequestKind::StreamClose)
    } else if text_eq(method, "exec") {
        Some(RequestKind::Exec)
    } else if text_eq(method, "logs.subscribe") || text_eq(method, "logs_subscribe") {
        Some(RequestKind::LogsSubscribe)
    } else if text_eq(method, "logs.unsubscribe") || text_eq(method, "logs_unsubscribe") {
        Some(RequestKind::LogsUnsubscribe)
    } else if text_eq(method, "system.probe") || text_eq(method, "system_probe") {
        Some(RequestKind::SystemProbe)
    } else {
        None
    }
}

impl GatewayRequestParamsModel {
    /// The payload of a document read as the given shape: the typed payload
    /// where the document decodes as that shape, else the document itself.
    pub open spec fn of_kind(kind: Option<RequestKind>, m: JsonModel) -> GatewayRequestParamsModel {
        match kind {
            Some(RequestKind::AgentTurn) => match AgentTurnModel::decoded(m) {
                Some(p) => GatewayRequestParamsModel::AgentTurn(p),
                None => GatewayRequestParamsModel::Unknown(m),
            },
            Some(RequestKind::SystemEvent) => match SystemEventModel::decoded(m) {
                Some(p) => GatewayRequestParamsModel::SystemEvent(p),
                None => GatewayRequestParamsModel::Unknown(m),
            },
            Some(RequestKind::Connect) => match ConnectParamsModel::decoded(m) {
                Some(p) => GatewayRequestParamsModel::Connect(p),
                None => GatewayRequestParamsModel::Unknown(m),
            },
            Some(RequestKind::CameraSnapshot) => match CameraSnapshotModel::decoded(m) {
                Some(p) => GatewayRequestParamsModel::CameraSnapshot(p),
                None => GatewayRequestParamsModel::Unknown(m),
            },
            Some(RequestKind::SessionsList) => match SessionsListParamsModel::decoded(m) {
                Some(p) => GatewayRequestParamsModel::SessionsList(p),
                None => GatewayRequestParamsModel::Unknown(m),
            },
            Some(RequestKind::SessionsSpawn) => match SessionsSpawnParamsModel::decoded(m) {
                Some(p) => GatewayRequestParamsModel::SessionsSpawn(p),
                None => GatewayRequestParamsModel::Unknown(m),
            },
            Some(RequestKind::SessionsClose) => match SessionsCloseParamsModel::decoded(m) {
                Some(p) => GatewayRequestParamsModel::SessionsClose(p),
                None => GatewayRequestParamsModel::Unknown(m),
            },
            Some(RequestKind::StreamOpen) => match StreamOpenParamsModel::decoded(m) {
                Some(p) => GatewayRequestParamsModel::StreamOpen(p),
                None => GatewayRequestParamsModel::Unknown(m),
            },
            Some(RequestKind::StreamSend) => match StreamSendParamsModel::decoded(m) {
                Some(p) => GatewayRequestParamsModel::StreamSend(p),
                None => GatewayRequestParamsModel::Unknown(m),
            },
            Some(RequestKind::StreamClose) => match StreamCloseParamsModel::decoded(m) {
                Some(p) => GatewayRequestParamsModel::StreamClose(p),
                None => GatewayRequestParamsModel::Unknown(m),
            },
            Some(RequestKind::Exec) => match ExecParamsModel::decoded(m) {
                Some(p) => GatewayRequestParamsModel::Exec(p),
                None => GatewayRequestParamsModel::Unknown(m),
            },
            Some(RequestKind::LogsSubscribe) => match LogsSubscribeParamsModel::decoded(m) {
                Some(p) => GatewayRequestParamsModel::LogsSubscribe(p),
                None => GatewayRequestParamsModel::Unknown(m),
            },
            Some(RequestKind::LogsUnsubscribe) => match LogsUnsubscribeParamsModel::decoded(m) {
                Some(p) => GatewayRequestParamsModel::LogsUnsubscribe(p),
                None => GatewayRequestParamsModel::Unknown(m),
            },
            Some(RequestKind::SystemProbe) => match SystemProbeParamsModel::decoded(m) {
                Some(p) => GatewayRequestParamsModel::SystemProbe(p),
                None => GatewayRequestParamsModel::Unknown(m),
            },
            None => GatewayRequestParamsModel::Unknown(m),
        }
    }

    /// The document that a payload is written as; an unknown payload is
    /// written as the document it holds.
    pub open spec fn encoded(self) -> JsonModel {
        match self {
            GatewayRequestParamsModel::AgentTurn(p) => p.encoded(),
            GatewayRequestParamsModel::SystemEvent(p) => p.encoded(),
            GatewayRequestParamsModel::Connect(p) => p.encoded(),
            GatewayRequestParamsModel::CameraSnapshot(p) => p.encoded(),
            GatewayRequestParamsModel::SessionsList(p) => p.encoded(),
            GatewayRequestParamsModel::SessionsSpawn(p) => p.encoded(),
            GatewayRequestParamsModel::SessionsClose(p) => p.encoded(),
            GatewayRequestParamsModel::StreamOpen(p) => p.encoded(),
            GatewayRequestParamsModel::StreamSend(p) => p.encoded(),
            GatewayRequestParamsModel::StreamClose(p) => p.encoded(),
            GatewayRequestParamsModel::Exec(p) => p.encoded(),
            GatewayRequestParamsModel::LogsSubscribe(p) => p.encoded(),
            GatewayRequestParamsModel::LogsUnsubscribe(p) => p.encoded(),
            GatewayRequestParamsModel::SystemProbe(p) => p.encoded(),
            GatewayRequestParamsModel::Unknown(m) => m,
        }
    }
}

impl GatewayRequestParams {
    /// Reads a document as the given shape, and keeps it as it came where
    /// it does not decode as that shape or no shape is given.
    pub fn of_kind(kind: Option<RequestKind>, value: JsonValue) -> (r: GatewayRequestParams)
        ensures
            r.deep_view() == GatewayRequestParamsModel::of_kind(kind, value@),
    {
        match kind {
            Some(RequestKind::AgentTurn) => match AgentTurn::decode(&value) {
                Some(p) => GatewayRequestParams::AgentTurn(p),
                None => GatewayRequestParams::Unknown(value),
            },
            Some(RequestKind::SystemEvent) => match SystemEvent::decode(&value) {
                Some(p) => GatewayRequestParams::SystemEvent(p),
                None => GatewayRequestParams::Unknown(value),
            },
            Some(RequestKind::Connect) => match ConnectParams::decode(&value) {
                Some(p) => GatewayRequestParams::Connect(p),
                None => GatewayRequestParams::Unknown(value),
            },
            Some(RequestKind::CameraSnapshot) => match CameraSnapshot::decode(&value) {
                Some(p) => GatewayRequestParams::CameraSnapshot(p),
                None => GatewayRequestParams::Unknown(value),
            },
            Some(RequestKind::SessionsList) => match SessionsListParams::decode(&value) {
                Some(p) => GatewayRequestParams::SessionsList(p),
                None => GatewayRequestParams::Unknown(value),
            },
            Some(RequestKind::SessionsSpawn) => match SessionsSpawnParams::decode(&value) {
                Some(p) => GatewayRequestParams::SessionsSpawn(p),
                None => GatewayRequestParams::Unknown(value),
            },
            Some(RequestKind::SessionsClose) => match SessionsCloseParams::decode(&value) {
                Some(p) => GatewayRequestParams::SessionsClose(p),
                None => GatewayRequestParams::Unknown(value),
            },
            Some(RequestKind::StreamOpen) => match StreamOpenParams::decode(&value) {
                Some(p) => GatewayRequestParams::StreamOpen(p),
                None => GatewayRequestParams::Unknown(value),
            },
            Some(RequestKind::StreamSend) => match StreamSendParams::decode(&value) {
                Some(p) => GatewayRequestParams::StreamSend(p),
                None => GatewayRequestParams::Unknown(value),
            },
            Some(RequestKind::StreamClose) => match StreamCloseParams::decode(&value) {
                Some(p) => GatewayRequestParams::StreamClose(p),
                None => GatewayRequestParams::Unknown(value),
            },
            Some(RequestKind::Exec) => match ExecParams::decode(&value) {
                Some(p) => GatewayRequestParams::Exec(p),
                None => GatewayRequestParams::Unknown(value),
            },
            Some(RequestKind::LogsSubscribe) => match LogsSubscribeParams::decode(&value) {
                Some(p) => GatewayRequestParams::LogsSubscribe(p),
                None => GatewayRequestParams::Unknown(value),
            },
            Some(RequestKind::LogsUnsubscribe) => match LogsUnsubscribeParams::decode(&value) {
                Some(p) => GatewayRequestParams::LogsUnsubscribe(p),
                None => GatewayRequestParams::Unknown(value),
            },
            Some(RequestKind::SystemProbe) => match SystemProbeParams::decode(&value) {
                Some(p) => GatewayRequestParams::SystemProbe(p),
                None => GatewayRequestParams::Unknown(value),
            },
            None => GatewayRequestParams::Unknown(value),
        }
    }

    /// Encodes the payload as a document.
    pub fn encode(&self) -> (r: JsonValue)
        ensures
            r@ == self.deep_view().encoded(),
    {
        match self {
            GatewayRequestParams::AgentTurn(p) => p.encode(),
            GatewayRequestParams::SystemEvent(p) => p.encode(),
            GatewayRequestParams::Connect(p) => p.encode(),
            GatewayRequestParams::CameraSnapshot(p) => p.encode(),
            GatewayRequestParams::SessionsList(p) => p.encode(),
            GatewayRequestParams::SessionsSpawn(p) => p.encode(),
            GatewayRequestParams::SessionsClose(p) => p.encode(),
            GatewayRequestParams::StreamOpen(p) => p.encode(),
            GatewayRequestParams::StreamSend(p) => p.encode(),
            GatewayRequestParams::StreamClose(p) => p.encode(),
            GatewayRequestParams::Exec(p) => p.encode(),
            GatewayRequestParams::LogsSubscribe(p) => p.encode(),
            GatewayRequestParams::LogsUnsubscribe(p) => p.encode(),
            GatewayRequestParams::SystemProbe(p) => p.encode(),
            GatewayRequestParams::Unknown(v) => v.clone(),
        }
    }
}

/// The payload shapes of events.
#[derive(Clone, Copy, Debug, PartialEq, Eq, Structural)]
pub enum EventKind {
    ConnectChallenge,
    Presence,
    Shutdown,
    Media,
    ExecOutput,
    Logs,
    StreamData,
    StreamClosed,
}

/// The payload of an event.
#[derive(Debug, PartialEq, Eq)]
pub enum GatewayEventPayload {
    ConnectChallenge(ConnectChallenge),
    Presence(PresenceEvent),
    Shutdown(ShutdownEvent),
    Media(MediaEvent),
    ExecOutput(ExecOutput),
    Logs(LogsEvent),
    StreamData(StreamDataEvent),
    StreamClosed(StreamClosedEvent),
    /// Any other payload, kept as it came.
    Unknown(JsonValue),
}

/// The model of [`GatewayEventPayload`].
pub enum GatewayEventPayloadModel {
    ConnectChallenge(ConnectChallengeModel),
    Presence(PresenceEventModel),
    Shutdown(ShutdownEventModel),
    Media(MediaEventModel),
    ExecOutput(ExecOutputModel),
    Logs(LogsEventModel),
    StreamData(StreamDataEventModel),
    StreamClosed(StreamClosedEventModel),
    Unknown(JsonModel),
}

impl DeepView for GatewayEventPayload {
    type V = GatewayEventPayloadModel;

    open spec fn deep_view(&self) -> GatewayEventPayloadModel {
        match self {
            GatewayEventPayload::ConnectChallenge(p) => GatewayEventPayloadModel::ConnectChallenge(
                p.deep_view(),
            ),
            GatewayEventPayload::Presence(p) => GatewayEventPayloadModel::Presence(p.deep_view()),
            GatewayEventPayload::Shutdown(p) => GatewayEventPayloadModel::Shutdown(p.deep_view()),
            GatewayEventPayload::Media(p) => GatewayEventPayloadModel::Media(p.deep_view()),
            GatewayEventPayload::ExecOutput(p) => GatewayEventPayloadModel::ExecOutput(
                p.deep_view(),
            ),
            GatewayEventPayload::Logs(p) => GatewayEventPayloadModel::Logs(p.deep_view()),
            GatewayEventPayload::StreamData(p) => GatewayEventPayloadModel::StreamData(
                p.deep_view(),
            ),
            GatewayEventPayload::StreamClosed(p) => GatewayEventPayloadModel::StreamClosed(
                p.deep_view(),
            ),
            GatewayEventPayload::Unknown(v) => GatewayEventPayloadModel::Unknown(v@),
        }
    }
}

/// The payload shape that an event name selects, if any. Two spellings of one
/// event select the same shape.
pub open spec fn event_kind(event: Seq<char>) -> Option<EventKind> {
    if event == "connect.challenge"@ {
        Some(EventKind::ConnectChallenge)
    } else if event == "presence"@ {
        Some(EventKind::Presence)
    } else if event == "shutdown"@ {
        Some(EventKind::Shutdown)
    } else if event == "media"@ {
        Some(EventKind::Media)
    } else if event == "exec.output"@ || event == "exec.stream"@ {
        Some(EventKind::ExecOutput)
    } else if event == "logs"@ || event == "logs.entry"@ || event == "logs.entries"@ {
        Some(EventKind::Logs)
    } else if event == "stream.data"@ || event == "streams.data"@ {
        Some(EventKind::StreamData)
    } else if event == "stream.closed"@ || event == "streams.closed"@ {
        Some(EventKind::StreamClosed)
    } else {
        None
    }
}

/// Selects the payload shape for an event name.
pub fn resolve_event_kind(event: &str) -> (r: Option<EventKind>)
    ensures
        r == event_kind(event@),
{
    if text_eq(event, "connect.challenge") {
        Some(EventKind::ConnectChallenge)
    } else if text_eq(event, "presence") {
        Some(EventKind::Presence)
    } else if text_eq(event, "shutdown") {
        Some(EventKind::Shutdown)
    } else if text_eq(event, "media") {
        Some(EventKind::Media)
    } else if text_eq(event, "exec.output") || text_eq(event, "exec.stream") {
        Some(EventKind::ExecOutput)
    } else if text_eq(event, "logs")
        || text_eq(event, "logs.entry")
        || text_eq(event, "logs.entries") {
        Some(EventKind::Logs)
    } else if text_eq(event, "stream.data") || text_eq(event, "streams.data") {
        Some(EventKind::StreamData)
    } else if text_eq(event, "stream.closed") || text_eq(event, "streams.closed") {
        Some(EventKind::StreamClosed)
    } else {
        None
    }
}

impl GatewayEventPayloadModel {
    /// The payload of a document read as the given shape: the typed payload
    /// where the document decodes as that shape, else the document itself.
    pub open spec fn of_kind(kind: Option<EventKind>, m: JsonModel) -> GatewayEventPayloadModel {
        match kind {
            Some(EventKind::ConnectChallenge) => match ConnectChallengeModel::decoded(m) {
                Some(p) => GatewayEventPayloadModel::ConnectChallenge(p),
                None => GatewayEventPayloadModel::Unknown(m),
            },
            Some(EventKind::Presence) => match PresenceEventModel::decoded(m) {
                Some(p) => GatewayEventPayloadModel::Presence(p),
                None => GatewayEventPayloadModel::Unknown(m),
            },
            Some(EventKind::Shutdown) => match ShutdownEventModel::decoded(m) {
                Some(p) => GatewayEventPayloadModel::Shutdown(p),
                None => GatewayEventPayloadModel::Unknown(m),
            },
            Some(EventKind::Media) => match MediaEventModel::decoded(m) {
                Some(p) => GatewayEventPayloadModel::Media(p),
                None => GatewayEventPayloadModel::Unknown(m),
            },
            Some(EventKind::ExecOutput) => match ExecOutputModel::decoded(m) {
                Some(p) => GatewayEventPayloadModel::ExecOutput(p),
                None => GatewayEventPayloadModel::Unknown(m),
            },
            Some(EventKind::Logs) => match LogsEventModel::decoded(m) {
                Some(p) => GatewayEventPayloadModel::Logs(p),
                None => GatewayEventPayloadModel::Unknown(m),
            },
            Some(EventKind::StreamData) => match StreamDataEventModel::decoded(m) {
                Some(p) => GatewayEventPayloadModel::StreamData(p),
                None => GatewayEventPayloadModel::Unknown(m),
            },
            Some(EventKind::StreamClosed) => match StreamClosedEventModel::decoded(m) {
                Some(p) => GatewayEventPayloadModel::StreamClosed(p),
                None => GatewayEventPayloadModel::Unknown(m),
            },
            None => GatewayEventPayloadModel::Unknown(m),
        }
    }

    /// The document that a payload is written as; an unknown payload is
    /// written as the document it holds.
    pub open spec fn encoded(self) -> JsonModel {
        match self {
            GatewayEventPayloadModel::ConnectChallenge(p) => p.encoded(),
            GatewayEventPayloadModel::Presence(p) => p.encoded(),
            GatewayEventPayloadModel::Shutdown(p) => p.encoded(),
            GatewayEventPayloadModel::Media(p) => p.encoded(),
            GatewayEventPayloadModel::ExecOutput(p) => p.encoded(),
            GatewayEventPayloadModel::Logs(p) => p.encoded(),
            GatewayEventPayloadModel::StreamData(p) => p.encoded(),
            GatewayEventPayloadModel::StreamClosed(p) => p.encoded(),
            GatewayEventPayloadModel::Unknown(m) => m,
        }
    }
}

impl GatewayEventPayload {
    /// Reads a document as the given shape, and keeps it as it came where
    /// it does not decode as that shape or no shape is given.
    pub fn of_kind(kind: Option<EventKind>, value: JsonValue) -> (r: GatewayEventPayload)
        ensures
            r.deep_view() == GatewayEventPayloadModel::of_kind(kind, value@),
    {
        match kind {
            Some(EventKind::ConnectChallenge) => match ConnectChallenge::decode(&value) {
                Some(p) => GatewayEventPayload::ConnectChallenge(p),
                None => GatewayEventPayload::Unknown(value),
            },
            Some(EventKind::Presence) => match PresenceEvent::decode(&value) {
                Some(p) => GatewayEventPayload::Presence(p),
                None => GatewayEventPayload::Unknown(value),
            },
            Some(EventKind::Shutdown) => match ShutdownEvent::decode(&value) {
                Some(p) => GatewayEventPayload::Shutdown(p),
                None => GatewayEventPayload::Unknown(value),
            },
            Some(EventKind::Media) => match MediaEvent::decode(&value) {
                Some(p) => GatewayEventPayload::Media(p),
                None => GatewayEventPayload::Unknown(value),
            },
            Some(EventKind::ExecOutput) => match ExecOutput::decode(&value) {
                Some(p) => GatewayEventPayload::ExecOutput(p),
                None => GatewayEventPayload::Unknown(value),
            },
            Some(EventKind::Logs) => match LogsEvent::decode(&value) {
                Some(p) => GatewayEventPayload::Logs(p),
                None => GatewayEventPayload::Unknown(value),
            },
            Some(EventKind::StreamData) => match StreamDataEvent::decode(&value) {
                Some(p) => GatewayEventPayload::StreamData(p),
                None => GatewayEventPayload::Unknown(value),
            },
            Some(EventKind::StreamClosed) => match StreamClosedEvent::decode(&value) {
                Some(p) => GatewayEventPayload::StreamClosed(p),
                None => GatewayEventPayload::Unknown(value),
            },
            None => GatewayEventPayload::Unknown(value),
        }
    }

    /// Encodes the payload as a document.
    pub fn encode(&self) -> (r: JsonValue)
        ensures
            r@ == self.deep_view().encoded(),
    {
        match self {
            GatewayEventPayload::ConnectChallenge(p) => p.encode(),
            GatewayEventPayload::Presence(p) => p.encode(),
            GatewayEventPayload::Shutdown(p) => p.encode(),
            GatewayEventPayload::Media(p) => p.encode(),
            GatewayEventPayload::ExecOutput(p) => p.encode(),
            GatewayEventPayload::Logs(p) => p.encode(),
            GatewayEventPayload::StreamData(p) => p.encode(),
            GatewayEventPayload::StreamClosed(p) => p.encode(),
            GatewayEventPayload::Unknown(v) => v.clone(),
        }
    }
}

/// The payload shapes of responses.
#[derive(Clone, Copy, Debug, PartialEq, Eq, Structural)]
pub enum ResponseKind {
    HelloOk,
    ExecResult,
    SystemProbe,
}

/// The payload of a response.
#[derive(Debug, PartialEq, Eq)]
pub enum GatewayResponsePayload {
    HelloOk(HelloOk),
    ExecResult(ExecOutput),
    SystemProbe(SystemProbeResult),
    /// Any other payload, kept as it came.
    Unknown(JsonValue),
}

/// The model of [`GatewayResponsePayload`].
pub enum GatewayResponsePayloadModel {
    HelloOk(HelloOkModel),
    ExecResult(ExecOutputModel),
    SystemProbe(SystemProbeResultModel),
    Unknown(JsonModel),
}

impl DeepView for GatewayResponsePayload {
    type V = GatewayResponsePayloadModel;

    open spec fn deep_view(&self) -> GatewayResponsePayloadModel {
        match self {
            GatewayResponsePayload::HelloOk(p) => GatewayResponsePayloadModel::HelloOk(
                p.deep_view(),
            ),
            GatewayResponsePayload::ExecResult(p) => GatewayResponsePayloadModel::ExecResult(
                p.deep_view(),
            ),
            GatewayResponsePayload::SystemProbe(p) => GatewayResponsePayloadModel::SystemProbe(
                p.deep_view(),
            ),
            GatewayResponsePayload::Unknown(v) => GatewayResponsePayloadModel::Unknown(v@),
        }
    }
}

/// The payload shape that the `type` field of a response payload selects, if
/// any. Two spellings of one
/// tag select the same shape.
pub open spec fn response_kind(tag: Seq<char>) -> Option<ResponseKind> {
    if tag == "hello-ok"@ {
        Some(ResponseKind::HelloOk)
    } else if tag == "exec-result"@ {
        Some(ResponseKind::ExecResult)
    } else if tag == "system-probe"@ {
        Some(ResponseKind::SystemProbe)
    } else {
        None
    }
}

/// Selects the payload shape for the `type` field of a response payload.
pub fn resolve_response_kind(tag: &str) -> (r: Option<ResponseKind>)
    ensures
        r == response_kind(tag@),
{
    if text_eq(tag, "hello-ok") {
        Some(ResponseKind::HelloOk)
    } else if text_eq(tag, "exec-result") {
        Some(ResponseKind::ExecResult)
    } else if text_eq(tag, "system-probe") {
        Some(ResponseKind::SystemProbe)
    } else {
        None
    }
}

impl GatewayResponsePayloadModel {
    /// The payload of a document read as the given shape: the typed payload
    /// where the document decodes as that shape, else the document itself.
    pub open spec fn of_kind(
        kind: Option<ResponseKind>,
        m: JsonModel,
    ) -> GatewayResponsePayloadModel {
        match kind {
            Some(ResponseKind::HelloOk) => match HelloOkModel::decoded(m) {
                Some(p) => GatewayResponsePayloadModel::HelloOk(p),
                None => GatewayResponsePayloadModel::Unknown(m),
            },
            Some(ResponseKind::ExecResult) => match ExecOutputModel::decoded(m) {
                Some(p) => GatewayResponsePayloadModel::ExecResult(p),
                None => GatewayResponsePayloadModel::Unknown(m),
            },
            Some(ResponseKind::SystemProbe) => match SystemProbeResultModel::decoded(m) {
                Some(p) => GatewayResponsePayloadModel::SystemProbe(p),
                None => GatewayResponsePayloadModel::Unknown(m),
            },
            None => GatewayResponsePayloadModel::Unknown(m),
        }
    }

    /// The document that a payload is written as; an unknown payload is
    /// written as the document it holds.
    pub open spec fn encoded(self) -> JsonModel {
        match self {
            GatewayResponsePayloadModel::HelloOk(p) => p.encoded(),
            GatewayResponsePayloadModel::ExecResult(p) => p.encoded(),
            GatewayResponsePayloadModel::SystemProbe(p) => p.encoded(),
            GatewayResponsePayloadModel::Unknown(m) => m,
        }
    }
}

impl GatewayResponsePayload {
    /// Reads a document as the given shape, and keeps it as it came where
    /// it does not decode as that shape or no shape is given.
    pub fn of_kind(kind: Option<ResponseKind>, value: JsonValue) -> (r: GatewayResponsePayload)
        ensures
            r.deep_view() == GatewayResponsePayloadModel::of_kind(kind, value@),
    {
        match kind {
            Some(ResponseKind::HelloOk) => match HelloOk::decode(&value) {
                Some(p) => GatewayResponsePayload::HelloOk(p),
                None => GatewayResponsePayload::Unknown(value),
            },
            Some(ResponseKind::ExecResult) => match ExecOutput::decode(&value) {
                Some(p) => GatewayResponsePayload::ExecResult(p),
                None => GatewayResponsePayload::Unknown(value),
            },
            Some(ResponseKind::SystemProbe) => match SystemProbeResult::decode(&value) {
                Some(p) => GatewayResponsePayload::SystemProbe(p),
                None => GatewayResponsePayload::Unknown(value),
            },
            None => GatewayResponsePayload::Unknown(value),
        }
    }

    /// Encodes the payload as a document.
    pub fn encode(&self) -> (r: JsonValue)
        ensures
            r@ == self.deep_view().encoded(),
    {
        match self {
            GatewayResponsePayload::HelloOk(p) => p.encode(),
            GatewayResponsePayload::ExecResult(p) => p.encode(),
            GatewayResponsePayload::SystemProbe(p) => p.encode(),
            GatewayResponsePayload::Unknown(v) => v.clone(),
        }
    }
}

/// Each method selects its payload shape, and the spellings of one
/// method select the same shape.
pub proof fn lemma_request_methods()
    ensures
        request_kind("agent"@) == Some(RequestKind::AgentTurn),
        request_kind("system-event"@) == Some(RequestKind::SystemEvent),
        request_kind("connect"@) == Some(RequestKind::Connect),
        request_kind("camera_snap"@) == Some(RequestKind::CameraSnapshot),
        request_kind("sessions.list"@) == Some(RequestKind::SessionsList),
        request_kind("sessions.spawn"@) == Some(RequestKind::SessionsSpawn),
        request_kind("sessions.close"@) == Some(RequestKind::SessionsClose),
        request_kind("streams.open"@) == Some(RequestKind::StreamOpen),
        request_kind("stream.open"@) == Some(RequestKind::StreamOpen),
        request_kind("streams.send"@) == Some(RequestKind::StreamSend),
        request_kind("stream.send"@) == Some(RequestKind::StreamSend),
        request_kind("streams.close"@) == Some(RequestKind::StreamClose),
        request_kind("stream.close"@) == Some(RequestKind::StreamClose),
        request_kind("exec"@) == Some(RequestKind::Exec),
        request_kind("logs.subscribe"@) == Some(RequestKind::LogsSubscribe),
        request_kind("logs_subscribe"@) == Some(RequestKind::LogsSubscribe),
        request_kind("logs.unsubscribe"@) == Some(RequestKind::LogsUnsubscribe),
        request_kind("logs_unsubscribe"@) == Some(RequestKind::LogsUnsubscribe),
        request_kind("system.probe"@) == Some(RequestKind::SystemProbe),
        request_kind("system_probe"@) == Some(RequestKind::SystemProbe),
{
    reveal_strlit("agent");
    reveal_strlit("system-event");
    reveal_strlit("connect");
    reveal_strlit("camera_snap");
    reveal_strlit("sessions.list");
    reveal_strlit("sessions.spawn");
    reveal_strlit("sessions.close");
    reveal_strlit("streams.open");
    reveal_strlit("stream.open");
    reveal_strlit("streams.send");
    reveal_strlit("stream.send");
    reveal_strlit("streams.close");
    reveal_strlit("stream.close");
    reveal_strlit("exec");
    reveal_strlit("logs.subscribe");
    reveal_strlit("logs_subscribe");
    reveal_strlit("logs.unsubscribe");
    reveal_strlit("logs_unsubscribe");
    reveal_strlit("system.probe");
    reveal_strlit("system_probe");
    assert("agent"@.len() == 5);
    assert("system-event"@.len() == 12);
    assert("connect"@.len() == 7);
    assert("camera_snap"@.len() == 11);
    assert("sessions.list"@.len() == 13);
    assert("sessions.spawn"@.len() == 14);
    assert("sessions.close"@.len() == 14);
    assert("streams.open"@.len() == 12);
    assert("stream.open"@.len() == 11);
    assert("streams.send"@.len() == 12);
    assert("stream.send"@.len() == 11);
    assert("streams.close"@.len() == 13);
    assert("stream.close"@.len() == 12);
    assert("exec"@.len() == 4);
    assert("logs.subscribe"@.len() == 14);
    assert("logs_subscribe"@.len() == 14);
    assert("logs.unsubscribe"@.len() == 16);
    assert("logs_unsubscribe"@.len() == 16);
    assert("system.probe"@.len() == 12);
    assert("system_probe"@.len() == 12);
    assert("sessions.spawn"@[9] != "sessions.close"@[9]);
    assert("system-event"@[1] != "streams.open"@[1]);
    assert("camera_snap"@[0] != "stream.open"@[0]);
    assert("system-event"@[1] != "streams.send"@[1]);
    assert("streams.open"@[8] != "streams.send"@[8]);
    assert("camera_snap"@[0] != "stream.send"@[0]);
    assert("stream.open"@[7] != "stream.send"@[7]);
    assert("sessions.list"@[1] != "streams.close"@[1]);
    assert("system-event"@[1] != "stream.close"@[1]);
    assert("streams.open"@[6] != "stream.close"@[6]);
    assert("streams.send"@[6] != "stream.close"@[6]);
    assert("sessions.spawn"@[0] != "logs.subscribe"@[0]);
    assert("sessions.close"@[0] != "logs.subscribe"@[0]);
    assert("sessions.spawn"@[0] != "logs_subscribe"@[0]);
    assert("sessions.close"@[0] != "logs_subscribe"@[0]);
    assert("system-event"@[6] != "system.probe"@[6]);
    assert("streams.open"@[1] != "system.probe"@[1]);
    assert("streams.send"@[1] != "system.probe"@[1]);
    assert("stream.close"@[1] != "system.probe"@[1]);
    assert("system-event"@[6] != "system_probe"@[6]);
    assert("streams.open"@[1] != "system_probe"@[1]);
    assert("streams.send"@[1] != "system_probe"@[1]);
    assert("stream.close"@[1] != "system_probe"@[1]);
}

/// Each event name selects its payload shape, and the spellings of one
/// event name select the same shape.
pub proof fn lemma_event_names()
    ensures
        event_kind("connect.challenge"@) == Some(EventKind::ConnectChallenge),
        event_kind("presence"@) == Some(EventKind::Presence),
        event_kind("shutdown"@) == Some(EventKind::Shutdown),
        event_kind("media"@) == Some(EventKind::Media),
        event_kind("exec.output"@) == Some(EventKind::ExecOutput),
        event_kind("exec.stream"@) == Some(EventKind::ExecOutput),
        event_kind("logs"@) == Some(EventKind::Logs),
        event_kind("logs.entry"@) == Some(EventKind::Logs),
        event_kind("logs.entries"@) == Some(EventKind::Logs),
        event_kind("stream.data"@) == Some(EventKind::StreamData),
        event_kind("streams.data"@) == Some(EventKind::StreamData),
        event_kind("stream.closed"@) == Some(EventKind::StreamClosed),
        event_kind("streams.closed"@) == Some(EventKind::StreamClosed),
{
    reveal_strlit("connect.challenge");
    reveal_strlit("presence");
    reveal_strlit("shutdown");
    reveal_strlit("media");
    reveal_strlit("exec.output");
    reveal_strlit("exec.stream");
    reveal_strlit("logs");
    reveal_strlit("logs.entry");
    reveal_strlit("logs.entries");
    reveal_strlit("stream.data");
    reveal_strlit("streams.data");
    reveal_strlit("stream.closed");
    reveal_strlit("streams.closed");
    assert("connect.challenge"@.len() == 17);
    assert("presence"@.len() == 8);
    assert("shutdown"@.len() == 8);
    assert("media"@.len() == 5);
    assert("exec.output"@.len() == 11);
    assert("exec.stream"@.len() == 11);
    assert("logs"@.len() == 4);
    assert("logs.entry"@.len() == 10);
    assert("logs.entries"@.len() == 12);
    assert("stream.data"@.len() == 11);
    assert("streams.data"@.len() == 12);
    assert("stream.closed"@.len() == 13);
    assert("streams.closed"@.len() == 14);
    assert("presence"@[0] != "shutdown"@[0]);
    assert("exec.output"@[0] != "stream.data"@[0]);
    assert("exec.stream"@[0] != "stream.data"@[0]);
    assert("logs.entries"@[0] != "streams.data"@[0]);
}

/// Each tag selects its payload shape, and the spellings of one
/// tag select the same shape.
pub proof fn lemma_response_tags()
    ensures
        response_kind("hello-ok"@) == Some(ResponseKind::HelloOk),
        response_kind("exec-result"@) == Some(ResponseKind::ExecResult),
        response_kind("system-probe"@) == Some(ResponseKind::SystemProbe),
{
    reveal_strlit("hello-ok");
    reveal_strlit("exec-result");
    reveal_strlit("system-probe");
    assert("hello-ok"@.len() == 8);
    assert("exec-result"@.len() == 11);
    assert("system-probe"@.len() == 12);
}

} // verus!
