//! The frames of the protocol and their typed payloads.

pub mod connect;
pub mod frame;
pub mod media;
pub mod notices;
pub mod payloads;
pub mod requests;
pub mod responses;
pub mod round_trip;

pub use connect::{
    ConnectAuth, ConnectChallenge, ConnectClient, ConnectDevice, ConnectParams, HelloAuth, HelloOk,
    HelloPolicy,
};
pub use frame::{
    decode_frame, parse_error_payload, parse_event_payload, parse_gateway_frame,
    parse_request_params, parse_response_payload, scalar_field, GatewayEvent, GatewayRequestFrame,
};
pub use media::MediaEvent;
pub use notices::{
    ExecOutput, LogEntry, LogsEvent, PresenceEntry, PresenceEvent, ShutdownEvent,
    StreamClosedEvent, StreamDataEvent,
};
pub use payloads::{
    resolve_event_kind, resolve_request_kind, resolve_response_kind, EventKind,
    GatewayEventPayload, GatewayRequestParams, GatewayResponsePayload, RequestKind, ResponseKind,
};
pub use requests::{
    AgentTurn, CameraSnapshot, ExecParams, LogsSubscribeParams, LogsUnsubscribeParams,
    SessionsCloseParams, SessionsListParams, SessionsSpawnParams, StreamCloseParams,
    StreamOpenParams, StreamSendParams, SystemEvent, SystemProbeParams,
};
pub use responses::{GatewayError, SystemProbeCheck, SystemProbeResult};
