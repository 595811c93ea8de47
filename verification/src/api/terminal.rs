//! Running one command and opening a shell: what to send, and what to make
//! of each frame that comes back. The caller owns the transport.

use crate::api::connection::{elevated, is_request_text, GatewayClient, RequestError};
use crate::api::events::frame::{GatewayEvent, GatewayEventModel};
use crate::api::events::notices::{ExecOutput, ExecOutputModel};
use crate::api::events::payloads::{
    GatewayEventPayload, GatewayEventPayloadModel, GatewayRequestParamsModel,
    GatewayResponsePayload, GatewayResponsePayloadModel,
};
use crate::api::events::requests::{
    ExecParamsModel, StreamOpenParamsModel, StreamSendParamsModel,
};
use crate::codec::{base64_bytes, base64_decode, base64_text, decode_lossy, lossy_text};
use crate::json::{lookup, JsonModel, JsonValue};
use crate::text::{
    eq_ignoring_ascii_case, is_base64_label, join3, signed_decimal, signed_text, text_eq,
};
use vstd::prelude::*;

verus! {

/// A piece of terminal output: a text and its kind, one of `output`,
/// `error` and `system`.
#[derive(Debug, Clone, PartialEq, Eq)]
pub struct TerminalChunk {
    pub text: String,
    pub kind: String,
}

/// The model of [`TerminalChunk`].
pub struct TerminalChunkModel {
    pub text: Seq<char>,
    pub kind: Seq<char>,
}

impl DeepView for TerminalChunk {
    type V = TerminalChunkModel;

    open spec fn deep_view(&self) -> TerminalChunkModel {
        TerminalChunkModel { text: self.text@, kind: self.kind@ }
    }
}

/// The text of output data: decoded from base64, and then leniently from
/// UTF-8, where the encoding is named `base64` in any case of letters and
/// the data is base64; else the data as it is.
pub open spec fn decoded_output(data: Seq<char>, encoding: Option<Seq<char>>) -> Seq<char> {
    match encoding {
        Some(e) => if eq_ignoring_ascii_case(e, "base64"@) {
            match base64_bytes(data) {
                Some(bytes) => lossy_text(bytes),
                None => data,
            }
        } else {
            data
        },
        None => data,
    }
}

/// The line that tells how a process ended.
pub open spec fn exit_text(code: i32) -> Seq<char> {
    "Process exited with code "@ + signed_decimal(code as int) + "."@
}

/// The chunk that the data of an output gives, if any: none where there is
/// no data or its text is empty; of kind `error` on the stream `stderr` and
/// of kind `output` on any other.
pub open spec fn data_chunks(output: ExecOutputModel) -> Seq<TerminalChunkModel> {
    text_chunks(
        match output.data {
            Some(data) => Some(decoded_output(data, output.encoding)),
            None => None,
        },
        output.stream,
    )
}

/// The chunk that the exit code of an output gives, if any.
pub open spec fn exit_chunks(output: ExecOutputModel) -> Seq<TerminalChunkModel> {
    match output.exit_code {
        Some(code) => seq![TerminalChunkModel { text: exit_text(code), kind: "system"@ }],
        None => Seq::empty(),
    }
}

/// The chunks that an output gives: its data, then its exit code.
pub open spec fn output_chunks(output: ExecOutputModel) -> Seq<TerminalChunkModel> {
    data_chunks(output) + exit_chunks(output)
}

/// Decodes output data that arrived as text.
pub fn decode_output_data(data: String, encoding: Option<&str>) -> (r: String)
    ensures
        r@ == decoded_output(
            data@,
            match encoding {
                Some(e) => Some(e@),
                None => None,
            },
        ),
{
    match encoding {
        Some(e) => {
            if is_base64_label(e) {
                match base64_decode(data.as_str()) {
                    Some(bytes) => decode_lossy(bytes.as_slice()),
                    None => data,
                }
            } else {
                data
            }
        },
        None => data,
    }
}

/// The chunk that a decoded text gives, if any: none where there is no text
/// or it is empty; of kind `error` on the stream `stderr` and of kind
/// `output` on any other.
pub open spec fn text_chunks(text: Option<Seq<char>>, stream: Option<Seq<char>>) -> Seq<
    TerminalChunkModel,
> {
    match text {
        Some(t) => if t.len() == 0 {
            Seq::empty()
        } else {
            seq![
                TerminalChunkModel {
                    text: t,
                    kind: if stream == Some("stderr"@) {
                        "error"@
                    } else {
                        "output"@
                    },
                },
            ]
        },
        None => Seq::empty(),
    }
}

/// The chunks to show for a decoded text and an exit code: the text, then
/// the line that tells how the process ended.
pub fn chunks_for(text: Option<String>, stream: &Option<String>, exit_code: Option<i32>) -> (r: Vec<
    TerminalChunk,
>)
    ensures
        r.deep_view() == text_chunks(text.deep_view(), stream.deep_view()) + match exit_code {
            Some(code) => seq![TerminalChunkModel { text: exit_text(code), kind: "system"@ }],
            None => Seq::empty(),
        },
{
    let ghost shown = text_chunks(text.deep_view(), stream.deep_view());
    let mut chunks: Vec<TerminalChunk> = Vec::new();
    assert(chunks.deep_view() =~= Seq::<TerminalChunkModel>::empty());
    match text {
        Some(text) => {
            if !text.as_str().is_empty() {
                let on_stderr = match stream {
                    Some(s) => text_eq(s.as_str(), "stderr"),
                    None => false,
                };
                let kind = if on_stderr {
                    "error".to_owned()
                } else {
                    "output".to_owned()
                };
                chunks.push(TerminalChunk { text, kind });
            }
        },
        None => {},
    }
    assert(chunks.deep_view() =~= shown);
    match exit_code {
        Some(code) => {
            let digits = signed_text(code as i64);
            let text = join3("Process exited with code ", digits.as_str(), ".");
            chunks.push(TerminalChunk { text, kind: "system".to_owned() });
            assert(chunks.deep_view() =~= shown + seq![
                TerminalChunkModel { text: exit_text(code), kind: "system"@ },
            ]);
        },
        None => {
            assert(chunks.deep_view() =~= shown + Seq::<TerminalChunkModel>::empty());
        },
    }
    chunks
}

/// Turns an output into the chunks to show.
pub fn emit_exec_output(output: &ExecOutput) -> (r: Vec<TerminalChunk>)
    ensures
        r.deep_view() == output_chunks(output.deep_view()),
{
    let text = match &output.data {
        Some(data) => {
            let encoding = match &output.encoding {
                Some(e) => Some(e.as_str()),
                None => None,
            };
            Some(decode_output_data(data.clone(), encoding))
        },
        None => None,
    };
    chunks_for(text, &output.stream, output.exit_code)
}

/// How a command stands after a frame.
#[derive(Debug, PartialEq, Eq)]
pub enum ExecOutcome {
    /// More frames are to come.
    Running,
    /// The process has ended.
    Finished,
    /// The request was refused, with the message.
    Failed(String),
}

/// The model of [`ExecOutcome`].
pub enum ExecOutcomeModel {
    Running,
    Finished,
    Failed(Seq<char>),
}

impl DeepView for ExecOutcome {
    type V = ExecOutcomeModel;

    open spec fn deep_view(&self) -> ExecOutcomeModel {
        match self {
            ExecOutcome::Running => ExecOutcomeModel::Running,
            ExecOutcome::Finished => ExecOutcomeModel::Finished,
            ExecOutcome::Failed(message) => ExecOutcomeModel::Failed(message@),
        }
    }
}

/// The message of a refused request: the one the gateway gave, or `fallback`.
pub open spec fn failure_text(message: Option<Seq<char>>, fallback: Seq<char>) -> Seq<char> {
    match message {
        Some(m) => m,
        None => fallback,
    }
}

/// What an output does to a running command: its chunks are shown, and the
/// command has finished where the output carries an exit code.
pub open spec fn after_output(
    output: ExecOutputModel,
) -> (Seq<TerminalChunkModel>, ExecOutcomeModel) {
    (
        output_chunks(output),
        if output.exit_code is Some {
            ExecOutcomeModel::Finished
        } else {
            ExecOutcomeModel::Running
        },
    )
}

/// What a frame does to the command that was started by the request
/// `request_id`. A response to another request changes nothing; a refusal
/// ends the command with one chunk of kind `error`; a result and an output
/// event are shown; any other frame changes nothing.
pub open spec fn exec_progress(request_id: Seq<char>, frame: GatewayEventModel) -> (
    Seq<TerminalChunkModel>,
    ExecOutcomeModel,
) {
    match frame {
        GatewayEventModel::ProtocolResponse { id, ok, payload, error, .. } => if id != request_id {
            (Seq::empty(), ExecOutcomeModel::Running)
        } else if !ok {
            (
                seq![
                    TerminalChunkModel {
                        text: failure_text(error.message, "exec request failed"@),
                        kind: "error"@,
                    },
                ],
                ExecOutcomeModel::Failed(failure_text(error.message, "exec request failed"@)),
            )
        } else {
            match payload {
                GatewayResponsePayloadModel::ExecResult(output) => after_output(output),
                _ => (Seq::empty(), ExecOutcomeModel::Running),
            }
        },
        GatewayEventModel::ProtocolEvent { payload, .. } => match payload {
            GatewayEventPayloadModel::ExecOutput(output) => after_output(output),
            _ => (Seq::empty(), ExecOutcomeModel::Running),
        },
        _ => (Seq::empty(), ExecOutcomeModel::Running),
    }
}

/// Shows an output and says whether the command has finished.
fn show_output(output: &ExecOutput) -> (r: (Vec<TerminalChunk>, ExecOutcome))
    ensures
        (r.0.deep_view(), r.1.deep_view()) == after_output(output.deep_view()),
{
    let chunks = emit_exec_output(output);
    if output.exit_code.is_some() {
        (chunks, ExecOutcome::Finished)
    } else {
        (chunks, ExecOutcome::Running)
    }
}

/// Nothing to show, and the command runs on.
fn nothing_new() -> (r: (Vec<TerminalChunk>, ExecOutcome))
    ensures
        r.0.deep_view() == Seq::<TerminalChunkModel>::empty(),
        r.1.deep_view() == ExecOutcomeModel::Running,
{
    let chunks: Vec<TerminalChunk> = Vec::new();
    assert(chunks.deep_view() =~= Seq::<TerminalChunkModel>::empty());
    (chunks, ExecOutcome::Running)
}

/// Takes one frame for a running command: the chunks to show, and how the
/// command stands.
pub fn exec_command_step(request_id: &str, frame: &GatewayEvent) -> (r: (
    Vec<TerminalChunk>,
    ExecOutcome,
))
    ensures
        (r.0.deep_view(), r.1.deep_view()) == exec_progress(request_id@, frame.deep_view()),
{
    match frame {
        GatewayEvent::ProtocolResponse { id, ok, payload, error, .. } => {
            if !text_eq(id.as_str(), request_id) {
                nothing_new()
            } else if !*ok {
                let message = match &error.message {
                    Some(m) => m.clone(),
                    None => "exec request failed".to_owned(),
                };
                let mut chunks: Vec<TerminalChunk> = Vec::new();
                chunks.push(TerminalChunk { text: message.clone(), kind: "error".to_owned() });
                assert(chunks.deep_view() =~= exec_progress(request_id@, frame.deep_view()).0);
                (chunks, ExecOutcome::Failed(message))
            } else {
                match payload {
                    GatewayResponsePayload::ExecResult(output) => show_output(output),
                    _ => nothing_new(),
                }
            }
        },
        GatewayEvent::ProtocolEvent { payload, .. } => match payload {
            GatewayEventPayload::ExecOutput(output) => show_output(output),
            _ => nothing_new(),
        },
        _ => nothing_new(),
    }
}

/// How a request stands after a frame.
#[derive(Debug, PartialEq, Eq)]
pub enum ResponseProgress {
    /// The response has not come yet.
    Waiting,
    /// The gateway accepted the request, with this payload.
    Ready(GatewayResponsePayload),
    /// The gateway refused the request, with this message.
    Failed(String),
}

/// The model of [`ResponseProgress`].
pub enum ResponseProgressModel {
    Waiting,
    Ready(GatewayResponsePayloadModel),
    Failed(Seq<char>),
}

impl DeepView for ResponseProgress {
    type V = ResponseProgressModel;

    open spec fn deep_view(&self) -> ResponseProgressModel {
        match self {
            ResponseProgress::Waiting => ResponseProgressModel::Waiting,
            ResponseProgress::Ready(payload) => ResponseProgressModel::Ready(payload.deep_view()),
            ResponseProgress::Failed(message) => ResponseProgressModel::Failed(message@),
        }
    }
}

/// What a frame does to the wait for the response to `request_id`: only the
/// response with that identifier ends it.
pub open spec fn response_progress(
    request_id: Seq<char>,
    frame: GatewayEventModel,
) -> ResponseProgressModel {
    match frame {
        GatewayEventModel::ProtocolResponse { id, ok, payload, error, .. } => if id != request_id {
            ResponseProgressModel::Waiting
        } else if ok {
            ResponseProgressModel::Ready(payload)
        } else {
            ResponseProgressModel::Failed(failure_text(error.message, "gateway request failed"@))
        },
        _ => ResponseProgressModel::Waiting,
    }
}

/// Takes one frame while waiting for the response to a request.
pub fn await_response_step(request_id: &str, frame: GatewayEvent) -> (r: ResponseProgress)
    ensures
        r.deep_view() == response_progress(request_id@, frame.deep_view()),
{
    match frame {
        GatewayEvent::ProtocolResponse { id, ok, payload, error, .. } => {
            if !text_eq(id.as_str(), request_id) {
                ResponseProgress::Waiting
            } else if ok {
                ResponseProgress::Ready(payload)
            } else {
                match error.message {
                    Some(m) => ResponseProgress::Failed(m),
                    None => ResponseProgress::Failed("gateway request failed".to_owned()),
                }
            }
        },
        _ => ResponseProgress::Waiting,
    }
}

/// Why no stream identifier was found in the response to `streams.open`.
#[derive(Clone, Copy, Debug, PartialEq, Eq, Structural)]
pub enum StreamOpenError {
    /// The payload has a known shape, which holds no stream identifier.
    PayloadNotRecognized,
    /// The payload holds no text under `streamId`.
    MissingStreamId,
}

impl StreamOpenError {
    /// The message of an error.
    pub open spec fn message_text(self) -> Seq<char> {
        match self {
            StreamOpenError::PayloadNotRecognized => {
                "streams.open response payload was not recognized"@
            },
            StreamOpenError::MissingStreamId => "streams.open response missing streamId"@,
        }
    }

    /// The message of an error, for the caller to show.
    pub fn message(&self) -> (r: String)
        ensures
            r@ == self.message_text(),
    {
        match self {
            StreamOpenError::PayloadNotRecognized => {
                "streams.open response payload was not recognized".to_owned()
            },
            StreamOpenError::MissingStreamId => "streams.open response missing streamId".to_owned(),
        }
    }
}

/// The stream identifier in the response to `streams.open`: the text under
/// `streamId` of a payload that was kept as it came.
pub open spec fn stream_id_of(payload: GatewayResponsePayloadModel) -> Result<
    Seq<char>,
    StreamOpenError,
> {
    match payload {
        GatewayResponsePayloadModel::Unknown(JsonModel::Object(o)) => match lookup(o, "streamId"@) {
            Some(JsonModel::String(id)) => Ok(id),
            _ => Err(StreamOpenError::MissingStreamId),
        },
        GatewayResponsePayloadModel::Unknown(_) => Err(StreamOpenError::MissingStreamId),
        _ => Err(StreamOpenError::PayloadNotRecognized),
    }
}

/// Finds the stream identifier in the response to `streams.open`.
pub fn stream_id_from(payload: &GatewayResponsePayload) -> (r: Result<String, StreamOpenError>)
    ensures
        match stream_id_of(payload.deep_view()) {
            Ok(id) => r matches Ok(text) && text@ == id,
            Err(e) => r matches Err(x) && x == e,
        },
{
    match payload {
        GatewayResponsePayload::Unknown(JsonValue::Object(o)) => match o.get("streamId") {
            Some(JsonValue::String(id)) => Ok(id.clone()),
            _ => Err(StreamOpenError::MissingStreamId),
        },
        GatewayResponsePayload::Unknown(_) => Err(StreamOpenError::MissingStreamId),
        _ => Err(StreamOpenError::PayloadNotRecognized),
    }
}

/// The request that runs a shell command line and streams its output: `sh`
/// with `-lc` and the command line, killed when the connection drops.
pub fn exec_command_request_text(
    client: &GatewayClient,
    request_id: String,
    command: String,
    cwd: Option<String>,
    timeout_ms: Option<u64>,
    session_key: Option<String>,
) -> (r: Result<String, RequestError>)
    ensures
        r matches Ok(text) && is_request_text(
            text@,
            request_id@,
            "exec"@,
            GatewayRequestParamsModel::Exec(
                ExecParamsModel {
                    command: "sh"@,
                    args: seq!["-lc"@, command@],
                    cwd: cwd.deep_view(),
                    env: None,
                    stdin: None,
                    timeout_ms,
                    stream: Some(true),
                    exec_id: None,
                    kill_on_drop: Some(true),
                    extra: Seq::empty(),
                },
            ),
            session_key.deep_view(),
        ),
{
    let mut args: Vec<String> = Vec::new();
    args.push("-lc".to_owned());
    args.push(command);
    assert(args.deep_view() =~= seq!["-lc"@, command@]);
    client.exec_request(
        request_id,
        "sh".to_owned(),
        args,
        cwd,
        None,
        None,
        timeout_ms,
        Some(true),
        None,
        Some(true),
        session_key,
    )
}

/// The permissions descriptor that the shell helpers send along.
pub open spec fn shell_permissions() -> Seq<char> {
    "{\"elevated\":true}"@
}

/// The request that opens an interactive shell, with the permissions
/// descriptor that grants shell access.
pub fn terminal_stream_open_request_text(
    client: &GatewayClient,
    request_id: String,
    cols: Option<u32>,
    rows: Option<u32>,
    term: Option<String>,
    session_key: Option<String>,
) -> (r: Result<String, RequestError>)
    ensures
        !elevated(Some(shell_permissions())) ==> r == Err::<String, RequestError>(
            RequestError::NotElevated,
        ),
        elevated(Some(shell_permissions())) ==> (r matches Ok(text) && is_request_text(
            text@,
            request_id@,
            "streams.open"@,
            GatewayRequestParamsModel::StreamOpen(
                StreamOpenParamsModel {
                    stream: "interactive_shell"@,
                    term: term.deep_view(),
                    cols,
                    rows,
                    metadata: None,
                    extra: Seq::empty(),
                },
            ),
            session_key.deep_view(),
        )),
{
    client.interactive_shell_open_request(
        request_id,
        cols,
        rows,
        term,
        None,
        Some("{\"elevated\":true}".to_owned()),
        session_key,
    )
}

/// The request that sends input to an interactive shell on the channel
/// `stdin`, with the permissions descriptor that grants shell access.
pub fn terminal_stream_send_request_text(
    client: &GatewayClient,
    request_id: String,
    stream_id: String,
    input_bytes: Vec<u8>,
    session_key: Option<String>,
) -> (r: Result<String, RequestError>)
    requires
        input_bytes@.len() <= isize::MAX,
    ensures
        !elevated(Some(shell_permissions())) ==> r == Err::<String, RequestError>(
            RequestError::NotElevated,
        ),
        elevated(Some(shell_permissions())) ==> (r matches Ok(text) && is_request_text(
            text@,
            request_id@,
            "streams.send"@,
            GatewayRequestParamsModel::StreamSend(
                StreamSendParamsModel {
                    stream: "interactive_shell"@,
                    stream_id: Some(stream_id@),
                    channel: Some("stdin"@),
                    event: None,
                    data: Some(base64_text(input_bytes@)),
                    encoding: Some("base64"@),
                    cols: None,
                    rows: None,
                    extra: Seq::empty(),
                },
            ),
            session_key.deep_view(),
        )),
{
    client.interactive_shell_send_request(
        request_id,
        Some(stream_id),
        input_bytes,
        Some("stdin".to_owned()),
        Some("{\"elevated\":true}".to_owned()),
        session_key,
    )
}

} // verus!
