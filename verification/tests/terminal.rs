use gateway_client::api::connection::{GatewayClient, RequestError};
use gateway_client::api::events::{
    parse_gateway_frame, ExecOutput, GatewayError, GatewayEvent, GatewayResponsePayload,
    SystemProbeResult,
};
use gateway_client::api::terminal::{
    await_response_step, chunks_for, decode_output_data, emit_exec_output, exec_command_request_text,
    exec_command_step, stream_id_from, terminal_stream_open_request_text,
    terminal_stream_send_request_text, ExecOutcome, ResponseProgress, StreamOpenError,
    TerminalChunk,
};
use gateway_client::json::{JsonObject, JsonValue};
use gateway_client::json_text::parse_json;

fn chunk(text: &str, kind: &str) -> TerminalChunk {
    TerminalChunk { text: text.to_string(), kind: kind.to_string() }
}

fn output(stream: Option<&str>, data: Option<&str>, encoding: Option<&str>, exit_code: Option<i32>) -> ExecOutput {
    ExecOutput {
        exec_id: None,
        stream: stream.map(|s| s.to_string()),
        data: data.map(|s| s.to_string()),
        encoding: encoding.map(|s| s.to_string()),
        eof: None,
        exit_code,
        timestamp_ms: None,
        extra: JsonObject::new(),
    }
}

fn response(id: &str, ok: bool, payload: GatewayResponsePayload, message: Option<&str>) -> GatewayEvent {
    let mut error = GatewayError::default();
    error.message = message.map(|m| m.to_string());
    GatewayEvent::ProtocolResponse {
        id: id.to_string(),
        ok,
        payload,
        error,
        session_key: String::new(),
    }
}

#[test]
fn output_data_is_decoded_when_base64() {
    assert_eq!(decode_output_data("aGVsbG8=".to_string(), Some("base64")), "hello");
    assert_eq!(decode_output_data("aGVsbG8=".to_string(), Some("BASE64")), "hello");
    assert_eq!(decode_output_data("aGVsbG8=".to_string(), Some("Base64")), "hello");
    assert_eq!(decode_output_data("aGVsbG8=".to_string(), Some("utf8")), "aGVsbG8=");
    assert_eq!(decode_output_data("aGVsbG8=".to_string(), Some("base64 ")), "aGVsbG8=");
    assert_eq!(decode_output_data("aGVsbG8=".to_string(), Some("bäse64")), "aGVsbG8=");
    assert_eq!(decode_output_data("aGVsbG8=".to_string(), None), "aGVsbG8=");
    assert_eq!(decode_output_data("not base64!".to_string(), Some("base64")), "not base64!");
    assert_eq!(decode_output_data("/w==".to_string(), Some("base64")), "\u{fffd}");
    assert_eq!(decode_output_data(String::new(), Some("base64")), "");
}

#[test]
fn output_becomes_chunks() {
    assert_eq!(emit_exec_output(&output(None, Some("hi"), None, None)), vec![chunk("hi", "output")]);
    assert_eq!(
        emit_exec_output(&output(Some("stdout"), Some("hi"), Some("utf8"), None)),
        vec![chunk("hi", "output")]
    );
    assert_eq!(
        emit_exec_output(&output(Some("stderr"), Some("b29wcw=="), Some("base64"), None)),
        vec![chunk("oops", "error")]
    );
    assert_eq!(emit_exec_output(&output(Some("stderr"), Some(""), None, None)), vec![]);
    assert_eq!(emit_exec_output(&output(None, None, None, None)), vec![]);
    assert_eq!(
        emit_exec_output(&output(None, Some("bye"), None, Some(0))),
        vec![chunk("bye", "output"), chunk("Process exited with code 0.", "system")]
    );
    assert_eq!(
        emit_exec_output(&output(None, None, None, Some(-15))),
        vec![chunk("Process exited with code -15.", "system")]
    );
    assert_eq!(
        emit_exec_output(&output(None, None, None, Some(i32::MIN))),
        vec![chunk("Process exited with code -2147483648.", "system")]
    );
    assert_eq!(
        emit_exec_output(&output(None, None, None, Some(i32::MAX))),
        vec![chunk("Process exited with code 2147483647.", "system")]
    );
}

#[test]
fn exec_command_follows_the_frames() {
    let running = parse_gateway_frame(
        r#"{"type":"event","event":"exec.output","payload":{"stream":"stdout","data":"a"}}"#,
    )
    .expect("frame");
    assert_eq!(exec_command_step("req-1", &running), (vec![chunk("a", "output")], ExecOutcome::Running));
    let ended = parse_gateway_frame(r#"{"type":"event","event":"exec.stream","payload":{"exitCode":3}}"#)
        .expect("frame");
    assert_eq!(
        exec_command_step("req-1", &ended),
        (vec![chunk("Process exited with code 3.", "system")], ExecOutcome::Finished)
    );
    let other_event = parse_gateway_frame(r#"{"type":"event","event":"presence","payload":{}}"#).expect("frame");
    assert_eq!(exec_command_step("req-1", &other_event), (vec![], ExecOutcome::Running));

    let result = response(
        "req-1",
        true,
        GatewayResponsePayload::ExecResult(output(Some("stderr"), Some("e"), None, Some(1))),
        None,
    );
    assert_eq!(
        exec_command_step("req-1", &result),
        (
            vec![chunk("e", "error"), chunk("Process exited with code 1.", "system")],
            ExecOutcome::Finished
        )
    );
    assert_eq!(exec_command_step("req-2", &result), (vec![], ExecOutcome::Running));
    let accepted = response("req-1", true, GatewayResponsePayload::Unknown(JsonValue::Null), None);
    assert_eq!(exec_command_step("req-1", &accepted), (vec![], ExecOutcome::Running));
    let refused = response("req-1", false, GatewayResponsePayload::Unknown(JsonValue::Null), Some("denied"));
    assert_eq!(
        exec_command_step("req-1", &refused),
        (vec![chunk("denied", "error")], ExecOutcome::Failed("denied".to_string()))
    );
    let refused_silently = response("req-1", false, GatewayResponsePayload::Unknown(JsonValue::Null), None);
    assert_eq!(
        exec_command_step("req-1", &refused_silently),
        (
            vec![chunk("exec request failed", "error")],
            ExecOutcome::Failed("exec request failed".to_string())
        )
    );
    assert_eq!(exec_command_step("req-1", &GatewayEvent::Connected), (vec![], ExecOutcome::Running));
}

#[test]
fn waiting_for_a_response() {
    let payload = || GatewayResponsePayload::Unknown(parse_json(r#"{"streamId":"s-9"}"#).expect("json"));
    assert_eq!(await_response_step("r1", response("r2", true, payload(), None)), ResponseProgress::Waiting);
    assert_eq!(await_response_step("r1", GatewayEvent::Connected), ResponseProgress::Waiting);
    assert_eq!(
        await_response_step("r1", response("r1", true, payload(), None)),
        ResponseProgress::Ready(payload())
    );
    assert_eq!(
        await_response_step("r1", response("r1", false, payload(), Some("no"))),
        ResponseProgress::Failed("no".to_string())
    );
    assert_eq!(
        await_response_step("r1", response("r1", false, payload(), None)),
        ResponseProgress::Failed("gateway request failed".to_string())
    );
}

#[test]
fn stream_id_is_read_from_an_untyped_payload() {
    let found = GatewayResponsePayload::Unknown(parse_json(r#"{"streamId":"s-9","x":1}"#).expect("json"));
    assert_eq!(stream_id_from(&found), Ok("s-9".to_string()));
    let not_text = GatewayResponsePayload::Unknown(parse_json(r#"{"streamId":9}"#).expect("json"));
    assert_eq!(stream_id_from(&not_text), Err(StreamOpenError::MissingStreamId));
    let absent = GatewayResponsePayload::Unknown(parse_json(r#"{}"#).expect("json"));
    assert_eq!(stream_id_from(&absent), Err(StreamOpenError::MissingStreamId));
    let no_object = GatewayResponsePayload::Unknown(JsonValue::Null);
    assert_eq!(stream_id_from(&no_object), Err(StreamOpenError::MissingStreamId));
    let typed = GatewayResponsePayload::SystemProbe(SystemProbeResult::default());
    assert_eq!(stream_id_from(&typed), Err(StreamOpenError::PayloadNotRecognized));
    assert_eq!(StreamOpenError::MissingStreamId.message(), "streams.open response missing streamId");
    assert_eq!(
        StreamOpenError::PayloadNotRecognized.message(),
        "streams.open response payload was not recognized"
    );
}

#[test]
fn helper_requests() {
    let client = GatewayClient::new("ws://gateway.test".to_string());
    assert_eq!(
        exec_command_request_text(&client, "req-1".to_string(), "echo hi".to_string(), Some("/tmp".to_string()), Some(500), None),
        Ok(r#"{"id":"req-1","method":"exec","params":{"args":["-lc","echo hi"],"command":"sh","cwd":"/tmp","killOnDrop":true,"stream":true,"timeoutMs":500},"type":"req"}"#.to_string())
    );
    assert_eq!(
        terminal_stream_open_request_text(&client, "req-2".to_string(), Some(80), None, None, Some("k".to_string())),
        Ok(r#"{"id":"req-2","method":"streams.open","params":{"cols":80,"stream":"interactive_shell"},"sessionKey":"k","type":"req"}"#.to_string())
    );
    assert_eq!(
        terminal_stream_send_request_text(&client, "req-3".to_string(), "s-1".to_string(), b"x".to_vec(), None),
        Ok(r#"{"id":"req-3","method":"streams.send","params":{"channel":"stdin","data":"eA==","encoding":"base64","stream":"interactive_shell","streamId":"s-1"},"type":"req"}"#.to_string())
    );
    let unused: Result<String, RequestError> = Err(RequestError::NotElevated);
    assert!(unused.is_err());
}

#[test]
fn chunks_for_a_decoded_text() {
    let stderr = Some("stderr".to_string());
    let stdout = Some("stdout".to_string());
    assert_eq!(chunks_for(Some("x".to_string()), &stderr, None), vec![chunk("x", "error")]);
    assert_eq!(chunks_for(Some("x".to_string()), &stdout, None), vec![chunk("x", "output")]);
    assert_eq!(chunks_for(Some("x".to_string()), &Some("STDERR".to_string()), None), vec![chunk("x", "output")]);
    assert_eq!(chunks_for(Some("x".to_string()), &None, None), vec![chunk("x", "output")]);
    assert_eq!(chunks_for(Some(String::new()), &stderr, None), vec![]);
    assert_eq!(chunks_for(None, &stderr, None), vec![]);
    assert_eq!(
        chunks_for(Some(String::new()), &None, Some(7)),
        vec![chunk("Process exited with code 7.", "system")]
    );
    assert_eq!(
        chunks_for(Some("x".to_string()), &stderr, Some(-1)),
        vec![chunk("x", "error"), chunk("Process exited with code -1.", "system")]
    );
}
