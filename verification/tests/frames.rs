use gateway_client::api::events::{
    decode_frame, parse_gateway_frame, parse_request_params, resolve_event_kind,
    resolve_request_kind, AgentTurn, CameraSnapshot, EventKind, ExecOutput, ExecParams,
    GatewayError, GatewayEvent, GatewayEventPayload, GatewayRequestFrame, GatewayRequestParams,
    GatewayResponsePayload, HelloOk, LogEntry, LogsEvent, MediaEvent, RequestKind,
    SessionsCloseParams, StreamOpenParams,
};
use gateway_client::json::{JsonObject, JsonValue};
use gateway_client::json_text::{parse_json, render_json};

fn object(entries: Vec<(&str, JsonValue)>) -> JsonObject {
    let mut o = JsonObject::new();
    for (key, value) in entries {
        o.insert(key.to_string(), value);
    }
    o
}

#[test]
fn parses_agent_turn_request() {
    let text = r#"{
            "type": "req",
            "id": "req-1",
            "method": "agent",
            "params": {
                "message": "Hello",
                "model": "gpt-5",
                "thinking": "medium",
                "timeoutSeconds": 42
            }
        }"#;

    let parsed = parse_gateway_frame(text).expect("frame should parse");
    match parsed {
        GatewayEvent::ProtocolRequest { params, session_key, .. } => {
            assert!(session_key.is_empty());
            assert_eq!(
                params,
                GatewayRequestParams::AgentTurn(AgentTurn {
                    message: "Hello".to_string(),
                    model: Some("gpt-5".to_string()),
                    thinking: Some("medium".to_string()),
                    timeout_seconds: Some(42),
                    extra: JsonObject::new(),
                })
            );
        }
        _ => panic!("expected protocol request"),
    }
}

#[test]
fn parses_camera_snap_request() {
    let text = r#"{
            "type": "req",
            "id": "req-9",
            "method": "camera_snap",
            "params": {
                "data": "aGVsbG8=",
                "encoding": "base64",
                "format": "jpeg",
                "width": 640,
                "height": 480,
                "timestampMs": 123456
            }
        }"#;

    let parsed = parse_gateway_frame(text).expect("frame should parse");
    match parsed {
        GatewayEvent::ProtocolRequest { params, .. } => {
            assert_eq!(
                params,
                GatewayRequestParams::CameraSnapshot(CameraSnapshot {
                    data: "aGVsbG8=".to_string(),
                    encoding: "base64".to_string(),
                    compression: None,
                    format: Some("jpeg".to_string()),
                    width: Some(640),
                    height: Some(480),
                    timestamp_ms: Some(123456),
                    extra: JsonObject::new(),
                })
            );
        }
        _ => panic!("expected protocol request"),
    }
}

#[test]
fn parses_exec_request() {
    let text = r#"{
            "type": "req",
            "id": "req-42",
            "method": "exec",
            "params": {
                "command": "ls",
                "args": ["-la", "/tmp"],
                "cwd": "/",
                "timeoutMs": 1200,
                "stream": true
            }
        }"#;

    let parsed = parse_gateway_frame(text).expect("frame should parse");
    match parsed {
        GatewayEvent::ProtocolRequest { params, .. } => {
            assert_eq!(
                params,
                GatewayRequestParams::Exec(ExecParams {
                    command: "ls".to_string(),
                    args: vec!["-la".to_string(), "/tmp".to_string()],
                    cwd: Some("/".to_string()),
                    env: None,
                    stdin: None,
                    timeout_ms: Some(1200),
                    stream: Some(true),
                    exec_id: None,
                    kill_on_drop: None,
                    extra: JsonObject::new(),
                })
            );
        }
        _ => panic!("expected protocol request"),
    }
}

#[test]
fn parses_exec_output_event() {
    let text = r#"{
            "type": "event",
            "event": "exec.output",
            "seq": 1,
            "stateVersion": 2,
            "payload": {
                "execId": "exec-1",
                "stream": "stdout",
                "data": "hello",
                "encoding": "utf8",
                "eof": true,
                "exitCode": 0
            }
        }"#;

    let parsed = parse_gateway_frame(text).expect("frame should parse");
    match parsed {
        GatewayEvent::ProtocolEvent { payload, .. } => {
            assert_eq!(
                payload,
                GatewayEventPayload::ExecOutput(ExecOutput {
                    exec_id: Some("exec-1".to_string()),
                    stream: Some("stdout".to_string()),
                    data: Some("hello".to_string()),
                    encoding: Some("utf8".to_string()),
                    eof: Some(true),
                    exit_code: Some(0),
                    timestamp_ms: None,
                    extra: JsonObject::new(),
                })
            );
        }
        _ => panic!("expected protocol event"),
    }
}

#[test]
fn parses_logs_event() {
    let text = r#"{
            "type": "event",
            "event": "logs",
            "seq": 9,
            "stateVersion": 9,
            "payload": {
                "entries": [{
                    "timestamp": "2025-01-01T00:00:00Z",
                    "level": "INFO",
                    "message": "booted",
                    "target": "gateway",
                    "fields": {
                        "session": "abc123"
                    },
                    "threadId": 7
                }]
            }
        }"#;

    let mut fields = JsonObject::new();
    fields.insert("session".to_string(), JsonValue::String("abc123".to_string()));

    let parsed = parse_gateway_frame(text).expect("frame should parse");
    match parsed {
        GatewayEvent::ProtocolEvent { payload, .. } => {
            assert_eq!(
                payload,
                GatewayEventPayload::Logs(LogsEvent {
                    entries: vec![LogEntry {
                        timestamp: Some("2025-01-01T00:00:00Z".to_string()),
                        ts: None,
                        level: Some("INFO".to_string()),
                        message: Some("booted".to_string()),
                        target: Some("gateway".to_string()),
                        fields: Some(fields),
                        span: None,
                        spans: Vec::new(),
                        thread_id: Some(7),
                        thread_name: None,
                        extra: JsonObject::new(),
                    }],
                    entry: None,
                    subscription_id: None,
                    extra: JsonObject::new(),
                })
            );
        }
        _ => panic!("expected protocol event"),
    }
}

#[test]
fn scalar_fields_are_rendered_as_text() {
    let text = r#"{"type":"event","event":"presence","payload":{},"seq":1,"stateVersion":"v2","sessionKey":-7}"#;
    match parse_gateway_frame(text).expect("frame should parse") {
        GatewayEvent::ProtocolEvent { seq, state_version, session_key, .. } => {
            assert_eq!(seq, "1");
            assert_eq!(state_version, "v2");
            assert_eq!(session_key, "-7");
        }
        _ => panic!("expected protocol event"),
    }
    let other = r#"{"type":"event","event":"presence","payload":{},"seq":1.5,"stateVersion":true,"sessionKey":[1,"a"]}"#;
    match parse_gateway_frame(other).expect("frame should parse") {
        GatewayEvent::ProtocolEvent { seq, state_version, session_key, .. } => {
            assert_eq!(seq, "1.5");
            assert_eq!(state_version, "true");
            assert_eq!(session_key, "[1,\"a\"]");
        }
        _ => panic!("expected protocol event"),
    }
    let large = r#"{"type":"event","event":"presence","payload":{},"seq":18446744073709551615,"stateVersion":-9223372036854775808,"sessionKey":0}"#;
    match parse_gateway_frame(large).expect("frame should parse") {
        GatewayEvent::ProtocolEvent { seq, state_version, session_key, .. } => {
            assert_eq!(seq, "18446744073709551615");
            assert_eq!(state_version, "-9223372036854775808");
            assert_eq!(session_key, "0");
        }
        _ => panic!("expected protocol event"),
    }
    let absent = r#"{"type":"event","event":"presence","payload":{}}"#;
    match parse_gateway_frame(absent).expect("frame should parse") {
        GatewayEvent::ProtocolEvent { seq, state_version, session_key, .. } => {
            assert_eq!(seq, "");
            assert_eq!(state_version, "");
            assert_eq!(session_key, "");
        }
        _ => panic!("expected protocol event"),
    }
}

#[test]
fn frames_without_a_known_type_are_not_protocol_frames() {
    assert_eq!(parse_gateway_frame("not json"), None);
    assert_eq!(parse_gateway_frame("[1,2,3]"), None);
    assert_eq!(parse_gateway_frame(r#"{"id":"1","method":"agent","params":{}}"#), None);
    assert_eq!(parse_gateway_frame(r#"{"type":"ack","id":"1"}"#), None);
    assert_eq!(parse_gateway_frame(r#"{"type":7,"id":"1"}"#), None);
}

#[test]
fn envelopes_need_their_fields() {
    assert_eq!(parse_gateway_frame(r#"{"type":"req","method":"agent","params":{}}"#), None);
    assert_eq!(parse_gateway_frame(r#"{"type":"req","id":1,"method":"agent","params":{}}"#), None);
    assert_eq!(parse_gateway_frame(r#"{"type":"req","id":"1","params":{}}"#), None);
    assert_eq!(parse_gateway_frame(r#"{"type":"req","id":"1","method":"agent"}"#), None);
    assert_eq!(parse_gateway_frame(r#"{"type":"res","id":"1"}"#), None);
    assert_eq!(parse_gateway_frame(r#"{"type":"res","id":"1","ok":"yes"}"#), None);
    assert_eq!(parse_gateway_frame(r#"{"type":"res","ok":true}"#), None);
    assert_eq!(parse_gateway_frame(r#"{"type":"event","payload":{}}"#), None);
    assert_eq!(parse_gateway_frame(r#"{"type":"event","event":"presence"}"#), None);
    assert!(parse_gateway_frame(r#"{"type":"req","id":"1","method":"agent","params":null}"#).is_some());
    assert!(parse_gateway_frame(r#"{"type":"res","id":"1","ok":true}"#).is_some());
}

#[test]
fn unknown_method_keeps_params_verbatim() {
    let text = r#"{"type":"req","id":"1","method":"custom.thing","params":{"b":[1,2,{"c":null}],"a":"x","n":-3,"f":2.5}}"#;
    let original = parse_json(r#"{"b":[1,2,{"c":null}],"a":"x","n":-3,"f":2.5}"#).expect("json");
    match parse_gateway_frame(text).expect("frame should parse") {
        GatewayEvent::ProtocolRequest { id, method, params, .. } => {
            assert_eq!(id, "1");
            assert_eq!(method, "custom.thing");
            assert_eq!(params, GatewayRequestParams::Unknown(original));
            let again = params.encode();
            assert_eq!(render_json(&again), r#"{"a":"x","b":[1,2,{"c":null}],"f":2.5,"n":-3}"#);
            assert_eq!(
                parse_json(&render_json(&again)),
                parse_json(r#"{"b":[1,2,{"c":null}],"a":"x","n":-3,"f":2.5}"#)
            );
        }
        _ => panic!("expected protocol request"),
    }
}

#[test]
fn payload_that_does_not_fit_its_method_is_kept() {
    let text = r#"{"type":"req","id":"1","method":"agent","params":{"model":"m"}}"#;
    match parse_gateway_frame(text).expect("frame should parse") {
        GatewayEvent::ProtocolRequest { params, .. } => {
            assert_eq!(
                params,
                GatewayRequestParams::Unknown(parse_json(r#"{"model":"m"}"#).expect("json"))
            );
        }
        _ => panic!("expected protocol request"),
    }
    let wrong_kind = r#"{"type":"req","id":"1","method":"agent","params":{"message":"m","timeoutSeconds":-1}}"#;
    match parse_gateway_frame(wrong_kind).expect("frame should parse") {
        GatewayEvent::ProtocolRequest { params, .. } => {
            assert!(matches!(params, GatewayRequestParams::Unknown(_)));
        }
        _ => panic!("expected protocol request"),
    }
    let not_object = r#"{"type":"req","id":"1","method":"sessions.list","params":[1]}"#;
    match parse_gateway_frame(not_object).expect("frame should parse") {
        GatewayEvent::ProtocolRequest { params, .. } => {
            assert_eq!(params, GatewayRequestParams::Unknown(parse_json("[1]").expect("json")));
        }
        _ => panic!("expected protocol request"),
    }
}

#[test]
fn fields_outside_the_schema_are_kept_in_extra() {
    let value = parse_json(r#"{"message":"hi","model":null,"zeta":1,"alpha":{"k":true}}"#).expect("json");
    let turn = AgentTurn::decode(&value).expect("agent turn");
    assert_eq!(turn.message, "hi");
    assert_eq!(turn.model, None);
    assert_eq!(
        turn.extra,
        object(vec![
            ("alpha", parse_json(r#"{"k":true}"#).expect("json")),
            ("zeta", JsonValue::unsigned(1)),
        ])
    );
    assert_eq!(render_json(&turn.encode()), r#"{"alpha":{"k":true},"message":"hi","zeta":1}"#);
}

#[test]
fn method_aliases_select_the_same_shape() {
    assert_eq!(resolve_request_kind("streams.open"), Some(RequestKind::StreamOpen));
    assert_eq!(resolve_request_kind("stream.open"), Some(RequestKind::StreamOpen));
    assert_eq!(resolve_request_kind("streams.send"), resolve_request_kind("stream.send"));
    assert_eq!(resolve_request_kind("streams.close"), resolve_request_kind("stream.close"));
    assert_eq!(resolve_request_kind("logs.subscribe"), resolve_request_kind("logs_subscribe"));
    assert_eq!(resolve_request_kind("logs.unsubscribe"), Some(RequestKind::LogsUnsubscribe));
    assert_eq!(resolve_request_kind("logs_unsubscribe"), Some(RequestKind::LogsUnsubscribe));
    assert_eq!(resolve_request_kind("system.probe"), resolve_request_kind("system_probe"));
    assert_eq!(resolve_request_kind("Agent"), None);
    assert_eq!(resolve_request_kind(""), None);
    assert_eq!(resolve_event_kind("exec.output"), Some(EventKind::ExecOutput));
    assert_eq!(resolve_event_kind("exec.stream"), Some(EventKind::ExecOutput));
    assert_eq!(resolve_event_kind("logs"), Some(EventKind::Logs));
    assert_eq!(resolve_event_kind("logs.entry"), Some(EventKind::Logs));
    assert_eq!(resolve_event_kind("logs.entries"), Some(EventKind::Logs));
    assert_eq!(resolve_event_kind("stream.data"), resolve_event_kind("streams.data"));
    assert_eq!(resolve_event_kind("stream.closed"), resolve_event_kind("streams.closed"));
    assert_eq!(resolve_event_kind("nothing"), None);
    let open = parse_request_params("stream.open", parse_json(r#"{"stream":"s"}"#).expect("json"));
    let mut expected = StreamOpenParams::default();
    expected.stream = "s".to_string();
    assert_eq!(open, GatewayRequestParams::StreamOpen(expected));
}

#[test]
fn response_payload_is_selected_by_its_type_field() {
    let text = r#"{"type":"res","id":"r1","ok":true,"payload":{"type":"hello-ok","protocol":3,"policy":{"tickIntervalMs":250}},"sessionKey":"s"}"#;
    match parse_gateway_frame(text).expect("frame should parse") {
        GatewayEvent::ProtocolResponse { id, ok, payload, error, session_key } => {
            assert_eq!(id, "r1");
            assert!(ok);
            assert_eq!(session_key, "s");
            assert_eq!(error, GatewayError::default());
            match payload {
                GatewayResponsePayload::HelloOk(HelloOk { payload_type, protocol, policy, auth, .. }) => {
                    assert_eq!(payload_type, "hello-ok");
                    assert_eq!(protocol, Some(3));
                    assert_eq!(policy.expect("policy").tick_interval_ms, Some(250));
                    assert!(auth.is_none());
                }
                _ => panic!("expected hello-ok"),
            }
        }
        _ => panic!("expected protocol response"),
    }
    let untyped = r#"{"type":"res","id":"r1","ok":true,"payload":{"streamId":"s-1"}}"#;
    match parse_gateway_frame(untyped).expect("frame should parse") {
        GatewayEvent::ProtocolResponse { payload, .. } => {
            assert_eq!(
                payload,
                GatewayResponsePayload::Unknown(parse_json(r#"{"streamId":"s-1"}"#).expect("json"))
            );
        }
        _ => panic!("expected protocol response"),
    }
}

#[test]
fn response_error_is_read_and_defaults_to_empty() {
    let text = r#"{"type":"res","id":"r1","ok":false,"error":{"code":"E_BUSY","message":"busy","retryable":true,"retryAfterMs":1500,"details":{"q":1}}}"#;
    match parse_gateway_frame(text).expect("frame should parse") {
        GatewayEvent::ProtocolResponse { ok, payload, error, .. } => {
            assert!(!ok);
            assert_eq!(payload, GatewayResponsePayload::Unknown(JsonValue::Null));
            assert_eq!(error.code, Some("E_BUSY".to_string()));
            assert_eq!(error.message, Some("busy".to_string()));
            assert_eq!(error.retryable, Some(true));
            assert_eq!(error.retry_after_ms, Some(1500));
            assert_eq!(error.details, parse_json(r#"{"q":1}"#));
        }
        _ => panic!("expected protocol response"),
    }
    let bad = r#"{"type":"res","id":"r1","ok":false,"error":"boom"}"#;
    match parse_gateway_frame(bad).expect("frame should parse") {
        GatewayEvent::ProtocolResponse { error, .. } => assert_eq!(error, GatewayError::default()),
        _ => panic!("expected protocol response"),
    }
}

#[test]
fn media_event_is_read_in_both_forms() {
    let snapshot = r#"{"data":"QQ==","encoding":"base64","compression":"gzip"}"#;
    let as_object = format!(r#"{{"type":"cameraSnapshot","data":{},"note":1}}"#, snapshot);
    let as_array = format!(r#"["cameraSnapshot",{}]"#, snapshot);
    let expected = MediaEvent::CameraSnapshot(
        CameraSnapshot::decode(&parse_json(snapshot).expect("json")).expect("snapshot"),
    );
    assert_eq!(MediaEvent::decode(&parse_json(&as_object).expect("json")), Some(MediaEvent::CameraSnapshot(
        CameraSnapshot::decode(&parse_json(snapshot).expect("json")).expect("snapshot"),
    )));
    assert_eq!(MediaEvent::decode(&parse_json(&as_array).expect("json")).as_ref(), Some(&expected));
    assert_eq!(MediaEvent::decode(&parse_json(r#"["cameraSnapshot"]"#).expect("json")), None);
    assert_eq!(MediaEvent::decode(&parse_json(r#"{"type":"video","data":{}}"#).expect("json")), None);
    assert_eq!(MediaEvent::decode(&parse_json(r#"{"type":"cameraSnapshot"}"#).expect("json")), None);
    assert_eq!(
        render_json(&expected.encode()),
        r#"{"data":{"compression":"gzip","data":"QQ==","encoding":"base64"},"type":"cameraSnapshot"}"#
    );
}

#[test]
fn exec_command_may_stand_under_one_alias_only() {
    let by_cmd = ExecParams::decode(&parse_json(r#"{"cmd":"ls"}"#).expect("json")).expect("exec");
    assert_eq!(by_cmd.command, "ls");
    assert!(by_cmd.args.is_empty());
    assert_eq!(by_cmd.extra, JsonObject::new());
    let by_program = ExecParams::decode(&parse_json(r#"{"program":"ls"}"#).expect("json")).expect("exec");
    assert_eq!(by_program.command, "ls");
    assert_eq!(ExecParams::decode(&parse_json(r#"{"cmd":"ls","command":"ls"}"#).expect("json")), None);
    assert_eq!(ExecParams::decode(&parse_json(r#"{"args":[]}"#).expect("json")), None);
    assert_eq!(ExecParams::decode(&parse_json(r#"{"command":"ls","args":null}"#).expect("json")), None);
    assert_eq!(ExecParams::decode(&parse_json(r#"{"command":"ls","args":["a",1]}"#).expect("json")), None);
}

#[test]
fn integers_must_fit_their_field() {
    let fits = parse_json(r#"{"stream":"s","cols":4294967295}"#).expect("json");
    assert_eq!(StreamOpenParams::decode(&fits).expect("open").cols, Some(4294967295));
    let too_large = parse_json(r#"{"stream":"s","cols":4294967296}"#).expect("json");
    assert_eq!(StreamOpenParams::decode(&too_large), None);
    let negative = parse_json(r#"{"stream":"s","cols":-1}"#).expect("json");
    assert_eq!(StreamOpenParams::decode(&negative), None);
    let float = parse_json(r#"{"stream":"s","cols":80.0}"#).expect("json");
    assert_eq!(StreamOpenParams::decode(&float), None);
    let exit = parse_json(r#"{"exitCode":-2147483648}"#).expect("json");
    assert_eq!(ExecOutput::decode(&exit).expect("output").exit_code, Some(i32::MIN));
    let exit_too_small = parse_json(r#"{"exitCode":-2147483649}"#).expect("json");
    assert_eq!(ExecOutput::decode(&exit_too_small), None);
    let stamp = parse_json(r#"{"timestampMs":9223372036854775807}"#).expect("json");
    assert_eq!(ExecOutput::decode(&stamp).expect("output").timestamp_ms, Some(i64::MAX));
    let stamp_too_large = parse_json(r#"{"timestampMs":9223372036854775808}"#).expect("json");
    assert_eq!(ExecOutput::decode(&stamp_too_large), None);
}

#[test]
fn sessions_close_defaults() {
    let close = SessionsCloseParams::default();
    assert!(close.archive);
    assert_eq!(close.session_key, "");
    assert_eq!(close.metadata, None);
    let decoded = SessionsCloseParams::decode(&parse_json(r#"{"sessionKey":"k"}"#).expect("json")).expect("close");
    assert!(!decoded.archive);
    assert_eq!(render_json(&decoded.encode()), r#"{"archive":false,"sessionKey":"k"}"#);
}

#[test]
fn request_frame_is_written_and_read_back() {
    let frame = GatewayRequestFrame::new(
        "req-5".to_string(),
        "agent",
        GatewayRequestParams::AgentTurn(AgentTurn {
            message: "hi".to_string(),
            model: None,
            thinking: None,
            timeout_seconds: Some(3),
            extra: JsonObject::new(),
        }),
        Some("main".to_string()),
    );
    let text = frame.to_json();
    assert_eq!(
        text,
        r#"{"id":"req-5","method":"agent","params":{"message":"hi","timeoutSeconds":3},"sessionKey":"main","type":"req"}"#
    );
    assert_eq!(GatewayRequestFrame::decode(&parse_json(&text).expect("json")), Some(frame));
    assert_eq!(decode_frame(&parse_json("{}").expect("json")), None);
}
