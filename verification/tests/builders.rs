use gateway_client::api::connection::{
    build_request_json, close_metadata, encode_camera_snapshot, encode_compressed_frame,
    encode_frame_bytes,
    ensure_elevated_permission, exec_command_extra, metadata_from_json, next_request_id,
    parse_metadata, permission_grants_shell, GatewayClient, RequestCounter, RequestError,
};
use gateway_client::api::events::{
    parse_gateway_frame, CameraSnapshot, GatewayEvent, GatewayRequestParams, SystemProbeParams,
};
use gateway_client::json::{JsonObject, JsonValue};
use gateway_client::json_text::parse_json;

fn client() -> GatewayClient {
    GatewayClient::new("ws://gateway.test/socket".to_string())
}

fn elevated() -> Option<String> {
    Some(r#"{"elevated":true}"#.to_string())
}

fn request_parts(text: &str) -> (String, String, GatewayRequestParams, String) {
    match parse_gateway_frame(text).expect("request should decode") {
        GatewayEvent::ProtocolRequest { id, method, params, session_key } => {
            (id, method, params, session_key)
        }
        _ => panic!("expected protocol request"),
    }
}

fn metadata_of(params: &GatewayRequestParams) -> JsonObject {
    match params {
        GatewayRequestParams::SessionsClose(close) => close.metadata.clone().expect("metadata"),
        _ => panic!("expected sessions.close parameters"),
    }
}

#[test]
fn client_keeps_its_url() {
    let c = client();
    assert_eq!(c.url, "ws://gateway.test/socket");
    assert_eq!(c.get_url(), "ws://gateway.test/socket");
}

#[test]
fn request_ids_count_up_from_one() {
    let mut counter = RequestCounter::new();
    assert_eq!(next_request_id("req", &mut counter), "req-1");
    assert_eq!(next_request_id("req", &mut counter), "req-2");
    assert_eq!(next_request_id("job", &mut counter), "job-3");
    for _ in 0..6 {
        next_request_id("req", &mut counter);
    }
    assert_eq!(client().next_request_id(&mut counter), "req-10");
    for _ in 0..89 {
        counter.take();
    }
    assert_eq!(client().next_request_id(&mut counter), "req-100");
    assert_eq!(counter.take(), 101);
}

#[test]
fn sessions_list_request_text_is_exact() {
    let text = client()
        .sessions_list_request("r1".to_string(), Some(5), None, None)
        .expect("request");
    assert_eq!(text, r#"{"id":"r1","method":"sessions.list","params":{"limit":5},"type":"req"}"#);
    let with_key = client()
        .sessions_list_request("r2".to_string(), None, Some("c".to_string()), Some("main".to_string()))
        .expect("request");
    assert_eq!(
        with_key,
        r#"{"id":"r2","method":"sessions.list","params":{"cursor":"c"},"sessionKey":"main","type":"req"}"#
    );
}

#[test]
fn metadata_is_optional_and_must_be_an_object() {
    assert_eq!(parse_metadata(None), Ok(None));
    assert_eq!(parse_metadata(Some(String::new())), Ok(None));
    assert_eq!(parse_metadata(Some("  \n\t ".to_string())), Ok(None));
    assert_eq!(parse_metadata(Some("null".to_string())), Ok(None));
    assert_eq!(parse_metadata(Some(" null ".to_string())), Ok(None));
    let mut expected = JsonObject::new();
    expected.insert("a".to_string(), JsonValue::unsigned(1));
    assert_eq!(parse_metadata(Some(r#" {"a":1} "#.to_string())), Ok(Some(expected)));
    assert_eq!(parse_metadata(Some("[1]".to_string())), Err(RequestError::MetadataNotObject));
    assert_eq!(parse_metadata(Some("7".to_string())), Err(RequestError::MetadataNotObject));
    assert_eq!(parse_metadata(Some("\"x\"".to_string())), Err(RequestError::MetadataNotObject));
    assert_eq!(parse_metadata(Some("{".to_string())), Err(RequestError::InvalidJson));
    assert_eq!(metadata_from_json(None), Err(RequestError::InvalidJson));
    assert_eq!(metadata_from_json(Some(JsonValue::Null)), Ok(None));
    assert_eq!(metadata_from_json(Some(JsonValue::Bool(true))), Err(RequestError::MetadataNotObject));
    assert_eq!(RequestError::MetadataNotObject.message(), "metadata must be a JSON object");
}

#[test]
fn sessions_spawn_request_carries_metadata() {
    let text = client()
        .sessions_spawn_request(
            "r3".to_string(),
            Some("parent".to_string()),
            Some("label".to_string()),
            Some(r#"{"team":"a"}"#.to_string()),
            None,
        )
        .expect("request");
    assert_eq!(
        text,
        r#"{"id":"r3","method":"sessions.spawn","params":{"label":"label","metadata":{"team":"a"},"parentSessionKey":"parent"},"type":"req"}"#
    );
    let failed = client().sessions_spawn_request("r3".to_string(), None, None, Some("[]".to_string()), None);
    assert_eq!(failed, Err(RequestError::MetadataNotObject));
}

#[test]
fn sessions_close_archives_unless_told_otherwise() {
    let plain = client()
        .sessions_close_request("r4".to_string(), "s1".to_string(), None, None)
        .expect("request");
    assert_eq!(
        plain,
        r#"{"id":"r4","method":"sessions.close","params":{"archive":true,"metadata":{"archive":true},"sessionKey":"s1"},"sessionKey":"s1","type":"req"}"#
    );
    let (_, method, params, session_key) = request_parts(&plain);
    assert_eq!(method, "sessions.close");
    assert_eq!(session_key, "s1");
    assert_eq!(metadata_of(&params).get("archive"), Some(&JsonValue::Bool(true)));

    let kept = client()
        .sessions_close_request(
            "r5".to_string(),
            "s1".to_string(),
            Some("done".to_string()),
            Some(r#"{"archive":false,"note":"n"}"#.to_string()),
        )
        .expect("request");
    let (_, _, params, _) = request_parts(&kept);
    let metadata = metadata_of(&params);
    assert_eq!(metadata.get("archive"), Some(&JsonValue::Bool(false)));
    assert_eq!(metadata.get("note"), Some(&JsonValue::text("n")));
    assert_eq!(metadata.len(), 2);

    let other = client()
        .sessions_close_request("r6".to_string(), "s1".to_string(), None, Some(r#"{"note":"n"}"#.to_string()))
        .expect("request");
    let (_, _, params, _) = request_parts(&other);
    let metadata = metadata_of(&params);
    assert_eq!(metadata.get("archive"), Some(&JsonValue::Bool(true)));
    assert_eq!(metadata.get("note"), Some(&JsonValue::text("n")));

    let odd = client()
        .sessions_close_request("r7".to_string(), "s1".to_string(), None, Some(r#"{"archive":"later"}"#.to_string()))
        .expect("request");
    let (_, _, params, _) = request_parts(&odd);
    assert_eq!(metadata_of(&params).get("archive"), Some(&JsonValue::text("later")));

    let failed = client().sessions_close_request("r8".to_string(), "s1".to_string(), None, Some("3".to_string()));
    assert_eq!(failed, Err(RequestError::MetadataNotObject));
}

#[test]
fn close_metadata_adds_archive_once() {
    let added = close_metadata(None);
    assert_eq!(added.len(), 1);
    assert_eq!(added.get("archive"), Some(&JsonValue::Bool(true)));
    let mut own = JsonObject::new();
    own.insert("archive".to_string(), JsonValue::Bool(false));
    let kept = close_metadata(Some(own));
    assert_eq!(kept.len(), 1);
    assert_eq!(kept.get("archive"), Some(&JsonValue::Bool(false)));
}

#[test]
fn permission_must_say_elevated_true() {
    assert_eq!(ensure_elevated_permission(elevated()), Ok(()));
    assert_eq!(ensure_elevated_permission(Some(" {\"elevated\":true,\"x\":1}\n".to_string())), Ok(()));
    let refused = [
        None,
        Some(r#"{"elevated":false}"#.to_string()),
        Some(r#"{"elevated":"true"}"#.to_string()),
        Some(r#"{"elevated":1}"#.to_string()),
        Some(r#"{}"#.to_string()),
        Some("true".to_string()),
        Some("[true]".to_string()),
        Some("null".to_string()),
        Some("".to_string()),
        Some("not json".to_string()),
    ];
    for descriptor in refused {
        let result = ensure_elevated_permission(descriptor);
        assert_eq!(result, Err(RequestError::NotElevated));
        assert!(result.unwrap_err().message().contains("elevated permission"));
    }
    assert_eq!(RequestError::NotElevated.message(), "Shell access requires elevated permission.");
    assert!(permission_grants_shell(&parse_json(r#"{"elevated":true}"#)));
    assert!(!permission_grants_shell(&parse_json(r#"{"elevated":null}"#)));
    assert!(!permission_grants_shell(&None));
}

#[test]
fn shell_requests_need_elevation() {
    let c = client();
    let denied = Some(r#"{"elevated":false}"#.to_string());
    let open = c.interactive_shell_open_request("r".to_string(), None, None, None, None, denied.clone(), None);
    let send = c.interactive_shell_send_request("r".to_string(), None, vec![1], None, denied.clone(), None);
    let resize = c.interactive_shell_resize_request("r".to_string(), None, 80, 24, denied.clone(), None);
    let close = c.interactive_shell_close_request("r".to_string(), None, None, denied.clone(), None);
    let exec = c.exec_command_request(
        "r".to_string(), "ls".to_string(), vec![], None, None, None, None, None, None, None, None, None, None,
        denied, None,
    );
    for result in [open, send, resize, close, exec] {
        assert_eq!(result, Err(RequestError::NotElevated));
        assert!(result.unwrap_err().message().contains("elevated permission"));
    }
    let missing = c.interactive_shell_open_request("r".to_string(), None, None, None, None, None, None);
    assert_eq!(missing, Err(RequestError::NotElevated));
    let before_metadata = c.interactive_shell_open_request(
        "r".to_string(), None, None, None, Some("[]".to_string()), None, None,
    );
    assert_eq!(before_metadata, Err(RequestError::NotElevated));
    let bad_metadata = c.interactive_shell_open_request(
        "r".to_string(), None, None, None, Some("[]".to_string()), elevated(), None,
    );
    assert_eq!(bad_metadata, Err(RequestError::MetadataNotObject));
}

#[test]
fn shell_requests_use_the_stream_methods() {
    let c = client();
    let open = c
        .interactive_shell_open_request(
            "r1".to_string(), Some(80), Some(24), Some("xterm".to_string()), None, elevated(), None,
        )
        .expect("open");
    assert_eq!(
        open,
        r#"{"id":"r1","method":"streams.open","params":{"cols":80,"rows":24,"stream":"interactive_shell","term":"xterm"},"type":"req"}"#
    );
    let send = c
        .interactive_shell_send_request("r2".to_string(), Some("s-1".to_string()), b"ls\n".to_vec(), None, elevated(), None)
        .expect("send");
    assert_eq!(
        send,
        r#"{"id":"r2","method":"streams.send","params":{"channel":"stdin","data":"bHMK","encoding":"base64","stream":"interactive_shell","streamId":"s-1"},"type":"req"}"#
    );
    let send_elsewhere = c
        .interactive_shell_send_request("r2".to_string(), None, vec![], Some("ctl".to_string()), elevated(), None)
        .expect("send");
    assert_eq!(
        send_elsewhere,
        r#"{"id":"r2","method":"streams.send","params":{"channel":"ctl","data":"","encoding":"base64","stream":"interactive_shell"},"type":"req"}"#
    );
    let resize = c
        .interactive_shell_resize_request("r3".to_string(), Some("s-1".to_string()), 120, 40, elevated(), None)
        .expect("resize");
    assert_eq!(
        resize,
        r#"{"id":"r3","method":"streams.send","params":{"cols":120,"event":"resize","rows":40,"stream":"interactive_shell","streamId":"s-1"},"type":"req"}"#
    );
    let close = c
        .interactive_shell_close_request("r4".to_string(), Some("s-1".to_string()), Some("bye".to_string()), elevated(), Some("k".to_string()))
        .expect("close");
    assert_eq!(
        close,
        r#"{"id":"r4","method":"streams.close","params":{"reason":"bye","stream":"interactive_shell","streamId":"s-1"},"sessionKey":"k","type":"req"}"#
    );
    for (text, method) in [(open, "streams.open"), (send, "streams.send"), (resize, "streams.send"), (close, "streams.close")] {
        let (_, decoded_method, params, _) = request_parts(&text);
        assert_eq!(decoded_method, method);
        assert!(!matches!(params, GatewayRequestParams::Unknown(_)));
    }
}

#[test]
fn camera_snapshot_round_trip() {
    let bytes: Vec<u8> = (0..200u32).map(|i| (i % 7) as u8).collect();
    let plain = client()
        .camera_snap_request("r1".to_string(), bytes.clone(), Some("jpeg".to_string()), Some(2), Some(3), Some(-5), false, None)
        .expect("request");
    let (_, method, params, _) = request_parts(&plain);
    assert_eq!(method, "camera_snap");
    let plain_snapshot = match params {
        GatewayRequestParams::CameraSnapshot(s) => s,
        _ => panic!("expected camera snapshot"),
    };
    assert_eq!(plain_snapshot.encoding, "base64");
    assert_eq!(plain_snapshot.compression, None);
    assert_eq!(plain_snapshot.format, Some("jpeg".to_string()));
    assert_eq!(plain_snapshot.width, Some(2));
    assert_eq!(plain_snapshot.height, Some(3));
    assert_eq!(plain_snapshot.timestamp_ms, Some(-5));
    assert!(!plain.contains("compression"));

    let packed = client()
        .camera_snap_request("r2".to_string(), bytes.clone(), None, None, None, None, true, None)
        .expect("request");
    let (_, _, params, _) = request_parts(&packed);
    let packed_snapshot = match params {
        GatewayRequestParams::CameraSnapshot(s) => s,
        _ => panic!("expected camera snapshot"),
    };
    assert_eq!(packed_snapshot.encoding, "base64");
    assert_eq!(packed_snapshot.compression, Some("gzip".to_string()));
    assert_ne!(packed_snapshot.data, plain_snapshot.data);
    assert!(packed_snapshot.data.starts_with("H4sI"));
}

#[test]
fn frame_bytes_are_base64_text() {
    assert_eq!(encode_frame_bytes(&b"hello".to_vec(), false), Ok(("aGVsbG8=".to_string(), None)));
    assert_eq!(encode_frame_bytes(&Vec::new(), false), Ok((String::new(), None)));
    assert_eq!(encode_frame_bytes(&vec![0xff, 0xfe, 0xfd], false), Ok(("//79".to_string(), None)));
    let (data, compression) = encode_frame_bytes(&b"hello".to_vec(), true).expect("compressed");
    assert_eq!(compression, Some("gzip".to_string()));
    assert_ne!(data, "aGVsbG8=");
    assert!(data.starts_with("H4sI"));
    let snapshot = encode_camera_snapshot(b"hello".to_vec(), None, Some(1), None, None, false).expect("snapshot");
    assert_eq!(
        snapshot,
        CameraSnapshot {
            data: "aGVsbG8=".to_string(),
            encoding: "base64".to_string(),
            compression: None,
            format: None,
            width: Some(1),
            height: None,
            timestamp_ms: None,
            extra: JsonObject::new(),
        }
    );
    assert_eq!(CameraSnapshot::decode(&snapshot.encode()), Some(snapshot));
}

#[test]
fn exec_requests() {
    let plain = client()
        .exec_request(
            "r1".to_string(), "ls".to_string(), vec!["-la".to_string()], Some("/".to_string()),
            Some(r#"{"A":"1"}"#.to_string()), Some("in".to_string()), Some(9), Some(false), Some("e1".to_string()),
            Some(true), None,
        )
        .expect("request");
    assert_eq!(
        plain,
        r#"{"id":"r1","method":"exec","params":{"args":["-la"],"command":"ls","cwd":"/","env":{"A":"1"},"execId":"e1","killOnDrop":true,"stdin":"in","stream":false,"timeoutMs":9},"type":"req"}"#
    );
    let bad_env = client().exec_request(
        "r1".to_string(), "ls".to_string(), vec![], None, Some("1".to_string()), None, None, None, None, None, None,
    );
    assert_eq!(bad_env, Err(RequestError::MetadataNotObject));
    let command = client()
        .exec_command_request(
            "r2".to_string(), "top".to_string(), vec![], Some(b"q".to_vec()), None, None, None, None, None,
            Some(true), Some(80), Some(24), Some("xterm".to_string()), elevated(), None,
        )
        .expect("request");
    assert_eq!(
        command,
        r#"{"id":"r2","method":"exec","params":{"args":[],"cols":80,"command":"top","pty":true,"rows":24,"stdin":"cQ==","stdinEncoding":"base64","stream":true,"term":"xterm"},"type":"req"}"#
    );
    let without_input = client()
        .exec_command_request(
            "r3".to_string(), "top".to_string(), vec![], None, None, None, None, None, None, None, None, None, None,
            elevated(), None,
        )
        .expect("request");
    assert_eq!(
        without_input,
        r#"{"id":"r3","method":"exec","params":{"args":[],"command":"top","stream":true},"type":"req"}"#
    );
    let extra = exec_command_extra(None, Some(1), None, None, true);
    assert_eq!(extra.len(), 2);
    assert_eq!(extra.get("cols"), Some(&JsonValue::unsigned(1)));
    assert_eq!(extra.get("stdinEncoding"), Some(&JsonValue::text("base64")));
}

#[test]
fn remaining_builders() {
    let c = client();
    assert_eq!(
        c.logs_subscribe_request(
            "r1".to_string(), Some("info".to_string()), Some(10), Some(-1), Some(true),
            Some(r#"{"target":"gw"}"#.to_string()), None,
        ),
        Ok(r#"{"id":"r1","method":"logs.subscribe","params":{"filters":{"target":"gw"},"includeInternal":true,"level":"info","since":-1,"tail":10},"type":"req"}"#.to_string())
    );
    assert_eq!(
        c.logs_subscribe_request("r1".to_string(), None, None, None, None, Some("x".to_string()), None),
        Err(RequestError::InvalidJson)
    );
    assert_eq!(
        c.logs_unsubscribe_request("r2".to_string(), Some("sub".to_string()), None),
        Ok(r#"{"id":"r2","method":"logs.unsubscribe","params":{"subscriptionId":"sub"},"type":"req"}"#.to_string())
    );
    assert_eq!(
        c.system_probe_request("r3".to_string(), Some(true), None, Some(false), None),
        Ok(r#"{"id":"r3","method":"system.probe","params":{"gateway":false,"network":true},"type":"req"}"#.to_string())
    );
    assert_eq!(
        c.agent_turn_request("r4".to_string(), "hi".to_string(), Some("m".to_string()), None, Some(30), None),
        Ok(r#"{"id":"r4","method":"agent","params":{"message":"hi","model":"m","timeoutSeconds":30},"type":"req"}"#.to_string())
    );
    assert_eq!(
        c.system_event_request("r5".to_string(), Some("t".to_string()), Some("now".to_string()), Some("k".to_string())),
        Ok(r#"{"id":"r5","method":"system-event","params":{"mode":"now","sessionKey":"k","text":"t"},"sessionKey":"k","type":"req"}"#.to_string())
    );
    assert_eq!(
        build_request_json(
            "r6".to_string(),
            "system.probe",
            GatewayRequestParams::SystemProbe(SystemProbeParams::default()),
            None,
        ),
        r#"{"id":"r6","method":"system.probe","params":{},"type":"req"}"#
    );
}

#[test]
fn error_messages() {
    assert_eq!(RequestError::InvalidJson.message(), "invalid JSON");
    assert_eq!(RequestError::CompressionFailed.message(), "frame compression failed");
    assert_eq!(
        RequestError::NotRequestFrame.message(),
        "Only GatewayRequestFrame payloads with type=req can be sent"
    );
    assert_eq!(RequestError::NotConnected.message(), "gateway is not connected");
    assert_eq!(RequestError::ConnectionClosed.message(), "Failed to send request: connection is closed");
}

#[test]
fn compressed_frames_name_their_compression() {
    assert_eq!(
        encode_compressed_frame(Some(vec![0x1f, 0x8b, 0x08])),
        Ok(("H4sI".to_string(), Some("gzip".to_string())))
    );
    assert_eq!(encode_compressed_frame(Some(Vec::new())), Ok((String::new(), Some("gzip".to_string()))));
    assert_eq!(encode_compressed_frame(None), Err(RequestError::CompressionFailed));
}
