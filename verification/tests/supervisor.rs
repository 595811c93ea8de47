use gateway_client::api::connection::RequestError;
use gateway_client::api::events::GatewayEvent;
use gateway_client::funnel::{check_submission, send_gateway_request_frame, Funnel};
use gateway_client::json_text::parse_json;
use gateway_client::supervisor::{
    advance_backoff, heartbeat_expired, Action, ConnectionConfig, Input, Phase, SendKind,
    Supervisor,
};
use gateway_client::Duration;

fn config(max_sessions: Option<u32>) -> ConnectionConfig {
    ConnectionConfig {
        backoff_base: Duration::milliseconds(10),
        max_backoff: Duration::milliseconds(40),
        heartbeat_interval: Duration::milliseconds(50),
        heartbeat_timeout: Duration::milliseconds(200),
        max_sessions,
    }
}

fn disconnected(reason: &str) -> Action {
    Action::Emit(GatewayEvent::Disconnected { reason: reason.to_string() })
}

fn error(message: &str) -> Action {
    Action::Emit(GatewayEvent::Error { message: message.to_string() })
}

#[test]
fn reconnects_after_disconnect() {
    let (mut supervisor, first) = Supervisor::new(config(Some(2)));
    assert_eq!(first, vec![Action::Connect]);
    let inputs = vec![
        Input::ConnectSucceeded { now: 0 },
        Input::PeerClosed { reason: None },
        Input::BackoffElapsed,
        Input::ConnectSucceeded { now: 20_000 },
        Input::PeerClosed { reason: None },
    ];
    let mut connected_count = 0;
    let mut disconnected_count = 0;
    let mut lifecycle = Vec::new();
    for input in inputs {
        for action in supervisor.step(input) {
            match action {
                Action::Emit(GatewayEvent::Connected) => {
                    connected_count += 1;
                    lifecycle.push("connected");
                }
                Action::Emit(GatewayEvent::Disconnected { .. }) => {
                    disconnected_count += 1;
                    lifecycle.push("disconnected");
                }
                _ => {}
            }
        }
    }
    assert!(disconnected_count >= 1);
    assert_eq!(connected_count, 2);
    assert_eq!(disconnected_count, 2);
    assert_eq!(lifecycle, vec!["connected", "disconnected", "connected", "disconnected"]);
    assert!(supervisor.is_stopped());
    assert_eq!(supervisor.step(Input::BackoffElapsed), vec![]);
    assert_eq!(supervisor.step(Input::ConnectSucceeded { now: 1 }), vec![]);
    assert!(supervisor.is_stopped());
}

#[test]
fn heartbeat_timeout_disconnects() {
    let (mut supervisor, _) = Supervisor::new(ConnectionConfig {
        backoff_base: Duration::milliseconds(10),
        max_backoff: Duration::milliseconds(40),
        heartbeat_interval: Duration::milliseconds(50),
        heartbeat_timeout: Duration::milliseconds(120),
        max_sessions: Some(1),
    });
    supervisor.step(Input::ConnectSucceeded { now: 1_000 });
    assert_eq!(supervisor.step(Input::Tick { now: 51_000 }), vec![Action::SendPing]);
    assert_eq!(supervisor.step(Input::Tick { now: 101_000 }), vec![Action::SendPing]);
    let mut saw_disconnect = false;
    for action in supervisor.step(Input::Tick { now: 151_000 }) {
        if let Action::Emit(GatewayEvent::Disconnected { reason }) = action {
            assert!(reason.contains("Heartbeat"), "reason: {reason}");
            assert_eq!(reason, "Heartbeat timeout");
            saw_disconnect = true;
        }
    }
    assert!(saw_disconnect, "expected heartbeat disconnect");
    assert!(supervisor.is_stopped());
}

#[test]
fn heartbeat_expires_at_the_timeout() {
    assert!(!heartbeat_expired(1_000, 120_999, 120_000));
    assert!(heartbeat_expired(1_000, 121_000, 120_000));
    assert!(heartbeat_expired(1_000, 500_000, 120_000));
    assert!(!heartbeat_expired(1_000, 500, 120_000));
    assert!(heartbeat_expired(1_000, 500, 0));
    assert!(heartbeat_expired(0, u64::MAX, u64::MAX));
}

#[test]
fn inbound_traffic_postpones_the_timeout() {
    let (mut supervisor, _) = Supervisor::new(config(None));
    supervisor.step(Input::ConnectSucceeded { now: 0 });
    assert_eq!(supervisor.step(Input::Pong { now: 150_000 }), vec![]);
    assert_eq!(supervisor.step(Input::Tick { now: 250_000 }), vec![Action::SendPing]);
    assert_eq!(
        supervisor.step(Input::Ping { now: 300_000, payload: vec![1, 2] }),
        vec![Action::SendPong(vec![1, 2])]
    );
    assert_eq!(supervisor.step(Input::OtherFrame), vec![]);
    assert_eq!(supervisor.step(Input::Tick { now: 499_999 }), vec![Action::SendPing]);
    assert_eq!(
        supervisor.step(Input::Tick { now: 500_000 }),
        vec![Action::ReleaseFunnel, disconnected("Heartbeat timeout"), Action::Sleep(10_000)]
    );
    assert_eq!(supervisor.state().phase, Phase::Reconnecting);
}

#[test]
fn backoff_doubles_up_to_the_cap() {
    assert_eq!(advance_backoff(10, 40), 20);
    assert_eq!(advance_backoff(20, 40), 40);
    assert_eq!(advance_backoff(40, 40), 40);
    assert_eq!(advance_backoff(30, 40), 40);
    assert_eq!(advance_backoff(0, 40), 0);
    assert_eq!(advance_backoff(u64::MAX, u64::MAX), u64::MAX);
    assert_eq!(advance_backoff(u64::MAX / 2 + 1, u64::MAX - 1), u64::MAX - 1);

    let (mut supervisor, _) = Supervisor::new(config(None));
    let mut sleeps = Vec::new();
    let mut previous = 0;
    for attempt in 1..=6 {
        let actions = supervisor.step(Input::ConnectFailed { error: "refused".to_string() });
        let message = format!("Connect failed (attempt {}): refused", attempt);
        assert_eq!(actions.len(), 3);
        assert_eq!(actions[0], error(&message));
        assert_eq!(actions[1], disconnected(&message));
        match actions[2] {
            Action::Sleep(micros) => {
                assert!(micros >= previous);
                assert!(micros <= 40_000);
                previous = micros;
                sleeps.push(micros);
            }
            _ => panic!("expected a sleep"),
        }
        assert_eq!(supervisor.state().phase, Phase::Reconnecting);
        assert_eq!(supervisor.step(Input::BackoffElapsed), vec![Action::Connect]);
    }
    assert_eq!(sleeps, vec![10_000, 20_000, 40_000, 40_000, 40_000, 40_000]);
    supervisor.step(Input::ConnectSucceeded { now: 0 });
    assert_eq!(supervisor.state().backoff, 10_000);
    assert_eq!(supervisor.state().attempt, 0);
    let after_session = supervisor.step(Input::StreamEnded);
    assert_eq!(
        after_session,
        vec![Action::ReleaseFunnel, disconnected("Connection closed"), Action::Sleep(10_000)]
    );
    assert_eq!(supervisor.state().backoff, 20_000);
    assert_eq!(supervisor.state().attempt, 1);
    supervisor.step(Input::BackoffElapsed);
    let failed = supervisor.step(Input::ConnectFailed { error: "down".to_string() });
    assert_eq!(failed[0], error("Connect failed (attempt 2): down"));
    assert_eq!(failed[2], Action::Sleep(20_000));
}

#[test]
fn session_events_and_teardown_reasons() {
    let (mut supervisor, _) = Supervisor::new(config(None));
    assert_eq!(
        supervisor.step(Input::ConnectSucceeded { now: 5 }),
        vec![Action::Emit(GatewayEvent::Connected), Action::InstallFunnel]
    );
    assert_eq!(
        supervisor.step(Input::Text { now: 6, text: "plain words".to_string() }),
        vec![Action::Emit(GatewayEvent::Message { message: "plain words".to_string() })]
    );
    let frame = r#"{"type":"res","id":"r1","ok":true}"#;
    let decoded = supervisor.step(Input::Text { now: 7, text: frame.to_string() });
    assert!(matches!(&decoded[0], Action::Emit(GatewayEvent::ProtocolResponse { id, ok: true, .. }) if id == "r1"));
    assert_eq!(
        supervisor.step(Input::Binary { now: 8, data: vec![9, 8] }),
        vec![Action::Emit(GatewayEvent::Binary { data: vec![9, 8] })]
    );
    assert_eq!(
        supervisor.step(Input::Outbound { payload: "{}".to_string() }),
        vec![Action::SendText("{}".to_string())]
    );
    assert_eq!(supervisor.state().last_inbound, 8);
    assert_eq!(
        supervisor.step(Input::PeerClosed { reason: Some("going away".to_string()) }),
        vec![Action::ReleaseFunnel, disconnected("going away"), Action::Sleep(10_000)]
    );

    let reasons: Vec<(Input, Vec<Action>)> = vec![
        (Input::PeerClosed { reason: Some(String::new()) }, vec![disconnected("Server closed connection")]),
        (Input::PeerClosed { reason: None }, vec![disconnected("Server closed connection")]),
        (Input::StreamEnded, vec![disconnected("Connection closed")]),
        (Input::OutboundClosed, vec![disconnected("Request channel closed")]),
        (
            Input::ReadFailed { error: "reset".to_string() },
            vec![error("reset"), disconnected("WebSocket error: reset")],
        ),
        (
            Input::SendFailed { kind: SendKind::Pong, error: "e".to_string() },
            vec![error("e"), disconnected("WebSocket pong error: e")],
        ),
        (
            Input::SendFailed { kind: SendKind::Request, error: "e".to_string() },
            vec![error("e"), disconnected("Request send error: e")],
        ),
        (
            Input::SendFailed { kind: SendKind::Ping, error: "e".to_string() },
            vec![error("e"), disconnected("Heartbeat send error: e")],
        ),
    ];
    for (input, expected) in reasons {
        let (mut s, _) = Supervisor::new(config(None));
        s.step(Input::ConnectSucceeded { now: 0 });
        let actions = s.step(input);
        assert_eq!(actions[0], Action::ReleaseFunnel);
        assert_eq!(actions[1..actions.len() - 1], expected[..]);
        assert_eq!(actions[actions.len() - 1], Action::Sleep(10_000));
        assert_eq!(s.state().sessions_completed, 1);
    }
}

#[test]
fn sink_closing_stops_at_once() {
    let (mut connecting, _) = Supervisor::new(config(None));
    assert_eq!(connecting.step(Input::SinkClosed), vec![]);
    assert!(connecting.is_stopped());

    let (mut live, _) = Supervisor::new(config(None));
    live.step(Input::ConnectSucceeded { now: 0 });
    assert_eq!(live.step(Input::SinkClosed), vec![Action::ReleaseFunnel]);
    assert!(live.is_stopped());
    assert_eq!(live.step(Input::Tick { now: 1 }), vec![]);

    let (mut waiting, _) = Supervisor::new(config(None));
    waiting.step(Input::ConnectFailed { error: "x".to_string() });
    assert_eq!(waiting.step(Input::SinkClosed), vec![]);
    assert!(waiting.is_stopped());
    assert_eq!(waiting.step(Input::BackoffElapsed), vec![]);
}

#[test]
fn inputs_out_of_phase_change_nothing() {
    let (mut supervisor, _) = Supervisor::new(config(None));
    let before = supervisor.state();
    assert_eq!(supervisor.step(Input::Tick { now: 1_000_000 }), vec![]);
    assert_eq!(supervisor.step(Input::BackoffElapsed), vec![]);
    assert_eq!(supervisor.step(Input::Text { now: 3, text: "x".to_string() }), vec![]);
    assert_eq!(supervisor.state(), before);
}

#[test]
fn default_config_and_negative_spans() {
    let defaults = ConnectionConfig::default();
    assert_eq!(defaults.backoff_base, Duration::milliseconds(500));
    assert_eq!(defaults.max_backoff, Duration::seconds(10));
    assert_eq!(defaults.heartbeat_interval, Duration::seconds(10));
    assert_eq!(defaults.heartbeat_timeout, Duration::seconds(30));
    assert_eq!(defaults.max_sessions, None);
    let (supervisor, _) = Supervisor::new(ConnectionConfig {
        backoff_base: Duration::milliseconds(-5),
        max_backoff: Duration::seconds(1),
        heartbeat_interval: Duration::seconds(1),
        heartbeat_timeout: Duration::microseconds(-1),
        max_sessions: None,
    });
    assert_eq!(supervisor.state().backoff, 0);
    assert_eq!(supervisor.state().backoff_base, 0);
    assert_eq!(supervisor.state().max_backoff, 1_000_000);
    assert_eq!(supervisor.state().heartbeat_timeout, 0);
}

#[test]
fn funnel_hands_requests_on_in_order() {
    let mut funnel = Funnel::new();
    assert!(!funnel.is_live());
    assert_eq!(funnel.submit("a".to_string()), Err(RequestError::NotConnected));
    assert_eq!(funnel.take(), None);
    funnel.install();
    assert!(funnel.is_live());
    assert_eq!(funnel.take(), None);
    assert_eq!(funnel.submit("a".to_string()), Ok(()));
    assert_eq!(funnel.submit("b".to_string()), Ok(()));
    assert_eq!(funnel.submit("c".to_string()), Ok(()));
    assert_eq!(funnel.take(), Some("a".to_string()));
    assert_eq!(funnel.take(), Some("b".to_string()));
    funnel.close();
    assert!(!funnel.is_live());
    assert_eq!(funnel.take(), None);
    assert_eq!(funnel.submit("d".to_string()), Err(RequestError::ConnectionClosed));
    funnel.release();
    assert_eq!(funnel.submit("d".to_string()), Err(RequestError::NotConnected));
    funnel.close();
    assert_eq!(funnel.submit("d".to_string()), Err(RequestError::NotConnected));
    funnel.install();
    funnel.submit("x".to_string()).expect("live");
    funnel.install();
    assert_eq!(funnel.take(), None);
}

#[test]
fn only_request_frames_are_submitted() {
    let mut funnel = Funnel::new();
    let request = r#" {"type":"req","id":"r1","method":"exec","params":{"cmd":"ls","cwd":null},"more":1} "#;
    assert_eq!(
        send_gateway_request_frame(request.to_string(), &mut funnel),
        Err(RequestError::NotConnected)
    );
    assert!(RequestError::NotConnected.message().contains("gateway is not connected"));
    assert_eq!(funnel.take(), None);
    assert!(!funnel.is_live());
    assert_eq!(
        send_gateway_request_frame(r#"{"type":"res","id":"r1","method":"m","params":{}}"#.to_string(), &mut funnel),
        Err(RequestError::NotRequestFrame)
    );
    funnel.install();
    assert_eq!(send_gateway_request_frame(request.to_string(), &mut funnel), Ok(()));
    let plain = r#"{"type":"req","id":"r2","method":"agent","params":{"message":"hi"}}"#;
    assert_eq!(send_gateway_request_frame(plain.to_string(), &mut funnel), Ok(()));
    assert_eq!(funnel.take(), Some(request.to_string()));
    assert_eq!(funnel.take(), Some(plain.to_string()));
    assert_eq!(funnel.take(), None);
    let rejected = [
        (r#"{"type":"event","id":"r1","method":"m","params":{}}"#, RequestError::NotRequestFrame),
        (r#"{"type":"req","id":"r1","method":"m"}"#, RequestError::InvalidJson),
        (r#"{"type":"req","id":"r1","params":{}}"#, RequestError::InvalidJson),
        (r#"{"type":"req","id":"r1","method":"m","params":{},"sessionKey":5}"#, RequestError::InvalidJson),
        (r#"{"id":"r1","method":"m","params":{}}"#, RequestError::InvalidJson),
        ("[]", RequestError::InvalidJson),
        ("nonsense", RequestError::InvalidJson),
        ("", RequestError::InvalidJson),
    ];
    for (text, expected) in rejected {
        assert_eq!(send_gateway_request_frame(text.to_string(), &mut funnel), Err(expected));
        assert_eq!(funnel.take(), None);
    }
    funnel.close();
    let closed = send_gateway_request_frame(request.to_string(), &mut funnel);
    assert_eq!(closed, Err(RequestError::ConnectionClosed));
    assert!(closed.unwrap_err().message().contains("connection is closed"));
    assert_eq!(
        check_submission(parse_json(r#"{"type":"req","id":"1","method":"x.y","params":[1],"sessionKey":"k"}"#)),
        Ok(())
    );
    assert_eq!(
        check_submission(parse_json(r#"{"type":"ack","id":"1","method":"x.y","params":[1]}"#)),
        Err(RequestError::NotRequestFrame)
    );
    assert_eq!(check_submission(None), Err(RequestError::InvalidJson));
}
