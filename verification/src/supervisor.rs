//! The connection supervisor as a state machine: from the state and what
//! just happened to the next state and what to do. The caller owns the
//! transport, the clock and the sink, performs the actions in order and
//! reports what happens next.

use crate::api::events::frame::{
    parse_gateway_frame, text_frame_of, GatewayEvent, GatewayEventModel,
};
use crate::duration::Duration;
use crate::text::{decimal, join2, unsigned_text};
use vstd::prelude::*;
use vstd::string::*;

verus! {

/// What the supervisor is configured with.
#[derive(Clone, Copy, Debug)]
pub struct ConnectionConfig {
    /// The delay before the first reconnection.
    pub backoff_base: Duration,
    /// The longest delay between two attempts.
    pub max_backoff: Duration,
    /// The time between two liveness checks.
    pub heartbeat_interval: Duration,
    /// How long a connection may stay silent before it counts as dead.
    pub heartbeat_timeout: Duration,
    /// After how many completed sessions the supervisor stops, if ever.
    pub max_sessions: Option<u32>,
}

impl Default for ConnectionConfig {
    /// Half a second of first delay, ten seconds at most, a liveness check
    /// every ten seconds, thirty seconds of silence allowed, no cap.
    fn default() -> (r: ConnectionConfig)
        ensures
            r.backoff_base@ == 500_000,
            r.max_backoff@ == 10_000_000,
            r.heartbeat_interval@ == 10_000_000,
            r.heartbeat_timeout@ == 30_000_000,
            r.max_sessions is None,
    {
        ConnectionConfig {
            backoff_base: Duration::milliseconds(500),
            max_backoff: Duration::seconds(10),
            heartbeat_interval: Duration::seconds(10),
            heartbeat_timeout: Duration::seconds(30),
            max_sessions: None,
        }
    }
}

/// The delay that follows `current`: twice as long, and `max` at most.
pub open spec fn next_backoff(current: nat, max: nat) -> nat {
    if 2 * current <= max {
        2 * current
    } else {
        max
    }
}

/// The delay before the attempt that follows `failures` failures in a row,
/// from the base delay `base`.
pub open spec fn backoff_after(base: nat, max: nat, failures: nat) -> nat
    decreases failures,
{
    if failures == 0 {
        base
    } else {
        next_backoff(backoff_after(base, max, (failures - 1) as nat), max)
    }
}

/// Computes the delay that follows `current`.
pub fn advance_backoff(current: u64, max: u64) -> (r: u64)
    ensures
        r == next_backoff(current as nat, max as nat),
{
    match current.checked_mul(2) {
        Some(doubled) => if doubled <= max {
            doubled
        } else {
            max
        },
        None => max,
    }
}

/// Whether a connection that last heard from its peer at `last_inbound` is
/// dead at `now`: the silence has lasted for the timeout or longer.
pub open spec fn silent_too_long(last_inbound: u64, now: u64, timeout: u64) -> bool {
    elapsed_since(last_inbound, now) >= timeout
}

/// The time from `earlier` to `now`; none where `now` is the earlier one.
pub open spec fn elapsed_since(earlier: u64, now: u64) -> int {
    if now >= earlier {
        now - earlier
    } else {
        0
    }
}

/// Decides at a liveness check whether the connection is dead.
pub fn heartbeat_expired(last_inbound: u64, now: u64, timeout: u64) -> (r: bool)
    ensures
        r == silent_too_long(last_inbound, now, timeout),
{
    if now >= last_inbound {
        now - last_inbound >= timeout
    } else {
        timeout == 0
    }
}

/// Where the supervisor stands.
#[derive(Clone, Copy, Debug, PartialEq, Eq, Structural)]
pub enum Phase {
    /// An attempt to connect is under way.
    Connecting,
    /// A session is live.
    Connected,
    /// The delay before the next attempt is running.
    Reconnecting,
    /// The end: nothing more is done or emitted.
    Stopped,
}

/// What failed to be sent.
#[derive(Clone, Copy, Debug, PartialEq, Eq, Structural)]
pub enum SendKind {
    Pong,
    Request,
    Ping,
}

/// What the caller reports to the supervisor. Times are in microseconds on
/// the caller's monotonic clock.
#[allow(inconsistent_fields)]
#[derive(Debug)]
pub enum Input {
    ConnectSucceeded { now: u64 },
    ConnectFailed { error: String },
    Text { now: u64, text: String },
    Ping { now: u64, payload: Vec<u8> },
    Pong { now: u64 },
    Binary { now: u64, data: Vec<u8> },
    /// A frame of any other kind arrived.
    OtherFrame,
    /// The peer closed the connection, with or without a reason.
    PeerClosed { reason: Option<String> },
    ReadFailed { error: String },
    /// The transport ended without a close frame.
    StreamEnded,
    /// A request was handed in for sending.
    Outbound { payload: String },
    /// The source of outbound requests is gone.
    OutboundClosed,
    SendFailed { kind: SendKind, error: String },
    /// The heartbeat interval has passed.
    Tick { now: u64 },
    /// The delay before the next attempt has passed.
    BackoffElapsed,
    /// The host no longer takes events.
    SinkClosed,
}

/// What the caller is to do.
#[derive(Debug, PartialEq, Eq)]
pub enum Action {
    Connect,
    Emit(GatewayEvent),
    /// Make this session the one that outbound requests are handed to.
    InstallFunnel,
    /// Take this session out of the funnel.
    ReleaseFunnel,
    SendPong(Vec<u8>),
    SendPing,
    SendText(String),
    /// Wait for so many microseconds, then report `BackoffElapsed`.
    Sleep(u64),
}

/// The model of [`Action`].
pub enum ActionModel {
    Connect,
    Emit(GatewayEventModel),
    InstallFunnel,
    ReleaseFunnel,
    SendPong(Seq<u8>),
    SendPing,
    SendText(Seq<char>),
    Sleep(u64),
}

impl DeepView for Action {
    type V = ActionModel;

    open spec fn deep_view(&self) -> ActionModel {
        match self {
            Action::Connect => ActionModel::Connect,
            Action::Emit(event) => ActionModel::Emit(event.deep_view()),
            Action::InstallFunnel => ActionModel::InstallFunnel,
            Action::ReleaseFunnel => ActionModel::ReleaseFunnel,
            Action::SendPong(payload) => ActionModel::SendPong(payload@),
            Action::SendPing => ActionModel::SendPing,
            Action::SendText(text) => ActionModel::SendText(text@),
            Action::Sleep(micros) => ActionModel::Sleep(*micros),
        }
    }
}

/// The state of the supervisor. Durations are in microseconds.
#[derive(Clone, Copy, Debug, PartialEq, Eq, Structural)]
pub struct SupervisorState {
    pub phase: Phase,
    /// Attempts made since the last successful connect.
    pub attempt: u32,
    /// The delay before the next attempt.
    pub backoff: u64,
    pub sessions_completed: u32,
    /// When the peer was last heard from.
    pub last_inbound: u64,
    pub backoff_base: u64,
    pub max_backoff: u64,
    pub heartbeat_timeout: u64,
    pub max_sessions: Option<u32>,
}

/// One more, up to the largest `u32`.
pub open spec fn one_more(n: u32) -> u32 {
    if n == u32::MAX {
        n
    } else {
        (n + 1) as u32
    }
}

/// Whether the cap on sessions is reached.
pub open spec fn cap_reached(max_sessions: Option<u32>, sessions_completed: u32) -> bool {
    match max_sessions {
        Some(cap) => sessions_completed >= cap,
        None => false,
    }
}

/// The message of a failed connection attempt.
pub open spec fn connect_failed_text(attempt: u32, error: Seq<char>) -> Seq<char> {
    "Connect failed (attempt "@ + decimal((attempt + 1) as nat) + "): "@ + error
}

/// The reason of a disconnect after the peer closed the connection.
pub open spec fn peer_closed_text(reason: Option<Seq<char>>) -> Seq<char> {
    match reason {
        Some(r) => if r.len() == 0 {
            "Server closed connection"@
        } else {
            r
        },
        None => "Server closed connection"@,
    }
}

/// The reason of a disconnect after a failed send.
pub open spec fn send_failed_text(kind: SendKind, error: Seq<char>) -> Seq<char> {
    match kind {
        SendKind::Pong => "WebSocket pong error: "@ + error,
        SendKind::Request => "Request send error: "@ + error,
        SendKind::Ping => "Heartbeat send error: "@ + error,
    }
}

/// The event that a text frame is handed to the host as: the decoded frame,
/// or the text itself where it is no protocol frame.
pub open spec fn text_event(text: Seq<char>) -> GatewayEventModel {
    match text_frame_of(text) {
        Some(event) => event,
        None => GatewayEventModel::Message { message: text },
    }
}

/// The state at the start: connecting, with the base delay.
pub open spec fn initial_state(config: ConnectionConfig) -> SupervisorState {
    SupervisorState {
        phase: Phase::Connecting,
        attempt: 0,
        backoff: clamped(config.backoff_base@),
        sessions_completed: 0,
        last_inbound: 0,
        backoff_base: clamped(config.backoff_base@),
        max_backoff: clamped(config.max_backoff@),
        heartbeat_timeout: clamped(config.heartbeat_timeout@),
        max_sessions: config.max_sessions,
    }
}

/// A span in microseconds with zero in place of a negative one.
pub open spec fn clamped(micros: int) -> u64 {
    if micros < 0 {
        0
    } else {
        micros as u64
    }
}

/// The end of a session: the funnel is released, then the events in
/// `before` and the disconnect go out; the session counts as completed, and
/// the supervisor stops where the cap is reached and waits to reconnect
/// where it is not.
pub open spec fn drained(s: SupervisorState, before: Seq<ActionModel>, reason: Seq<char>) -> (
    SupervisorState,
    Seq<ActionModel>,
) {
    let sessions = one_more(s.sessions_completed);
    let actions = seq![ActionModel::ReleaseFunnel] + before + seq![
        ActionModel::Emit(GatewayEventModel::Disconnected { reason }),
    ];
    if cap_reached(s.max_sessions, sessions) {
        (SupervisorState { phase: Phase::Stopped, sessions_completed: sessions, ..s }, actions)
    } else {
        (
            SupervisorState {
                phase: Phase::Reconnecting,
                sessions_completed: sessions,
                attempt: one_more(s.attempt),
                backoff: next_backoff(s.backoff as nat, s.max_backoff as nat) as u64,
                ..s
            },
            actions.push(ActionModel::Sleep(s.backoff)),
        )
    }
}

/// The emission of an error.
pub open spec fn error_emission(message: Seq<char>) -> Seq<ActionModel> {
    seq![ActionModel::Emit(GatewayEventModel::Error { message })]
}

/// What happens while connecting.
pub open spec fn connecting_step(s: SupervisorState, input: Input) -> (
    SupervisorState,
    Seq<ActionModel>,
) {
    match input {
        Input::ConnectSucceeded { now } => (
            SupervisorState {
                phase: Phase::Connected,
                attempt: 0,
                backoff: s.backoff_base,
                last_inbound: now,
                ..s
            },
            seq![ActionModel::Emit(GatewayEventModel::Connected), ActionModel::InstallFunnel],
        ),
        Input::ConnectFailed { error } => (
            SupervisorState {
                phase: Phase::Reconnecting,
                attempt: one_more(s.attempt),
                backoff: next_backoff(s.backoff as nat, s.max_backoff as nat) as u64,
                ..s
            },
            seq![
                ActionModel::Emit(
                    GatewayEventModel::Error { message: connect_failed_text(s.attempt, error@) },
                ),
                ActionModel::Emit(
                    GatewayEventModel::Disconnected {
                        reason: connect_failed_text(s.attempt, error@),
                    },
                ),
                ActionModel::Sleep(s.backoff),
            ],
        ),
        Input::SinkClosed => (SupervisorState { phase: Phase::Stopped, ..s }, Seq::empty()),
        _ => (s, Seq::empty()),
    }
}

/// What happens during a session.
pub open spec fn connected_step(s: SupervisorState, input: Input) -> (
    SupervisorState,
    Seq<ActionModel>,
) {
    match input {
        Input::Text { now, text } => (
            SupervisorState { last_inbound: now, ..s },
            seq![ActionModel::Emit(text_event(text@))],
        ),
        Input::Ping { now, payload } => (
            SupervisorState { last_inbound: now, ..s },
            seq![ActionModel::SendPong(payload@)],
        ),
        Input::Pong { now } => (SupervisorState { last_inbound: now, ..s }, Seq::empty()),
        Input::Binary { now, data } => (
            SupervisorState { last_inbound: now, ..s },
            seq![ActionModel::Emit(GatewayEventModel::Binary { data: data@ })],
        ),
        Input::PeerClosed { reason } => drained(
            s,
            Seq::empty(),
            peer_closed_text(reason.deep_view()),
        ),
        Input::ReadFailed { error } => drained(
            s,
            error_emission(error@),
            "WebSocket error: "@ + error@,
        ),
        Input::StreamEnded => drained(s, Seq::empty(), "Connection closed"@),
        Input::Outbound { payload } => (s, seq![ActionModel::SendText(payload@)]),
        Input::OutboundClosed => drained(s, Seq::empty(), "Request channel closed"@),
        Input::SendFailed { kind, error } => drained(
            s,
            error_emission(error@),
            send_failed_text(kind, error@),
        ),
        Input::Tick { now } => if silent_too_long(s.last_inbound, now, s.heartbeat_timeout) {
            drained(s, Seq::empty(), "Heartbeat timeout"@)
        } else {
            (s, seq![ActionModel::SendPing])
        },
        Input::SinkClosed => (
            SupervisorState { phase: Phase::Stopped, ..s },
            seq![ActionModel::ReleaseFunnel],
        ),
        _ => (s, Seq::empty()),
    }
}

/// What happens while the delay before the next attempt runs.
pub open spec fn reconnecting_step(s: SupervisorState, input: Input) -> (
    SupervisorState,
    Seq<ActionModel>,
) {
    match input {
        Input::BackoffElapsed => (
            SupervisorState { phase: Phase::Connecting, ..s },
            seq![ActionModel::Connect],
        ),
        Input::SinkClosed => (SupervisorState { phase: Phase::Stopped, ..s }, Seq::empty()),
        _ => (s, Seq::empty()),
    }
}

/// The next state and the actions, from a state and an input. What does not
/// belong to the phase changes nothing, and nothing happens once stopped.
pub open spec fn step_of(s: SupervisorState, input: Input) -> (SupervisorState, Seq<ActionModel>) {
    match s.phase {
        Phase::Connecting => connecting_step(s, input),
        Phase::Connected => connected_step(s, input),
        Phase::Reconnecting => reconnecting_step(s, input),
        Phase::Stopped => (s, Seq::empty()),
    }
}

/// The connection supervisor.
pub struct Supervisor {
    state: SupervisorState,
}

impl View for Supervisor {
    type V = SupervisorState;

    closed spec fn view(&self) -> SupervisorState {
        self.state
    }
}

/// No action.
fn no_actions() -> (r: Vec<Action>)
    ensures
        r.deep_view() == Seq::<ActionModel>::empty(),
{
    let r: Vec<Action> = Vec::new();
    assert(r.deep_view() =~= Seq::<ActionModel>::empty());
    r
}

/// Adds an action at the end.
fn then(actions: &mut Vec<Action>, action: Action)
    ensures
        final(actions).deep_view() == old(actions).deep_view().push(action.deep_view()),
{
    actions.push(action);
    assert(actions.deep_view() =~= old(actions).deep_view().push(action.deep_view()));
}

/// One action.
fn only(action: Action) -> (r: Vec<Action>)
    ensures
        r.deep_view() == seq![action.deep_view()],
{
    let mut r = no_actions();
    then(&mut r, action);
    assert(r.deep_view() =~= seq![action.deep_view()]);
    r
}

/// One more, up to the largest `u32`.
fn increment(n: u32) -> (r: u32)
    ensures
        r == one_more(n),
{
    if n == u32::MAX {
        n
    } else {
        n + 1
    }
}

/// Writes the message of a failed connection attempt.
fn connect_failed_message(attempt: u32, error: &str) -> (r: String)
    ensures
        r@ == connect_failed_text(attempt, error@),
{
    let number = unsigned_text(attempt as u64 + 1);
    let mut message = "Connect failed (attempt ".to_owned();
    message.append(number.as_str());
    message.append("): ");
    message.append(error);
    message
}

impl Supervisor {
    /// A supervisor at its start, and the first thing to do: connect.
    pub fn new(config: ConnectionConfig) -> (r: (Supervisor, Vec<Action>))
        ensures
            r.0@ == initial_state(config),
            r.1.deep_view() == seq![ActionModel::Connect],
    {
        let base = config.backoff_base.clamped_micros();
        let state = SupervisorState {
            phase: Phase::Connecting,
            attempt: 0,
            backoff: base,
            sessions_completed: 0,
            last_inbound: 0,
            backoff_base: base,
            max_backoff: config.max_backoff.clamped_micros(),
            heartbeat_timeout: config.heartbeat_timeout.clamped_micros(),
            max_sessions: config.max_sessions,
        };
        (Supervisor { state }, only(Action::Connect))
    }

    /// The state.
    pub fn state(&self) -> (r: SupervisorState)
        ensures
            r == self@,
    {
        self.state
    }

    /// Whether the supervisor has stopped.
    pub fn is_stopped(&self) -> (r: bool)
        ensures
            r == (self@.phase == Phase::Stopped),
    {
        self.state.phase == Phase::Stopped
    }

    /// Ends the session.
    fn drain(&mut self, error: Option<String>, reason: String) -> (actions: Vec<Action>)
        ensures
            (final(self)@, actions.deep_view()) == drained(
                old(self)@,
                match error {
                    Some(e) => error_emission(e@),
                    None => Seq::empty(),
                },
                reason@,
            ),
    {
        let ghost before = match &error {
            Some(e) => error_emission(e@),
            None => Seq::empty(),
        };
        let mut actions = only(Action::ReleaseFunnel);
        match error {
            Some(message) => {
                then(&mut actions, Action::Emit(GatewayEvent::Error { message }));
            },
            None => {},
        }
        assert(actions.deep_view() =~= seq![ActionModel::ReleaseFunnel] + before);
        then(&mut actions, Action::Emit(GatewayEvent::Disconnected { reason }));
        assert(actions.deep_view() =~= seq![ActionModel::ReleaseFunnel] + before + seq![
            ActionModel::Emit(GatewayEventModel::Disconnected { reason: reason@ }),
        ]);
        let sessions = increment(self.state.sessions_completed);
        let capped = match self.state.max_sessions {
            Some(cap) => sessions >= cap,
            None => false,
        };
        self.state.sessions_completed = sessions;
        if capped {
            self.state.phase = Phase::Stopped;
        } else {
            then(&mut actions, Action::Sleep(self.state.backoff));
            self.state.phase = Phase::Reconnecting;
            self.state.attempt = increment(self.state.attempt);
            self.state.backoff = advance_backoff(self.state.backoff, self.state.max_backoff);
        }
        actions
    }

    fn step_connecting(&mut self, input: Input) -> (actions: Vec<Action>)
        ensures
            (final(self)@, actions.deep_view()) == connecting_step(old(self)@, input),
    {
        match input {
            Input::ConnectSucceeded { now } => {
                self.state.phase = Phase::Connected;
                self.state.attempt = 0;
                self.state.backoff = self.state.backoff_base;
                self.state.last_inbound = now;
                let mut actions = only(Action::Emit(GatewayEvent::Connected));
                then(&mut actions, Action::InstallFunnel);
                assert(actions.deep_view() =~= seq![
                    ActionModel::Emit(GatewayEventModel::Connected),
                    ActionModel::InstallFunnel,
                ]);
                actions
            },
            Input::ConnectFailed { error } => {
                let message = connect_failed_message(self.state.attempt, error.as_str());
                let reason = message.clone();
                let mut actions = only(Action::Emit(GatewayEvent::Error { message }));
                then(&mut actions, Action::Emit(GatewayEvent::Disconnected { reason }));
                then(&mut actions, Action::Sleep(self.state.backoff));
                assert(actions.deep_view() =~= connecting_step(old(self)@, input).1);
                self.state.phase = Phase::Reconnecting;
                self.state.attempt = increment(self.state.attempt);
                self.state.backoff = advance_backoff(self.state.backoff, self.state.max_backoff);
                actions
            },
            Input::SinkClosed => {
                self.state.phase = Phase::Stopped;
                no_actions()
            },
            _ => no_actions(),
        }
    }

    fn step_connected(&mut self, input: Input) -> (actions: Vec<Action>)
        ensures
            (final(self)@, actions.deep_view()) == connected_step(old(self)@, input),
    {
        match input {
            Input::Text { now, text } => {
                self.state.last_inbound = now;
                let event = match parse_gateway_frame(text.as_str()) {
                    Some(event) => event,
                    None => GatewayEvent::Message { message: text },
                };
                only(Action::Emit(event))
            },
            Input::Ping { now, payload } => {
                self.state.last_inbound = now;
                only(Action::SendPong(payload))
            },
            Input::Pong { now } => {
                self.state.last_inbound = now;
                no_actions()
            },
            Input::Binary { now, data } => {
                self.state.last_inbound = now;
                only(Action::Emit(GatewayEvent::Binary { data }))
            },
            Input::PeerClosed { reason } => {
                let text = match reason {
                    Some(r) => if r.as_str().is_empty() {
                        "Server closed connection".to_owned()
                    } else {
                        r
                    },
                    None => "Server closed connection".to_owned(),
                };
                self.drain(None, text)
            },
            Input::ReadFailed { error } => {
                let reason = join2("WebSocket error: ", error.as_str());
                self.drain(Some(error), reason)
            },
            Input::StreamEnded => self.drain(None, "Connection closed".to_owned()),
            Input::Outbound { payload } => only(Action::SendText(payload)),
            Input::OutboundClosed => self.drain(None, "Request channel closed".to_owned()),
            Input::SendFailed { kind, error } => {
                let reason = match kind {
                    SendKind::Pong => join2("WebSocket pong error: ", error.as_str()),
                    SendKind::Request => join2("Request send error: ", error.as_str()),
                    SendKind::Ping => join2("Heartbeat send error: ", error.as_str()),
                };
                self.drain(Some(error), reason)
            },
            Input::Tick { now } => {
                if heartbeat_expired(self.state.last_inbound, now, self.state.heartbeat_timeout) {
                    self.drain(None, "Heartbeat timeout".to_owned())
                } else {
                    only(Action::SendPing)
                }
            },
            Input::SinkClosed => {
                self.state.phase = Phase::Stopped;
                only(Action::ReleaseFunnel)
            },
            _ => no_actions(),
        }
    }

    fn step_reconnecting(&mut self, input: Input) -> (actions: Vec<Action>)
        ensures
            (final(self)@, actions.deep_view()) == reconnecting_step(old(self)@, input),
    {
        match input {
            Input::BackoffElapsed => {
                self.state.phase = Phase::Connecting;
                only(Action::Connect)
            },
            Input::SinkClosed => {
                self.state.phase = Phase::Stopped;
                no_actions()
            },
            _ => no_actions(),
        }
    }

    /// Takes an input: moves to the next state and says what to do, in
    /// order. Where an emission fails, the caller drops the actions that are
    /// left and reports `SinkClosed`.
    pub fn step(&mut self, input: Input) -> (actions: Vec<Action>)
        ensures
            (final(self)@, actions.deep_view()) == step_of(old(self)@, input),
    {
        match self.state.phase {
            Phase::Connecting => self.step_connecting(input),
            Phase::Connected => self.step_connected(input),
            Phase::Reconnecting => self.step_reconnecting(input),
            Phase::Stopped => no_actions(),
        }
    }
}

} // verus!
