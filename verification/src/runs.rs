//! Runs of the supervisor over many inputs, and what holds of every run.

use crate::api::events::frame::GatewayEventModel;
use crate::supervisor::{
    backoff_after, drained, error_emission, initial_state, next_backoff, peer_closed_text,
    send_failed_text, silent_too_long, step_of, ActionModel, ConnectionConfig, Input, Phase,
    SupervisorState,
};
use vstd::prelude::*;

verus! {

/// `base` doubled `times` times.
pub open spec fn doubled(base: nat, times: nat) -> nat
    decreases times,
{
    if times == 0 {
        base
    } else {
        2 * doubled(base, (times - 1) as nat)
    }
}

/// The smaller of two numbers.
pub open spec fn smaller(a: nat, b: nat) -> nat {
    if a <= b {
        a
    } else {
        b
    }
}

/// From a base delay that does not exceed the longest delay, the delays over
/// failures in a row are the base, twice the base, four times the base and
/// so on, each held to the longest delay: they never shrink and never exceed
/// the longest delay.
pub proof fn lemma_backoff_sequence(base: nat, max: nat, failures: nat)
    requires
        base <= max,
    ensures
        backoff_after(base, max, failures) == smaller(doubled(base, failures), max),
        backoff_after(base, max, failures) <= max,
        backoff_after(base, max, failures) <= backoff_after(base, max, failures + 1),
    decreases failures,
{
    if failures > 0 {
        lemma_backoff_sequence(base, max, (failures - 1) as nat);
        lemma_doubled_grows(base, (failures - 1) as nat);
    }
    lemma_doubled_grows(base, failures);
    assert(backoff_after(base, max, failures + 1) == next_backoff(
        backoff_after(base, max, failures),
        max,
    ));
}

/// Doubling does not shrink.
pub proof fn lemma_doubled_grows(base: nat, times: nat)
    ensures
        doubled(base, times) <= doubled(base, times + 1),
        base <= doubled(base, times),
    decreases times,
{
    if times > 0 {
        lemma_doubled_grows(base, (times - 1) as nat);
    }
}

/// The state after `failures` rounds of a failed attempt and the delay that
/// follows it.
pub open spec fn after_failures(s: SupervisorState, errors: Seq<String>) -> SupervisorState
    decreases errors.len(),
{
    if errors.len() == 0 {
        s
    } else {
        let before = after_failures(s, errors.drop_last());
        let failed = step_of(before, Input::ConnectFailed { error: errors.last() }).0;
        step_of(failed, Input::BackoffElapsed).0
    }
}

/// While connecting with the delay at its base, each failed attempt is
/// followed by a wait of the current delay, and after any number of failed
/// attempts in a row the supervisor is connecting again with the delay that
/// the doubling rule gives for that number.
pub proof fn lemma_failures_follow_backoff(s: SupervisorState, errors: Seq<String>)
    requires
        s.phase == Phase::Connecting,
        s.backoff == s.backoff_base,
    ensures
        after_failures(s, errors).phase == Phase::Connecting,
        after_failures(s, errors).backoff == backoff_after(
            s.backoff_base as nat,
            s.max_backoff as nat,
            errors.len(),
        ),
        after_failures(s, errors).max_backoff == s.max_backoff,
        after_failures(s, errors).backoff_base == s.backoff_base,
        errors.len() > 0 ==> step_of(
            after_failures(s, errors.drop_last()),
            Input::ConnectFailed { error: errors.last() },
        ).1.last() == ActionModel::Sleep(
            backoff_after(
                s.backoff_base as nat,
                s.max_backoff as nat,
                (errors.len() - 1) as nat,
            ) as u64,
        ),
    decreases errors.len(),
{
    if errors.len() > 0 {
        lemma_failures_follow_backoff(s, errors.drop_last());
    }
}

/// At a liveness check of a live session that has been silent for the
/// timeout or longer, the session ends: the disconnect that goes out gives
/// `Heartbeat timeout` as its reason, which begins with `Heartbeat`.
pub proof fn lemma_heartbeat_timeout(s: SupervisorState, now: u64)
    requires
        s.phase == Phase::Connected,
        silent_too_long(s.last_inbound, now, s.heartbeat_timeout),
    ensures
        step_of(s, Input::Tick { now }).0.phase != Phase::Connected,
        step_of(s, Input::Tick { now }).1[1] == ActionModel::Emit(
            GatewayEventModel::Disconnected { reason: "Heartbeat timeout"@ },
        ),
        "Heartbeat timeout"@.subrange(0, 9) == "Heartbeat"@,
{
    reveal_strlit("Heartbeat timeout");
    reveal_strlit("Heartbeat");
    assert("Heartbeat timeout"@.subrange(0, 9) =~= "Heartbeat"@);
}

/// The two events that mark the life of a session.
pub enum Lifecycle {
    Connected,
    Disconnected,
}

/// The lifecycle events among a list of actions, in order.
pub open spec fn lifecycle_of(actions: Seq<ActionModel>) -> Seq<Lifecycle>
    decreases actions.len(),
{
    if actions.len() == 0 {
        Seq::empty()
    } else {
        let earlier = lifecycle_of(actions.drop_last());
        match actions.last() {
            ActionModel::Emit(GatewayEventModel::Connected) => earlier.push(Lifecycle::Connected),
            ActionModel::Emit(GatewayEventModel::Disconnected { .. }) => earlier.push(
                Lifecycle::Disconnected,
            ),
            _ => earlier,
        }
    }
}

/// The state after a list of inputs, and all the actions on the way.
pub open spec fn run(s: SupervisorState, inputs: Seq<Input>) -> (SupervisorState, Seq<ActionModel>)
    decreases inputs.len(),
{
    if inputs.len() == 0 {
        (s, Seq::empty())
    } else {
        let (before, earlier) = run(s, inputs.drop_last());
        let (after, actions) = step_of(before, inputs.last());
        (after, earlier + actions)
    }
}

/// `sessions` times a connect followed by a disconnect, and one more connect
/// where a session is live.
pub open spec fn alternation(sessions: nat, live: bool) -> Seq<Lifecycle>
    decreases sessions,
{
    if sessions == 0 {
        if live {
            seq![Lifecycle::Connected]
        } else {
            Seq::empty()
        }
    } else {
        seq![Lifecycle::Connected, Lifecycle::Disconnected] + alternation(
            (sessions - 1) as nat,
            live,
        )
    }
}

/// The lifecycle events of two lists of actions, one after the other.
pub proof fn lemma_lifecycle_of_concat(a: Seq<ActionModel>, b: Seq<ActionModel>)
    ensures
        lifecycle_of(a + b) == lifecycle_of(a) + lifecycle_of(b),
    decreases b.len(),
{
    if b.len() == 0 {
        assert(a + b =~= a);
        assert(lifecycle_of(a) + lifecycle_of(b) =~= lifecycle_of(a));
    } else {
        lemma_lifecycle_of_concat(a, b.drop_last());
        assert((a + b).drop_last() =~= a + b.drop_last());
        assert((a + b).last() == b.last());
        match b.last() {
            ActionModel::Emit(GatewayEventModel::Connected) => {
                assert(lifecycle_of(a + b) =~= lifecycle_of(a) + lifecycle_of(b));
            },
            ActionModel::Emit(GatewayEventModel::Disconnected { .. }) => {
                assert(lifecycle_of(a + b) =~= lifecycle_of(a) + lifecycle_of(b));
            },
            _ => {},
        }
    }
}

/// The lifecycle events of one action.
pub proof fn lemma_lifecycle_of_one(action: ActionModel)
    ensures
        lifecycle_of(seq![action]) == match action {
            ActionModel::Emit(GatewayEventModel::Connected) => seq![Lifecycle::Connected],
            ActionModel::Emit(GatewayEventModel::Disconnected { .. }) => seq![
                Lifecycle::Disconnected,
            ],
            _ => Seq::empty(),
        },
{
    assert(seq![action].drop_last() =~= Seq::<ActionModel>::empty());
    assert(lifecycle_of(seq![action].drop_last()) =~= Seq::<Lifecycle>::empty());
    match action {
        ActionModel::Emit(GatewayEventModel::Connected) => {
            assert(lifecycle_of(seq![action]) =~= seq![Lifecycle::Connected]);
        },
        ActionModel::Emit(GatewayEventModel::Disconnected { .. }) => {
            assert(lifecycle_of(seq![action]) =~= seq![Lifecycle::Disconnected]);
        },
        _ => {},
    }
}

/// One more session at the end of an alternation.
pub proof fn lemma_alternation_extends(sessions: nat)
    ensures
        alternation(sessions, true) == alternation(sessions, false) + seq![Lifecycle::Connected],
        alternation(sessions + 1, false) == alternation(sessions, true) + seq![
            Lifecycle::Disconnected,
        ],
    decreases sessions,
{
    if sessions == 0 {
        assert(alternation(0, true) =~= alternation(0, false) + seq![Lifecycle::Connected]);
        assert(alternation(0, false) =~= Seq::<Lifecycle>::empty());
        assert(alternation(1, false) =~= seq![Lifecycle::Connected, Lifecycle::Disconnected]
            + alternation(0, false));
        assert(alternation(1, false) =~= alternation(0, true) + seq![Lifecycle::Disconnected]);
    } else {
        lemma_alternation_extends((sessions - 1) as nat);
        assert(alternation(sessions, true) =~= alternation(sessions, false) + seq![
            Lifecycle::Connected,
        ]);
        assert(alternation(sessions + 1, false) =~= alternation(sessions, true) + seq![
            Lifecycle::Disconnected,
        ]);
    }
}

/// The end of a session emits one disconnect and no connect.
pub proof fn lemma_lifecycle_of_drained(
    s: SupervisorState,
    error: Option<Seq<char>>,
    reason: Seq<char>,
)
    ensures
        lifecycle_of(
            drained(
                s,
                match error {
                    Some(e) => error_emission(e),
                    None => Seq::empty(),
                },
                reason,
            ).1,
        ) == seq![Lifecycle::Disconnected],
{
    let before = match error {
        Some(e) => error_emission(e),
        None => Seq::<ActionModel>::empty(),
    };
    let release = seq![ActionModel::ReleaseFunnel];
    let disconnect = seq![ActionModel::Emit(GatewayEventModel::Disconnected { reason })];
    let sleep = seq![ActionModel::Sleep(s.backoff)];
    lemma_lifecycle_of_one(ActionModel::ReleaseFunnel);
    lemma_lifecycle_of_one(ActionModel::Emit(GatewayEventModel::Disconnected { reason }));
    lemma_lifecycle_of_one(ActionModel::Sleep(s.backoff));
    match error {
        Some(e) => {
            lemma_lifecycle_of_one(ActionModel::Emit(GatewayEventModel::Error { message: e }));
        },
        None => {},
    }
    assert(lifecycle_of(before) =~= Seq::<Lifecycle>::empty());
    lemma_lifecycle_of_concat(release, before);
    lemma_lifecycle_of_concat(release + before, disconnect);
    lemma_lifecycle_of_concat(release + before + disconnect, sleep);
    assert((release + before + disconnect).push(ActionModel::Sleep(s.backoff)) =~= release + before
        + disconnect + sleep);
    assert(lifecycle_of(release + before + disconnect) =~= seq![Lifecycle::Disconnected]);
    assert(lifecycle_of(release + before + disconnect + sleep) =~= seq![Lifecycle::Disconnected]);
}

/// What holds between a state and the lifecycle events emitted so far, under
/// a cap of `cap` sessions.
pub open spec fn sessions_alternate(s: SupervisorState, trace: Seq<Lifecycle>, cap: u32) -> bool {
    &&& s.max_sessions == Some(cap)
    &&& trace == alternation(s.sessions_completed as nat, s.phase == Phase::Connected)
    &&& s.phase == Phase::Stopped ==> s.sessions_completed == cap
    &&& s.phase != Phase::Stopped ==> s.sessions_completed < cap
}

/// An input that is neither a failed connection attempt nor the host
/// turning away.
pub open spec fn plain_input(input: Input) -> bool {
    !(input is ConnectFailed) && !(input is SinkClosed)
}

/// One step keeps the alternation.
pub proof fn lemma_step_alternates(
    s: SupervisorState,
    trace: Seq<Lifecycle>,
    cap: u32,
    input: Input,
)
    requires
        sessions_alternate(s, trace, cap),
        plain_input(input),
    ensures
        sessions_alternate(
            step_of(s, input).0,
            trace + lifecycle_of(step_of(s, input).1),
            cap,
        ),
{
    let (after, actions) = step_of(s, input);
    let k = s.sessions_completed as nat;
    lemma_alternation_extends(k);
    assert(lifecycle_of(Seq::<ActionModel>::empty()) =~= Seq::<Lifecycle>::empty());
    assert(trace + Seq::<Lifecycle>::empty() =~= trace);
    match s.phase {
        Phase::Connecting => {
            match input {
                Input::ConnectSucceeded { now } => {
                    let connected = seq![ActionModel::Emit(GatewayEventModel::Connected)];
                    let install = seq![ActionModel::InstallFunnel];
                    lemma_lifecycle_of_one(ActionModel::Emit(GatewayEventModel::Connected));
                    lemma_lifecycle_of_one(ActionModel::InstallFunnel);
                    lemma_lifecycle_of_concat(connected, install);
                    assert(actions =~= connected + install);
                    assert(lifecycle_of(actions) =~= seq![Lifecycle::Connected]);
                },
                _ => {},
            }
        },
        Phase::Connected => {
            match input {
                Input::Text { now, text } => {
                    lemma_lifecycle_of_one(actions[0]);
                    assert(actions =~= seq![actions[0]]);
                    assert(!(actions[0] matches ActionModel::Emit(GatewayEventModel::Connected)));
                    assert(!(actions[0] matches ActionModel::Emit(
                        GatewayEventModel::Disconnected { .. },
                    )));
                },
                Input::Ping { now, payload } => {
                    lemma_lifecycle_of_one(ActionModel::SendPong(payload@));
                },
                Input::Binary { now, data } => {
                    lemma_lifecycle_of_one(
                        ActionModel::Emit(GatewayEventModel::Binary { data: data@ }),
                    );
                },
                Input::Outbound { payload } => {
                    lemma_lifecycle_of_one(ActionModel::SendText(payload@));
                },
                Input::PeerClosed { reason } => {
                    lemma_lifecycle_of_drained(
                        s,
                        None,
                        peer_closed_text(reason.deep_view()),
                    );
                },
                Input::ReadFailed { error } => {
                    lemma_lifecycle_of_drained(s, Some(error@), "WebSocket error: "@ + error@);
                },
                Input::StreamEnded => {
                    lemma_lifecycle_of_drained(s, None, "Connection closed"@);
                },
                Input::OutboundClosed => {
                    lemma_lifecycle_of_drained(s, None, "Request channel closed"@);
                },
                Input::SendFailed { kind, error } => {
                    lemma_lifecycle_of_drained(
                        s,
                        Some(error@),
                        send_failed_text(kind, error@),
                    );
                },
                Input::Tick { now } => {
                    if silent_too_long(s.last_inbound, now, s.heartbeat_timeout) {
                        lemma_lifecycle_of_drained(s, None, "Heartbeat timeout"@);
                    } else {
                        lemma_lifecycle_of_one(ActionModel::SendPing);
                    }
                },
                _ => {},
            }
        },
        Phase::Reconnecting => {
            match input {
                Input::BackoffElapsed => {
                    lemma_lifecycle_of_one(ActionModel::Connect);
                },
                _ => {},
            }
        },
        Phase::Stopped => {},
    }
}

/// Under a cap of `cap` sessions, with `cap` at least one, as long as every
/// connection attempt succeeds and the host takes every event: the connects
/// and disconnects emitted alternate, beginning with a connect; no more than
/// `cap` sessions are completed; and once the supervisor has stopped,
/// exactly `cap` connects and `cap` disconnects have been emitted.
pub proof fn lemma_sessions_alternate(config: ConnectionConfig, cap: u32, inputs: Seq<Input>)
    requires
        config.max_sessions == Some(cap),
        cap >= 1,
        forall|i: int| 0 <= i < inputs.len() ==> plain_input(#[trigger] inputs[i]),
    ensures
        sessions_alternate(
            run(initial_state(config), inputs).0,
            lifecycle_of(run(initial_state(config), inputs).1),
            cap,
        ),
        run(initial_state(config), inputs).0.phase == Phase::Stopped ==> lifecycle_of(
            run(initial_state(config), inputs).1,
        ) == alternation(cap as nat, false),
    decreases inputs.len(),
{
    let start = initial_state(config);
    if inputs.len() == 0 {
        assert(lifecycle_of(Seq::<ActionModel>::empty()) =~= alternation(0, false));
    } else {
        lemma_sessions_alternate(config, cap, inputs.drop_last());
        let (before, earlier) = run(start, inputs.drop_last());
        let (after, actions) = step_of(before, inputs.last());
        lemma_step_alternates(before, lifecycle_of(earlier), cap, inputs.last());
        lemma_lifecycle_of_concat(earlier, actions);
    }
}

} // verus!
