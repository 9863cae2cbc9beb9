use vstd::prelude::*;

verus! {

/// Seconds to wait after a refused connection attempt before the next one.
/// The wait is fixed: it does not grow with the number of refusals.
pub const BACKOFF_SECONDS: u64 = 1;

/// Where the connection manager stands.
#[derive(Clone, Copy, Debug, PartialEq, Eq, Structural)]
pub enum ConnectState {
    /// No connection and no attempt under way.
    Disconnected,
    /// An attempt to open the connection is under way.
    Connecting,
    /// The connection is open.
    Connected,
}

/// What the connection manager is told.
#[derive(Clone, Copy, Debug, PartialEq, Eq, Structural)]
pub enum ConnectInput {
    /// It is time to try: at the start, or when a backoff has elapsed.
    Wake,
    /// The attempt under way opened the connection.
    Opened,
    /// The attempt under way failed.
    Refused,
}

/// What the connection manager asks for.
#[derive(Clone, Copy, Debug, PartialEq, Eq, Structural)]
pub enum ConnectAction {
    /// Try to open the connection.
    Attempt,
    /// Wait this many seconds, then wake the manager.
    Backoff { seconds: u64 },
    /// Keep the connection's I/O running in the background and hand the
    /// connection out.
    Serve,
}

/// One step of the connection manager: the next state and the action asked
/// for, or `None` where the input does not apply in the state. A refusal
/// never ends the manager: it leads to a backoff and then to a new attempt.
pub open spec fn connect_step(state: ConnectState, input: ConnectInput) -> Option<
    (ConnectState, ConnectAction),
> {
    match (state, input) {
        (ConnectState::Disconnected, ConnectInput::Wake) => Some(
            (ConnectState::Connecting, ConnectAction::Attempt),
        ),
        (ConnectState::Connecting, ConnectInput::Opened) => Some(
            (ConnectState::Connected, ConnectAction::Serve),
        ),
        (ConnectState::Connecting, ConnectInput::Refused) => Some(
            (ConnectState::Disconnected, ConnectAction::Backoff { seconds: BACKOFF_SECONDS }),
        ),
        _ => None,
    }
}

/// The state reached and the actions asked for, in order, when the manager
/// is told `inputs` one after the other. An input that does not apply is
/// passed over.
pub open spec fn connect_run(state: ConnectState, inputs: Seq<ConnectInput>) -> (
    ConnectState,
    Seq<ConnectAction>,
)
    decreases inputs.len(),
{
    if inputs.len() == 0 {
        (state, Seq::empty())
    } else {
        match connect_step(state, inputs[0]) {
            Some((next, action)) => {
                let rest = connect_run(next, inputs.drop_first());
                (rest.0, seq![action] + rest.1)
            },
            None => connect_run(state, inputs.drop_first()),
        }
    }
}

/// What the manager is told when `refusals` attempts fail and the next one
/// succeeds.
pub open spec fn refusals_then_open(refusals: nat) -> Seq<ConnectInput>
    decreases refusals,
{
    if refusals == 0 {
        seq![ConnectInput::Wake, ConnectInput::Opened]
    } else {
        seq![ConnectInput::Wake, ConnectInput::Refused] + refusals_then_open(
            (refusals - 1) as nat,
        )
    }
}

/// Attempts with one fixed backoff after each of the first `refusals` of
/// them, and the connection handed out at the end.
pub open spec fn attempts_then_serve(refusals: nat) -> Seq<ConnectAction>
    decreases refusals,
{
    if refusals == 0 {
        seq![ConnectAction::Attempt, ConnectAction::Serve]
    } else {
        seq![ConnectAction::Attempt, ConnectAction::Backoff { seconds: BACKOFF_SECONDS }]
            + attempts_then_serve((refusals - 1) as nat)
    }
}

/// The number of attempts among the actions.
pub open spec fn attempt_count(actions: Seq<ConnectAction>) -> nat
    decreases actions.len(),
{
    if actions.len() == 0 {
        0
    } else if actions[0] is Attempt {
        1 + attempt_count(actions.drop_first())
    } else {
        attempt_count(actions.drop_first())
    }
}

/// The number of backoffs among the actions.
pub open spec fn backoff_count(actions: Seq<ConnectAction>) -> nat
    decreases actions.len(),
{
    if actions.len() == 0 {
        0
    } else if actions[0] is Backoff {
        1 + backoff_count(actions.drop_first())
    } else {
        backoff_count(actions.drop_first())
    }
}

/// The connection manager: it retries without end until the connection is
/// open.
#[derive(Debug)]
pub struct ConnectionManager {
    state: ConnectState,
}

impl View for ConnectionManager {
    type V = ConnectState;

    closed spec fn view(&self) -> ConnectState {
        self.state
    }
}

impl ConnectionManager {
    /// A manager with no connection yet.
    pub fn new() -> (manager: ConnectionManager)
        ensures
            manager@ == ConnectState::Disconnected,
    {
        ConnectionManager { state: ConnectState::Disconnected }
    }

    /// Where the manager stands.
    pub fn state(&self) -> (state: ConnectState)
        ensures
            state == self@,
    {
        self.state
    }

    /// Tells the manager what happened and learns what to do next. An input
    /// that does not apply in the manager's state changes nothing and gives
    /// `None`.
    pub fn step(&mut self, input: ConnectInput) -> (action: Option<ConnectAction>)
        ensures
            match connect_step(old(self)@, input) {
                Some((next, asked)) => final(self)@ == next && action == Some(asked),
                None => final(self)@ == old(self)@ && action is None,
            },
    {
        match (self.state, input) {
            (ConnectState::Disconnected, ConnectInput::Wake) => {
                self.state = ConnectState::Connecting;
                Some(ConnectAction::Attempt)
            },
            (ConnectState::Connecting, ConnectInput::Opened) => {
                self.state = ConnectState::Connected;
                Some(ConnectAction::Serve)
            },
            (ConnectState::Connecting, ConnectInput::Refused) => {
                self.state = ConnectState::Disconnected;
                Some(ConnectAction::Backoff { seconds: BACKOFF_SECONDS })
            },
            _ => None,
        }
    }
}

/// Counting distributes over the two leading actions of a retry round.
proof fn lemma_counts_after_round(
    first: ConnectAction,
    second: ConnectAction,
    rest: Seq<ConnectAction>,
)
    ensures
        attempt_count(seq![first, second] + rest) == (if first is Attempt { 1nat } else { 0nat })
            + (if second is Attempt { 1nat } else { 0nat }) + attempt_count(rest),
        backoff_count(seq![first, second] + rest) == (if first is Backoff { 1nat } else { 0nat })
            + (if second is Backoff { 1nat } else { 0nat }) + backoff_count(rest),
{
    let all = seq![first, second] + rest;
    assert(all.drop_first() =~= seq![second] + rest);
    assert(all.drop_first().drop_first() =~= rest);
    assert(all[0] == first);
    assert(all.drop_first()[0] == second);
    reveal_with_fuel(attempt_count, 3);
    reveal_with_fuel(backoff_count, 3);
}

/// Retried connect: when the first `refusals` attempts fail and the next
/// one succeeds, the manager makes `refusals + 1` attempts, waits the fixed
/// backoff after each failed one and before the next, and ends with the
/// connection open and handed out. No refusal shows in what it asks for
/// other than as a wait.
pub proof fn law_retry_until_connected(refusals: nat)
    ensures
        connect_run(ConnectState::Disconnected, refusals_then_open(refusals)) == (
            ConnectState::Connected,
            attempts_then_serve(refusals),
        ),
        attempt_count(attempts_then_serve(refusals)) == refusals + 1,
        backoff_count(attempts_then_serve(refusals)) == refusals,
        attempts_then_serve(refusals).last() == ConnectAction::Serve,
        forall|i: int|
            0 <= i < attempts_then_serve(refusals).len() ==> match #[trigger] attempts_then_serve(
                refusals,
            )[i] {
                ConnectAction::Backoff { seconds } => seconds == BACKOFF_SECONDS,
                _ => true,
            },
    decreases refusals,
{
    let inputs = refusals_then_open(refusals);
    let actions = attempts_then_serve(refusals);
    if refusals == 0 {
        assert(inputs.drop_first() =~= seq![ConnectInput::Opened]);
        assert(inputs.drop_first().drop_first() =~= Seq::<ConnectInput>::empty());
        reveal_with_fuel(connect_run, 3);
        assert(connect_run(ConnectState::Disconnected, inputs).1 =~= actions);
        lemma_counts_after_round(
            ConnectAction::Attempt,
            ConnectAction::Serve,
            Seq::<ConnectAction>::empty(),
        );
        assert(actions =~= seq![ConnectAction::Attempt, ConnectAction::Serve] + Seq::<
            ConnectAction,
        >::empty());
    } else {
        let fewer = (refusals - 1) as nat;
        law_retry_until_connected(fewer);
        let rest_inputs = refusals_then_open(fewer);
        let rest_actions = attempts_then_serve(fewer);
        assert(inputs.drop_first() =~= seq![ConnectInput::Refused] + rest_inputs);
        assert(inputs.drop_first().drop_first() =~= rest_inputs);
        assert(inputs[0] == ConnectInput::Wake);
        assert(inputs.drop_first()[0] == ConnectInput::Refused);
        reveal_with_fuel(connect_run, 3);
        assert(connect_run(ConnectState::Disconnected, inputs).1 =~= actions);
        lemma_counts_after_round(
            ConnectAction::Attempt,
            ConnectAction::Backoff { seconds: BACKOFF_SECONDS },
            rest_actions,
        );
        assert forall|i: int| 0 <= i < actions.len() implies match #[trigger] actions[i] {
            ConnectAction::Backoff { seconds } => seconds == BACKOFF_SECONDS,
            _ => true,
        } by {
            if i >= 2 {
                assert(actions[i] == rest_actions[i - 2]);
            }
        }
    }
}

} // verus!
