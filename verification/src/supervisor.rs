use vstd::prelude::*;
use crate::command::{command_for, command_for_spec, DbCommand, DbCommandView};
use crate::event::{LifecycleEvent, LifecycleEventView};
use crate::filters::{event_filters, event_filters_spec, EventFilters, FilterEntryView};
use crate::metadata::{
    resolve_compose_project,
    resolve_spec,
    ContainerInspection,
    ContainerInspectionView,
    MissingMetadata,
};
use crate::settings::{Settings, SettingsView};
use crate::target::{DatabaseTarget, DatabaseTargetView};

verus! {

/// How the process ends.
#[derive(Clone, Copy, Debug, PartialEq, Eq, Structural)]
pub enum ExitStatus {
    Success,
    Failure,
}

/// Why the supervisor stopped.
#[derive(Clone, Copy, Debug, PartialEq, Eq, Structural)]
pub enum StopReason {
    /// A shutdown signal arrived.
    Shutdown,
    /// The event subscription came to its end.
    StreamEnded,
    /// The container runtime could not be reached at startup.
    RuntimeUnavailable,
    /// The host name of this process is not set.
    MissingHostname,
    /// The Compose project of this process's container is not known.
    MissingMetadata(MissingMetadata),
    /// The event subscription could not be opened.
    SubscriptionFailed,
    /// The readiness marker could not be raised.
    MarkerFailed,
    /// Reading the next event failed.
    StreamFailed,
}

/// Where the supervisor stands: each phase but the first and the last waits
/// for the outcome of one action.
#[derive(Clone, Copy, Debug, PartialEq, Eq, Structural)]
pub enum Phase {
    /// Nothing has been asked for yet.
    Idle,
    /// A stale readiness marker is being cleared.
    Clearing,
    /// The container runtime is being reached.
    OpeningRuntime,
    /// The connection manager is at work.
    Connecting,
    /// This process's own container is being inspected.
    Inspecting,
    /// The event subscription is being opened.
    Subscribing,
    /// The readiness marker is being raised.
    Raising,
    /// The next event is awaited.
    Listening,
    /// A command is on its way to the coordinator.
    Applying,
    /// The supervisor has stopped.
    Stopped(StopReason),
}

/// What the supervisor is told: the outcome of the action it asked for, or
/// a signal from outside.
#[derive(Debug)]
pub enum Input {
    /// The process has started.
    Start,
    /// The action asked for was carried out.
    Completed,
    /// The action asked for failed.
    Failed,
    /// The inspection asked for gave this description.
    Inspected(ContainerInspection),
    /// The subscription delivered this event.
    Event(LifecycleEvent),
    /// The subscription has no more events.
    EndOfStream,
    /// A shutdown signal arrived.
    Shutdown,
}

/// What the supervisor asks for.
#[derive(Debug, PartialEq, Eq)]
pub enum Action {
    /// Remove the readiness marker if one is left over; a failure counts
    /// for nothing.
    ClearMarker,
    /// Reach the container runtime.
    OpenRuntime,
    /// Connect to the coordinator, retrying until it works.
    Connect(DatabaseTarget),
    /// Inspect the container of this name.
    Inspect(String),
    /// Open the event subscription with these filters.
    Subscribe(EventFilters),
    /// Raise the readiness marker.
    RaiseMarker,
    /// Await the next event of the subscription.
    AwaitEvent,
    /// Send this command to the coordinator and wait until it is through.
    Execute(DbCommand),
    /// End the process.
    Exit(StopReason),
}

/// What an input is, with each payload by its view.
pub enum InputView {
    Start,
    Completed,
    Failed,
    Inspected(ContainerInspectionView),
    Event(LifecycleEventView),
    EndOfStream,
    Shutdown,
}

/// What an action is, with each payload by its view.
pub enum ActionView {
    ClearMarker,
    OpenRuntime,
    Connect(DatabaseTargetView),
    Inspect(Seq<char>),
    Subscribe(Seq<FilterEntryView>),
    RaiseMarker,
    AwaitEvent,
    Execute(DbCommandView),
    Exit(StopReason),
}

/// What a supervisor is: its phase and the settings it was started with.
pub struct SupervisorView {
    pub phase: Phase,
    pub settings: SettingsView,
}

impl View for Input {
    type V = InputView;

    open spec fn view(&self) -> InputView {
        match self {
            Input::Start => InputView::Start,
            Input::Completed => InputView::Completed,
            Input::Failed => InputView::Failed,
            Input::Inspected(inspection) => InputView::Inspected(inspection@),
            Input::Event(event) => InputView::Event(event@),
            Input::EndOfStream => InputView::EndOfStream,
            Input::Shutdown => InputView::Shutdown,
        }
    }
}

impl View for Action {
    type V = ActionView;

    open spec fn view(&self) -> ActionView {
        match self {
            Action::ClearMarker => ActionView::ClearMarker,
            Action::OpenRuntime => ActionView::OpenRuntime,
            Action::Connect(target) => ActionView::Connect(target@),
            Action::Inspect(name) => ActionView::Inspect(name@),
            Action::Subscribe(filters) => ActionView::Subscribe(filters@),
            Action::RaiseMarker => ActionView::RaiseMarker,
            Action::AwaitEvent => ActionView::AwaitEvent,
            Action::Execute(command) => ActionView::Execute(command@),
            Action::Exit(reason) => ActionView::Exit(*reason),
        }
    }
}

impl StopReason {
    /// The status that the process ends with: success after a shutdown
    /// signal or at the end of the subscription, failure otherwise.
    pub open spec fn status_spec(self) -> ExitStatus {
        match self {
            StopReason::Shutdown | StopReason::StreamEnded => ExitStatus::Success,
            _ => ExitStatus::Failure,
        }
    }

    /// The status that the process ends with.
    pub fn status(&self) -> (status: ExitStatus)
        ensures
            status == self.status_spec(),
    {
        match self {
            StopReason::Shutdown | StopReason::StreamEnded => ExitStatus::Success,
            _ => ExitStatus::Failure,
        }
    }
}

impl ExitStatus {
    /// The exit code of the process: zero for success.
    pub fn code(&self) -> (code: i32)
        ensures
            code == (if self is Success { 0i32 } else { 1i32 }),
    {
        match self {
            ExitStatus::Success => 0,
            ExitStatus::Failure => 1,
        }
    }
}

/// The phase in which the outcome of `action` is awaited.
pub open spec fn phase_awaiting(action: ActionView) -> Phase {
    match action {
        ActionView::ClearMarker => Phase::Clearing,
        ActionView::OpenRuntime => Phase::OpeningRuntime,
        ActionView::Connect(_) => Phase::Connecting,
        ActionView::Inspect(_) => Phase::Inspecting,
        ActionView::Subscribe(_) => Phase::Subscribing,
        ActionView::RaiseMarker => Phase::Raising,
        ActionView::AwaitEvent => Phase::Listening,
        ActionView::Execute(_) => Phase::Applying,
        ActionView::Exit(reason) => Phase::Stopped(reason),
    }
}

/// What the supervisor asks for next when it is told `input`, or `None`
/// where the input does not apply in its phase.
///
/// A shutdown signal stops it with success in every phase but two: while a
/// command is on its way the signal does not apply, and a stopped
/// supervisor takes no input. Startup goes from clearing the marker through
/// reaching the runtime, connecting, inspecting and subscribing to raising
/// the marker; a failure on the way is fatal, but for the marker's
/// clearing. While listening, an event leads to its command, if it calls
/// for one, and whatever becomes of the command the next event is awaited.
pub open spec fn next_action(state: SupervisorView, input: InputView) -> Option<ActionView> {
    match state.phase {
        Phase::Stopped(_) => None,
        Phase::Applying => match input {
            InputView::Completed | InputView::Failed => Some(ActionView::AwaitEvent),
            _ => None,
        },
        Phase::Idle => match input {
            InputView::Shutdown => Some(ActionView::Exit(StopReason::Shutdown)),
            InputView::Start => Some(ActionView::ClearMarker),
            _ => None,
        },
        Phase::Clearing => match input {
            InputView::Shutdown => Some(ActionView::Exit(StopReason::Shutdown)),
            InputView::Completed | InputView::Failed => Some(ActionView::OpenRuntime),
            _ => None,
        },
        Phase::OpeningRuntime => match input {
            InputView::Shutdown => Some(ActionView::Exit(StopReason::Shutdown)),
            InputView::Completed => Some(ActionView::Connect(state.settings.target)),
            InputView::Failed => Some(ActionView::Exit(StopReason::RuntimeUnavailable)),
            _ => None,
        },
        Phase::Connecting => match input {
            InputView::Shutdown => Some(ActionView::Exit(StopReason::Shutdown)),
            InputView::Completed => match state.settings.hostname {
                Some(name) => Some(ActionView::Inspect(name)),
                None => Some(ActionView::Exit(StopReason::MissingHostname)),
            },
            _ => None,
        },
        Phase::Inspecting => match input {
            InputView::Shutdown => Some(ActionView::Exit(StopReason::Shutdown)),
            InputView::Inspected(inspection) => match resolve_spec(Some(inspection)) {
                Ok(project) => Some(ActionView::Subscribe(event_filters_spec(project))),
                Err(reason) => Some(ActionView::Exit(StopReason::MissingMetadata(reason))),
            },
            InputView::Failed => Some(
                ActionView::Exit(StopReason::MissingMetadata(MissingMetadata::ContainerNotFound)),
            ),
            _ => None,
        },
        Phase::Subscribing => match input {
            InputView::Shutdown => Some(ActionView::Exit(StopReason::Shutdown)),
            InputView::Completed => Some(ActionView::RaiseMarker),
            InputView::Failed => Some(ActionView::Exit(StopReason::SubscriptionFailed)),
            _ => None,
        },
        Phase::Raising => match input {
            InputView::Shutdown => Some(ActionView::Exit(StopReason::Shutdown)),
            InputView::Completed => Some(ActionView::AwaitEvent),
            InputView::Failed => Some(ActionView::Exit(StopReason::MarkerFailed)),
            _ => None,
        },
        Phase::Listening => match input {
            InputView::Shutdown => Some(ActionView::Exit(StopReason::Shutdown)),
            InputView::Event(event) => match command_for_spec(event.change()) {
                Some(command) => Some(ActionView::Execute(command)),
                None => Some(ActionView::AwaitEvent),
            },
            InputView::EndOfStream => Some(ActionView::Exit(StopReason::StreamEnded)),
            InputView::Failed => Some(ActionView::Exit(StopReason::StreamFailed)),
            _ => None,
        },
    }
}

/// One step of the supervisor: the state it reaches and the action it asks
/// for, or `None` where the input does not apply. The new phase is the one
/// that awaits the action's outcome; the settings never change.
pub open spec fn supervisor_step(state: SupervisorView, input: InputView) -> Option<
    (SupervisorView, ActionView),
> {
    match next_action(state, input) {
        Some(action) => Some(
            (SupervisorView { phase: phase_awaiting(action), settings: state.settings }, action),
        ),
        None => None,
    }
}

/// The state of a supervisor that has not been told anything yet.
pub open spec fn initial_state(settings: SettingsView) -> SupervisorView {
    SupervisorView { phase: Phase::Idle, settings }
}

impl Action {
    /// The phase in which the outcome of the action is awaited.
    pub fn awaited_phase(&self) -> (phase: Phase)
        ensures
            phase == phase_awaiting(self@),
    {
        match self {
            Action::ClearMarker => Phase::Clearing,
            Action::OpenRuntime => Phase::OpeningRuntime,
            Action::Connect(_) => Phase::Connecting,
            Action::Inspect(_) => Phase::Inspecting,
            Action::Subscribe(_) => Phase::Subscribing,
            Action::RaiseMarker => Phase::Raising,
            Action::AwaitEvent => Phase::Listening,
            Action::Execute(_) => Phase::Applying,
            Action::Exit(reason) => Phase::Stopped(*reason),
        }
    }
}

/// The supervisor of the reconciliation pipeline: it decides, from what it
/// is told, what is done next, and does none of it itself.
#[derive(Debug)]
pub struct Supervisor {
    phase: Phase,
    settings: Settings,
}

impl View for Supervisor {
    type V = SupervisorView;

    closed spec fn view(&self) -> SupervisorView {
        SupervisorView { phase: self.phase, settings: self.settings@ }
    }
}

impl Supervisor {
    /// A supervisor that has not been told anything yet.
    pub fn new(settings: Settings) -> (supervisor: Supervisor)
        ensures
            supervisor@ == initial_state(settings@),
    {
        Supervisor { phase: Phase::Idle, settings }
    }

    /// Where the supervisor stands.
    pub fn phase(&self) -> (phase: Phase)
        ensures
            phase == self@.phase,
    {
        self.phase
    }

    /// What to do next on `input`, the state left as it is.
    fn decide(&self, input: Input) -> (action: Option<Action>)
        ensures
            match action {
                Some(asked) => next_action(self@, input@) == Some(asked@),
                None => next_action(self@, input@) is None,
            },
    {
        match self.phase {
            Phase::Stopped(_) => None,
            Phase::Applying => match input {
                Input::Completed | Input::Failed => Some(Action::AwaitEvent),
                _ => None,
            },
            Phase::Idle => match input {
                Input::Shutdown => Some(Action::Exit(StopReason::Shutdown)),
                Input::Start => Some(Action::ClearMarker),
                _ => None,
            },
            Phase::Clearing => match input {
                Input::Shutdown => Some(Action::Exit(StopReason::Shutdown)),
                Input::Completed | Input::Failed => Some(Action::OpenRuntime),
                _ => None,
            },
            Phase::OpeningRuntime => match input {
                Input::Shutdown => Some(Action::Exit(StopReason::Shutdown)),
                Input::Completed => Some(Action::Connect(self.settings.target.duplicate())),
                Input::Failed => Some(Action::Exit(StopReason::RuntimeUnavailable)),
                _ => None,
            },
            Phase::Connecting => match input {
                Input::Shutdown => Some(Action::Exit(StopReason::Shutdown)),
                Input::Completed => match &self.settings.hostname {
                    Some(name) => Some(Action::Inspect(name.clone())),
                    None => Some(Action::Exit(StopReason::MissingHostname)),
                },
                _ => None,
            },
            Phase::Inspecting => match input {
                Input::Shutdown => Some(Action::Exit(StopReason::Shutdown)),
                Input::Inspected(inspection) => match resolve_compose_project(Some(&inspection)) {
                    Ok(project) => Some(Action::Subscribe(event_filters(project.as_str()))),
                    Err(reason) => Some(Action::Exit(StopReason::MissingMetadata(reason))),
                },
                Input::Failed => Some(
                    Action::Exit(StopReason::MissingMetadata(MissingMetadata::ContainerNotFound)),
                ),
                _ => None,
            },
            Phase::Subscribing => match input {
                Input::Shutdown => Some(Action::Exit(StopReason::Shutdown)),
                Input::Completed => Some(Action::RaiseMarker),
                Input::Failed => Some(Action::Exit(StopReason::SubscriptionFailed)),
                _ => None,
            },
            Phase::Raising => match input {
                Input::Shutdown => Some(Action::Exit(StopReason::Shutdown)),
                Input::Completed => Some(Action::AwaitEvent),
                Input::Failed => Some(Action::Exit(StopReason::MarkerFailed)),
                _ => None,
            },
            Phase::Listening => match input {
                Input::Shutdown => Some(Action::Exit(StopReason::Shutdown)),
                Input::Event(event) => {
                    let change = event.decode();
                    match command_for(&change) {
                        Some(command) => Some(Action::Execute(command)),
                        None => Some(Action::AwaitEvent),
                    }
                },
                Input::EndOfStream => Some(Action::Exit(StopReason::StreamEnded)),
                Input::Failed => Some(Action::Exit(StopReason::StreamFailed)),
                _ => None,
            },
        }
    }

    /// Tells the supervisor what happened and learns what to do next. An
    /// input that does not apply in the supervisor's phase changes nothing
    /// and gives `None`.
    pub fn step(&mut self, input: Input) -> (action: Option<Action>)
        ensures
            match supervisor_step(old(self)@, input@) {
                Some((next, asked)) => final(self)@ == next && match action {
                    Some(given) => given@ == asked,
                    None => false,
                },
                None => final(self)@ == old(self)@ && action is None,
            },
    {
        match self.decide(input) {
            Some(action) => {
                self.phase = action.awaited_phase();
                Some(action)
            },
            None => None,
        }
    }
}

} // verus!
