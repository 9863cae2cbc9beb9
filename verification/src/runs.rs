use vstd::prelude::*;
use crate::command::{
    add_worker_spec,
    command_for_spec,
    remove_worker_spec,
    DbCommandView,
    StatementKind,
    StatementView,
};
use crate::event::{
    lemma_actions_differ,
    LifecycleEventView,
    MembershipChangeView,
    ACTION_DESTROY,
    ACTION_HEALTHY,
};
use crate::filters::event_filters_spec;
use crate::supervisor::{
    initial_state,
    next_action,
    phase_awaiting,
    supervisor_step,
    ActionView,
    InputView,
    Phase,
    SupervisorView,
};
use crate::settings::SettingsView;

verus! {

/// The state that the supervisor reaches from `start` when it is told
/// `inputs` one after the other. An input that does not apply is passed
/// over.
pub open spec fn state_after(start: SupervisorView, inputs: Seq<InputView>) -> SupervisorView
    decreases inputs.len(),
{
    if inputs.len() == 0 {
        start
    } else {
        let before = state_after(start, inputs.drop_last());
        match supervisor_step(before, inputs.last()) {
            Some((next, _)) => next,
            None => before,
        }
    }
}

/// The actions that the supervisor asks for, in order, when it is told
/// `inputs` from `start` on.
pub open spec fn actions_asked(start: SupervisorView, inputs: Seq<InputView>) -> Seq<ActionView>
    decreases inputs.len(),
{
    if inputs.len() == 0 {
        Seq::empty()
    } else {
        let earlier = actions_asked(start, inputs.drop_last());
        match supervisor_step(state_after(start, inputs.drop_last()), inputs.last()) {
            Some((_, action)) => earlier.push(action),
            None => earlier,
        }
    }
}

/// Whether every one of `inputs` applies in the phase in which it arrives:
/// the inputs are then what a driver can hand the supervisor that carries
/// out each action and reports its outcome.
pub open spec fn all_apply(start: SupervisorView, inputs: Seq<InputView>) -> bool
    decreases inputs.len(),
{
    inputs.len() == 0 || (all_apply(start, inputs.drop_last()) && supervisor_step(
        state_after(start, inputs.drop_last()),
        inputs.last(),
    ) is Some)
}

/// The events among the inputs, in order.
pub open spec fn events_received(inputs: Seq<InputView>) -> Seq<LifecycleEventView>
    decreases inputs.len(),
{
    if inputs.len() == 0 {
        Seq::empty()
    } else {
        match inputs.last() {
            InputView::Event(event) => events_received(inputs.drop_last()).push(event),
            _ => events_received(inputs.drop_last()),
        }
    }
}

/// The commands among the actions, in order.
pub open spec fn commands_sent(actions: Seq<ActionView>) -> Seq<DbCommandView>
    decreases actions.len(),
{
    if actions.len() == 0 {
        Seq::empty()
    } else {
        match actions.last() {
            ActionView::Execute(command) => commands_sent(actions.drop_last()).push(command),
            _ => commands_sent(actions.drop_last()),
        }
    }
}

/// The commands that the events call for, in order: one for each event
/// that asks for a change, none for the others.
pub open spec fn commands_called_for(events: Seq<LifecycleEventView>) -> Seq<DbCommandView>
    decreases events.len(),
{
    if events.len() == 0 {
        Seq::empty()
    } else {
        match command_for_spec(events.last().change()) {
            Some(command) => commands_called_for(events.drop_last()).push(command),
            None => commands_called_for(events.drop_last()),
        }
    }
}

/// Whether the event reports, of a named worker, that it is healthy or
/// that it was destroyed.
pub open spec fn is_meaningful(event: LifecycleEventView) -> bool {
    event.worker() is Some && (event.action == Some(ACTION_HEALTHY@) || event.action == Some(
        ACTION_DESTROY@,
    ))
}

/// Whether `command` is the answer to a meaningful event: the registration
/// of its worker where it reports the worker healthy, the eviction of its
/// worker where it reports the worker destroyed.
pub open spec fn answers(command: DbCommandView, event: LifecycleEventView) -> bool {
    &&& event.action == Some(ACTION_HEALTHY@) ==> command == add_worker_spec(event.worker()->0)
    &&& event.action == Some(ACTION_DESTROY@) ==> command == remove_worker_spec(
        event.worker()->0,
    )
}

/// Whether the command is the registration or the eviction of one worker.
pub open spec fn is_membership_command(command: DbCommandView) -> bool {
    command.statements.len() > 0 && (command == add_worker_spec(command.statements[0].host)
        || command == remove_worker_spec(command.statements[0].host))
}

/// Where all inputs apply, each gives one action, and a shorter run gives
/// the beginning of the same actions.
proof fn lemma_prefix(start: SupervisorView, inputs: Seq<InputView>, k: int)
    requires
        all_apply(start, inputs),
        0 <= k <= inputs.len(),
    ensures
        all_apply(start, inputs.take(k)),
        actions_asked(start, inputs).len() == inputs.len(),
        actions_asked(start, inputs.take(k)) == actions_asked(start, inputs).take(k),
    decreases inputs.len(),
{
    if inputs.len() == 0 {
        assert(inputs.take(k) =~= inputs);
        assert(actions_asked(start, inputs).take(k) =~= actions_asked(start, inputs));
    } else {
        let shorter = inputs.drop_last();
        lemma_prefix(start, shorter, shorter.len() as int);
        if k == inputs.len() {
            assert(inputs.take(k) =~= inputs);
            assert(actions_asked(start, inputs).take(k) =~= actions_asked(start, inputs));
        } else {
            lemma_prefix(start, shorter, k);
            assert(shorter.take(k) =~= inputs.take(k));
            assert(actions_asked(start, inputs).take(k) =~= actions_asked(start, shorter).take(k));
        }
    }
}

/// Where all inputs apply, the action at a place in the run is the one that
/// the step from the state reached so far gives on the input at that place,
/// and the phase reached is the one that awaits its outcome.
proof fn lemma_step_at(start: SupervisorView, inputs: Seq<InputView>, i: int)
    requires
        all_apply(start, inputs),
        0 <= i < inputs.len(),
    ensures
        actions_asked(start, inputs).len() == inputs.len(),
        next_action(state_after(start, inputs.take(i)), inputs[i]) == Some(
            actions_asked(start, inputs)[i],
        ),
        state_after(start, inputs.take(i + 1)).phase == phase_awaiting(
            actions_asked(start, inputs)[i],
        ),
{
    lemma_prefix(start, inputs, i + 1);
    lemma_prefix(start, inputs, i);
    let upto = inputs.take(i + 1);
    assert(upto.drop_last() =~= inputs.take(i));
    assert(upto.last() == inputs[i]);
    let before = state_after(start, inputs.take(i));
    assert(all_apply(start, upto));
    assert(supervisor_step(before, inputs[i]) is Some);
    let taken = supervisor_step(before, inputs[i])->0;
    assert(actions_asked(start, upto) == actions_asked(start, inputs.take(i)).push(taken.1));
    assert(actions_asked(start, inputs.take(i)).len() == i);
    assert(actions_asked(start, inputs).take(i + 1)[i] == taken.1);
    assert(state_after(start, upto) == taken.0);
}

/// The commands sent are those that the events received call for, in the
/// order of the events: each event is answered before the next is taken,
/// none is answered twice, and nothing else is ever sent to the
/// coordinator.
pub proof fn law_commands_follow_events(start: SupervisorView, inputs: Seq<InputView>)
    requires
        all_apply(start, inputs),
    ensures
        commands_sent(actions_asked(start, inputs)) == commands_called_for(
            events_received(inputs),
        ),
    decreases inputs.len(),
{
    if inputs.len() > 0 {
        let shorter = inputs.drop_last();
        law_commands_follow_events(start, shorter);
        let asked = actions_asked(start, inputs);
        let earlier = actions_asked(start, shorter);
        let taken = supervisor_step(state_after(start, shorter), inputs.last())->0;
        let action = taken.1;
        assert(asked == earlier.push(action));
        assert(asked.drop_last() =~= earlier);
        assert(asked.last() == action);
        match inputs.last() {
            InputView::Event(event) => {
                let events = events_received(inputs);
                assert(events == events_received(shorter).push(event));
                assert(events.drop_last() =~= events_received(shorter));
                assert(events.last() == event);
            },
            _ => {},
        }
    }
}

/// Meaningful events call for exactly one command each, in their order.
pub proof fn law_one_command_per_meaningful_event(events: Seq<LifecycleEventView>)
    requires
        forall|i: int| 0 <= i < events.len() ==> is_meaningful(#[trigger] events[i]),
    ensures
        commands_called_for(events).len() == events.len(),
        forall|i: int|
            0 <= i < events.len() ==> answers(#[trigger] commands_called_for(events)[i], events[i]),
    decreases events.len(),
{
    lemma_actions_differ();
    if events.len() > 0 {
        let shorter = events.drop_last();
        assert forall|i: int| 0 <= i < shorter.len() implies is_meaningful(
            #[trigger] shorter[i],
        ) by {
            assert(shorter[i] == events[i]);
        }
        law_one_command_per_meaningful_event(shorter);
        assert(is_meaningful(events[events.len() - 1]));
        assert forall|i: int| 0 <= i < events.len() implies answers(
            #[trigger] commands_called_for(events)[i],
            events[i],
        ) by {
            if i < shorter.len() {
                assert(shorter[i] == events[i]);
                assert(answers(commands_called_for(shorter)[i], shorter[i]));
            }
        }
    }
}

/// For every sequence of healthy and destroy events of named workers, the
/// supervisor sends exactly one registration for each healthy event and one
/// eviction for each destroy event, in the order in which the events came.
pub proof fn law_order_of_reconciliation(start: SupervisorView, inputs: Seq<InputView>)
    requires
        all_apply(start, inputs),
        forall|i: int|
            0 <= i < events_received(inputs).len() ==> is_meaningful(
                #[trigger] events_received(inputs)[i],
            ),
    ensures
        commands_sent(actions_asked(start, inputs)).len() == events_received(inputs).len(),
        forall|i: int|
            0 <= i < events_received(inputs).len() ==> answers(
                #[trigger] commands_sent(actions_asked(start, inputs))[i],
                events_received(inputs)[i],
            ),
{
    law_commands_follow_events(start, inputs);
    law_one_command_per_meaningful_event(events_received(inputs));
}

/// What events call for are registrations and evictions.
proof fn lemma_called_for_are_membership_commands(events: Seq<LifecycleEventView>, k: int)
    requires
        0 <= k < commands_called_for(events).len(),
    ensures
        is_membership_command(commands_called_for(events)[k]),
    decreases events.len(),
{
    if events.len() > 0 {
        let earlier = commands_called_for(events.drop_last());
        if k < earlier.len() {
            lemma_called_for_are_membership_commands(events.drop_last(), k);
        } else {
            let command = command_for_spec(events.last().change())->0;
            assert(commands_called_for(events)[k] == command);
        }
    }
}

/// Nothing but registrations and evictions is ever sent to the
/// coordinator, and every eviction sent is one transaction in which the
/// worker's placements are deleted before the worker is removed: no run
/// sends a removal that could leave placements of the removed node behind.
pub proof fn law_only_membership_commands_are_sent(
    start: SupervisorView,
    inputs: Seq<InputView>,
    k: int,
)
    requires
        all_apply(start, inputs),
        0 <= k < commands_sent(actions_asked(start, inputs)).len(),
    ensures
        is_membership_command(commands_sent(actions_asked(start, inputs))[k]),
        forall|i: int|
            0 <= i < commands_sent(actions_asked(start, inputs))[k].statements.len()
                && (#[trigger] commands_sent(
                actions_asked(start, inputs),
            )[k].statements[i]).kind is RemoveNode ==> commands_sent(
                actions_asked(start, inputs),
            )[k].transactional && i > 0 && commands_sent(
                actions_asked(start, inputs),
            )[k].statements[i - 1] == (StatementView {
                kind: StatementKind::DeletePlacements,
                host: commands_sent(actions_asked(start, inputs))[k].statements[i].host,
            }),
{
    law_commands_follow_events(start, inputs);
    lemma_called_for_are_membership_commands(events_received(inputs), k);
}

/// One command at a time: while a command is on its way, the only inputs
/// that apply are its outcome, and a command is only ever sent in answer to
/// an event that arrived while the supervisor was listening.
pub proof fn law_one_command_in_flight(state: SupervisorView, input: InputView)
    ensures
        state.phase is Applying && next_action(state, input) is Some ==> (input is Completed
            || input is Failed) && next_action(state, input) == Some(ActionView::AwaitEvent),
        next_action(state, input) matches Some(ActionView::Execute(_)) ==> state.phase
            is Listening && input is Event,
{
}

/// An event without an action, or without an actor's name, leads to no
/// command, in whatever phase it arrives: where it applies, the next event
/// is awaited.
pub proof fn law_incomplete_event_sends_nothing(state: SupervisorView, event: LifecycleEventView)
    requires
        event.action is None || event.worker() is None,
    ensures
        event.change() == MembershipChangeView::Ignore,
        command_for_spec(event.change()) is None,
        !(next_action(state, InputView::Event(event)) matches Some(ActionView::Execute(_))),
        state.phase is Listening ==> supervisor_step(state, InputView::Event(event)) == Some(
            (state, ActionView::AwaitEvent),
        ),
{
}

/// Whatever becomes of a command, the supervisor goes on to await the next
/// event: a failure at the coordinator is never a reason to stop.
pub proof fn law_command_outcome_never_stops(state: SupervisorView, input: InputView)
    requires
        state.phase is Applying,
        input is Completed || input is Failed,
    ensures
        supervisor_step(state, input) == Some(
            (
                SupervisorView { phase: Phase::Listening, settings: state.settings },
                ActionView::AwaitEvent,
            ),
        ),
{
}

/// A subscription is opened only for the Compose project that the
/// inspection of this process's own container names, and with the filters
/// of that project.
pub proof fn law_subscription_needs_project(state: SupervisorView, input: InputView)
    requires
        next_action(state, input) matches Some(ActionView::Subscribe(_)),
    ensures
        state.phase is Inspecting,
        input matches InputView::Inspected(inspection) && inspection.compose_project() is Some
            && next_action(state, input) == Some(
            ActionView::Subscribe(event_filters_spec(inspection.compose_project()->0)),
        ),
{
}

/// A stopped supervisor stays stopped and asks for nothing more.
pub proof fn law_stopped_is_final(state: SupervisorView, inputs: Seq<InputView>)
    requires
        state.phase is Stopped,
    ensures
        state_after(state, inputs) == state,
        actions_asked(state, inputs) == Seq::<ActionView>::empty(),
    decreases inputs.len(),
{
    if inputs.len() > 0 {
        law_stopped_is_final(state, inputs.drop_last());
    }
}

/// Readiness follows the subscription. In every run from the start, the
/// marker is cleared only as the very first action; it is raised only in
/// answer to the subscription having been opened; and no event is awaited,
/// nor any command sent, before the marker has been raised.
pub proof fn law_readiness_follows_subscription(
    settings: SettingsView,
    inputs: Seq<InputView>,
    i: int,
)
    requires
        all_apply(initial_state(settings), inputs),
        0 <= i < inputs.len(),
    ensures
        actions_asked(initial_state(settings), inputs).len() == inputs.len(),
        actions_asked(initial_state(settings), inputs)[i] is ClearMarker ==> i == 0,
        actions_asked(initial_state(settings), inputs)[i] is RaiseMarker ==> i > 0
            && actions_asked(initial_state(settings), inputs)[i - 1] is Subscribe
            && inputs[i] is Completed,
        actions_asked(initial_state(settings), inputs)[i] is AwaitEvent || actions_asked(
            initial_state(settings),
            inputs,
        )[i] is Execute ==> exists|j: int|
            0 <= j < i && #[trigger] actions_asked(initial_state(settings), inputs)[j]
                is RaiseMarker && inputs[j + 1] is Completed,
    decreases i,
{
    let start = initial_state(settings);
    let asked = actions_asked(start, inputs);
    lemma_step_at(start, inputs, i);
    if i == 0 {
        assert(inputs.take(0) =~= Seq::<InputView>::empty());
    } else {
        lemma_step_at(start, inputs, i - 1);
        law_readiness_follows_subscription(settings, inputs, i - 1);
        let before = state_after(start, inputs.take(i));
        assert(before.phase == phase_awaiting(asked[i - 1]));
        if asked[i] is AwaitEvent || asked[i] is Execute {
            if before.phase is Raising {
                assert(asked[i - 1] is RaiseMarker && inputs[(i - 1) + 1] is Completed);
            } else {
                assert(asked[i - 1] is AwaitEvent || asked[i - 1] is Execute);
                let j = choose|j: int|
                    0 <= j < i - 1 && #[trigger] asked[j] is RaiseMarker && inputs[j + 1]
                        is Completed;
                assert(asked[j] is RaiseMarker && inputs[j + 1] is Completed);
            }
        }
    }
}

} // verus!
