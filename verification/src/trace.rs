use vstd::prelude::*;
use crate::command::WAIT_SECONDS;
use crate::error::ResetErrorModel;
use crate::error::command_failed_message_model;
use crate::error::reset_error_message_model;
use crate::reset::ActionModel;
use crate::reset::CommandOutcomeModel;
use crate::reset::EventModel;
use crate::reset::StateModel;
use crate::reset::accepts;
use crate::reset::action_model;
use crate::reset::resolve_model;
use crate::reset::step_model;

verus! {

/// How far along the straight line of a reset session a state stands.
pub open spec fn phase(s: StateModel) -> int {
    match s {
        StateModel::Querying { .. } => 0,
        StateModel::Disabling { .. } => 1,
        StateModel::Waiting { .. } => 2,
        StateModel::Enabling { .. } => 3,
        StateModel::Done => 4,
        StateModel::Failed { .. } => 5,
    }
}

/// A run of a reset session: `states` starts where the session starts, each
/// event is of the kind its state waits for, and each following state is the
/// step from the one before.
pub open spec fn valid_trace(states: Seq<StateModel>, events: Seq<EventModel>) -> bool {
    &&& states.len() == events.len() + 1
    &&& forall|i: int|
        0 <= i < events.len() ==> accepts(#[trigger] states[i], events[i]) && states[i + 1]
            == step_model(states[i], events[i])
}

/// A step from a state that waits for the given event either fails or
/// advances the session by exactly one stage.
proof fn lemma_step_phase(s: StateModel, e: EventModel)
    requires
        accepts(s, e),
    ensures
        step_model(s, e) is Failed || phase(step_model(s, e)) == phase(s) + 1,
{
}

/// Along a run, every state that still waits for an event stands exactly as
/// many stages in as there are events behind it.
proof fn lemma_phase_live(states: Seq<StateModel>, events: Seq<EventModel>, i: int)
    requires
        valid_trace(states, events),
        states[0] is Querying,
        0 <= i < events.len(),
    ensures
        phase(states[i]) == i,
    decreases i,
{
    if i > 0 {
        lemma_phase_live(states, events, i - 1);
        lemma_step_phase(states[i - 1], events[i - 1]);
        assert(accepts(states[i], events[i]));
    }
}

/// A run that ends in success has exactly the shape the reset promises: the
/// lookup query, then the disable command, then the wait, then the enable
/// command — two external commands in all, disable first, enable last, the
/// wait strictly between them, and nothing else.
pub proof fn lemma_done_trace_shape(states: Seq<StateModel>, events: Seq<EventModel>)
    requires
        valid_trace(states, events),
        states.len() > 0,
        states[0] is Querying,
        states[states.len() - 1] is Done,
    ensures
        states.len() == 5,
        states[1] is Disabling,
        states[2] is Waiting,
        states[3] is Enabling,
        action_model(states[0]) is RunQuery,
        action_model(states[1]) matches ActionModel::RunCommand { disable, .. } && disable,
        action_model(states[2]) == (ActionModel::Wait { seconds: WAIT_SECONDS }),
        action_model(states[3]) matches ActionModel::RunCommand { disable, .. } && !disable,
        events[0] matches EventModel::QueryDone { result } && result matches Ok(list)
            && resolve_model(list) matches Ok(id) && states[1]->Disabling_instance_id == id,
        states[2]->Waiting_instance_id == states[1]->Disabling_instance_id,
        states[3]->Enabling_instance_id == states[1]->Disabling_instance_id,
        forall|j: int|
            0 <= j < states.len() && #[trigger] action_model(states[j]) is RunCommand ==> (j == 1
                || j == 3),
        forall|j: int|
            0 <= j < states.len() && #[trigger] action_model(states[j]) is Wait ==> j == 2,
{
    let last = states.len() - 1;
    if last == 0 {
        assert(false);
    }
    lemma_phase_live(states, events, last - 1);
    lemma_step_phase(states[last - 1], events[last - 1]);
    assert(phase(states[last]) == last);
    assert(states.len() == 5);
    assert(phase(states[1]) == 1) by { lemma_phase_live(states, events, 1) }
    assert(phase(states[2]) == 2) by { lemma_phase_live(states, events, 2) }
    assert(phase(states[3]) == 3) by { lemma_phase_live(states, events, 3) }
}

/// A lookup that matches no device ends the run at once in a "not found"
/// failure: no external command has been issued, and none follows.
pub proof fn lemma_not_found_stops_before_any_command(
    states: Seq<StateModel>,
    events: Seq<EventModel>,
)
    requires
        valid_trace(states, events),
        events.len() >= 1,
        states[0] is Querying,
        events[0] matches EventModel::QueryDone { result } && result matches Ok(list)
            && list.len() == 0,
    ensures
        events.len() == 1,
        states.len() == 2,
        states[1] == (StateModel::Failed { error: ResetErrorModel::NotFound }),
        forall|j: int| 0 <= j < states.len() ==> !(#[trigger] action_model(states[j]) is RunCommand),
{
    assert(states[1] == step_model(states[0], events[0]));
    if events.len() > 1 {
        assert(accepts(states[1], events[1]));
        assert(false);
    }
}

/// A lookup whose first match reports no instance identifier ends the run at
/// once in a "missing identifier" failure: no external command has been
/// issued, and none follows.
pub proof fn lemma_missing_id_stops_before_any_command(
    states: Seq<StateModel>,
    events: Seq<EventModel>,
)
    requires
        valid_trace(states, events),
        events.len() >= 1,
        states[0] is Querying,
        events[0] matches EventModel::QueryDone { result } && result matches Ok(list)
            && list.len() > 0 && list[0].pnp_device_id is None,
    ensures
        events.len() == 1,
        states.len() == 2,
        states[1] == (StateModel::Failed { error: ResetErrorModel::MissingDeviceId }),
        forall|j: int| 0 <= j < states.len() ==> !(#[trigger] action_model(states[j]) is RunCommand),
{
    assert(states[1] == step_model(states[0], events[0]));
    if events.len() > 1 {
        assert(accepts(states[1], events[1]));
        assert(false);
    }
}

/// A non-success exit of the disable command ends the run at once: the
/// enable command is never issued, and the failure the run reports embeds
/// the disable command's exit status.
pub proof fn lemma_disable_failure_stops(
    states: Seq<StateModel>,
    events: Seq<EventModel>,
    i: int,
)
    requires
        valid_trace(states, events),
        states[0] is Querying,
        0 <= i < events.len(),
        states[i] is Disabling,
        events[i] matches EventModel::CommandDone { outcome } && outcome matches
            CommandOutcomeModel::Exited { success, .. } && !success,
    ensures
        events.len() == i + 1,
        states.len() == i + 2,
        states[i + 1] == (StateModel::Failed {
            error: ResetErrorModel::CommandFailed {
                disable: true,
                status: events[i]->outcome->status,
            },
        }),
        reset_error_message_model(states[i + 1]->error) == command_failed_message_model(
            true,
            events[i]->outcome->status,
        ),
        forall|j: int| 0 <= j < states.len() ==> !(states[j] is Enabling),
        forall|j: int|
            0 <= j < states.len() ==> !(#[trigger] action_model(states[j]) matches
                ActionModel::RunCommand { disable, .. } && !disable),
{
    lemma_phase_live(states, events, i);
    assert(i == 1);
    assert(states[i + 1] == step_model(states[i], events[i]));
    if events.len() > i + 1 {
        assert(accepts(states[i + 1], events[i + 1]));
        assert(false);
    }
    assert(phase(states[0]) == 0) by { lemma_phase_live(states, events, 0) }
    assert forall|j: int| 0 <= j < states.len() implies !(states[j] is Enabling) by {
        if j <= i {
            lemma_phase_live(states, events, j);
        }
    }
}

} // verus!
