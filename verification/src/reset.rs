use vstd::prelude::*;
use crate::command::WAIT_SECONDS;
use crate::command::args_model;
use crate::command::interpreter_args;
use crate::command::interpreter_args_model;
use crate::device::PnpEntity;
use crate::device::PnpEntityModel;
use crate::device::entities_model;
use crate::error::QueryError;
use crate::error::QueryErrorModel;
use crate::error::ResetError;
use crate::error::ResetErrorModel;
use crate::error::reset_error_message_model;
use crate::query::pnp_entity_query;
use crate::query::pnp_entity_query_model;

verus! {

/// Where a reset session stands. The session is a straight line: resolve the
/// name with a read query, disable the device, wait, enable it; any failure
/// ends the session at once.
pub enum ResetState {
    Querying { gpu_name: String },
    Disabling { instance_id: String },
    Waiting { instance_id: String },
    Enabling { instance_id: String },
    Done,
    Failed { error: ResetError },
}

/// The mathematical value of a [`ResetState`].
pub enum StateModel {
    Querying { gpu_name: Seq<char> },
    Disabling { instance_id: Seq<char> },
    Waiting { instance_id: Seq<char> },
    Enabling { instance_id: Seq<char> },
    Done,
    Failed { error: ResetErrorModel },
}

impl View for ResetState {
    type V = StateModel;

    open spec fn view(&self) -> StateModel {
        match self {
            ResetState::Querying { gpu_name } => StateModel::Querying { gpu_name: gpu_name@ },
            ResetState::Disabling { instance_id } => StateModel::Disabling {
                instance_id: instance_id@,
            },
            ResetState::Waiting { instance_id } => StateModel::Waiting {
                instance_id: instance_id@,
            },
            ResetState::Enabling { instance_id } => StateModel::Enabling {
                instance_id: instance_id@,
            },
            ResetState::Done => StateModel::Done,
            ResetState::Failed { error } => StateModel::Failed { error: error@ },
        }
    }
}

/// How one external command invocation went: the process could not be
/// launched at all, or it exited, successfully or not. `status` carries the
/// text of the exit status.
pub enum CommandOutcome {
    LaunchFailed { detail: String },
    Exited { success: bool, status: String },
}

/// The mathematical value of a [`CommandOutcome`].
pub enum CommandOutcomeModel {
    LaunchFailed { detail: Seq<char> },
    Exited { success: bool, status: Seq<char> },
}

impl View for CommandOutcome {
    type V = CommandOutcomeModel;

    open spec fn view(&self) -> CommandOutcomeModel {
        match self {
            CommandOutcome::LaunchFailed { detail } => CommandOutcomeModel::LaunchFailed {
                detail: detail@,
            },
            CommandOutcome::Exited { success, status } => CommandOutcomeModel::Exited {
                success: *success,
                status: status@,
            },
        }
    }
}

/// What the outside world reports back to the session: the outcome of the
/// lookup query, the outcome of a lifecycle command, or the end of the wait.
pub enum ResetEvent {
    QueryDone { result: Result<Vec<PnpEntity>, QueryError> },
    CommandDone { outcome: CommandOutcome },
    WaitDone,
}

/// The mathematical value of a [`ResetEvent`].
pub enum EventModel {
    QueryDone { result: Result<Seq<PnpEntityModel>, QueryErrorModel> },
    CommandDone { outcome: CommandOutcomeModel },
    WaitDone,
}

impl View for ResetEvent {
    type V = EventModel;

    open spec fn view(&self) -> EventModel {
        match self {
            ResetEvent::QueryDone { result } => EventModel::QueryDone {
                result: match result {
                    Ok(rows) => Ok(entities_model(rows@)),
                    Err(e) => Err(e@),
                },
            },
            ResetEvent::CommandDone { outcome } => EventModel::CommandDone { outcome: outcome@ },
            ResetEvent::WaitDone => EventModel::WaitDone,
        }
    }
}

/// What the session asks the outside world to do next. Each non-terminal
/// state asks for exactly one thing; the terminal states report the result.
pub enum ResetAction {
    RunQuery { query: String },
    RunCommand { disable: bool, args: Vec<String> },
    Wait { seconds: u64 },
    Succeed,
    Fail { error: ResetError },
}

/// The mathematical value of a [`ResetAction`].
pub enum ActionModel {
    RunQuery { query: Seq<char> },
    RunCommand { disable: bool, args: Seq<Seq<char>> },
    Wait { seconds: u64 },
    Succeed,
    Fail { error: ResetErrorModel },
}

impl View for ResetAction {
    type V = ActionModel;

    open spec fn view(&self) -> ActionModel {
        match self {
            ResetAction::RunQuery { query } => ActionModel::RunQuery { query: query@ },
            ResetAction::RunCommand { disable, args } => ActionModel::RunCommand {
                disable: *disable,
                args: args_model(args@),
            },
            ResetAction::Wait { seconds } => ActionModel::Wait { seconds: *seconds },
            ResetAction::Succeed => ActionModel::Succeed,
            ResetAction::Fail { error } => ActionModel::Fail { error: error@ },
        }
    }
}

/// What the lookup rows resolve to: the instance identifier of the first
/// matching device; a "not found" failure when no device matched; a "missing
/// identifier" failure when the first match reports none. When the name is
/// ambiguous, only the first match counts.
pub open spec fn resolve_model(list: Seq<PnpEntityModel>) -> Result<Seq<char>, ResetErrorModel> {
    if list.len() == 0 {
        Err(ResetErrorModel::NotFound)
    } else {
        match list[0].pnp_device_id {
            Option::None => Err(ResetErrorModel::MissingDeviceId),
            Option::Some(id) => Ok(id),
        }
    }
}

/// Resolves the rows of the lookup query to the device instance identifier.
pub fn resolve_instance_id(list: Vec<PnpEntity>) -> (r: Result<String, ResetError>)
    ensures
        resolve_model(entities_model(list@)) matches Ok(id) ==> r matches Ok(s) && s@ == id,
        resolve_model(entities_model(list@)) matches Err(e) ==> r matches Err(err) && err@ == e,
{
    let mut list = list;
    if list.len() == 0 {
        Err(ResetError::NotFound)
    } else {
        let first = list.remove(0);
        match first.pnp_device_id {
            None => Err(ResetError::MissingDeviceId),
            Some(id) => Ok(id),
        }
    }
}

/// Whether the session in state `s` is waiting for an event of `e`'s kind.
/// The terminal states wait for nothing.
pub open spec fn accepts(s: StateModel, e: EventModel) -> bool {
    match (s, e) {
        (StateModel::Querying { .. }, EventModel::QueryDone { .. }) => true,
        (StateModel::Disabling { .. }, EventModel::CommandDone { .. }) => true,
        (StateModel::Waiting { .. }, EventModel::WaitDone) => true,
        (StateModel::Enabling { .. }, EventModel::CommandDone { .. }) => true,
        _ => false,
    }
}

/// The session's transition function. A failed query, an unmatched name, a
/// missing identifier, a failed launch or a non-success exit each end the
/// session in `Failed`; otherwise the session advances one stage, and the
/// enable command's success ends it in `Done`.
pub open spec fn step_model(s: StateModel, e: EventModel) -> StateModel {
    match (s, e) {
        (StateModel::Querying { .. }, EventModel::QueryDone { result }) => match result {
            Err(qe) => StateModel::Failed { error: ResetErrorModel::Query { error: qe } },
            Ok(list) => match resolve_model(list) {
                Ok(id) => StateModel::Disabling { instance_id: id },
                Err(err) => StateModel::Failed { error: err },
            },
        },
        (StateModel::Disabling { instance_id }, EventModel::CommandDone { outcome }) => match outcome {
            CommandOutcomeModel::LaunchFailed { detail } => StateModel::Failed {
                error: ResetErrorModel::CommandLaunch { disable: true, detail },
            },
            CommandOutcomeModel::Exited { success, status } => if success {
                StateModel::Waiting { instance_id }
            } else {
                StateModel::Failed {
                    error: ResetErrorModel::CommandFailed { disable: true, status },
                }
            },
        },
        (StateModel::Waiting { instance_id }, EventModel::WaitDone) => StateModel::Enabling {
            instance_id,
        },
        (StateModel::Enabling { .. }, EventModel::CommandDone { outcome }) => match outcome {
            CommandOutcomeModel::LaunchFailed { detail } => StateModel::Failed {
                error: ResetErrorModel::CommandLaunch { disable: false, detail },
            },
            CommandOutcomeModel::Exited { success, status } => if success {
                StateModel::Done
            } else {
                StateModel::Failed {
                    error: ResetErrorModel::CommandFailed { disable: false, status },
                }
            },
        },
        _ => s,
    }
}

/// The one thing the outside world is to do in state `s`: issue the lookup
/// query, run the disable or the enable command, wait, or report the result.
pub open spec fn action_model(s: StateModel) -> ActionModel {
    match s {
        StateModel::Querying { gpu_name } => ActionModel::RunQuery {
            query: pnp_entity_query_model(gpu_name),
        },
        StateModel::Disabling { instance_id } => ActionModel::RunCommand {
            disable: true,
            args: interpreter_args_model(instance_id, true),
        },
        StateModel::Waiting { .. } => ActionModel::Wait { seconds: WAIT_SECONDS },
        StateModel::Enabling { instance_id } => ActionModel::RunCommand {
            disable: false,
            args: interpreter_args_model(instance_id, false),
        },
        StateModel::Done => ActionModel::Succeed,
        StateModel::Failed { error } => ActionModel::Fail { error },
    }
}

/// The initial state of a reset session for the given device name.
pub fn start_reset(gpu_name: String) -> (s: ResetState)
    ensures
        s@ == (StateModel::Querying { gpu_name: gpu_name@ }),
{
    ResetState::Querying { gpu_name }
}

/// Whether the session in `state` is waiting for an event of `event`'s kind;
/// an unverified driver of the session can check this before stepping.
pub fn accepts_event(state: &ResetState, event: &ResetEvent) -> (b: bool)
    ensures
        b == accepts(state@, event@),
{
    match (state, event) {
        (ResetState::Querying { .. }, ResetEvent::QueryDone { .. }) => true,
        (ResetState::Disabling { .. }, ResetEvent::CommandDone { .. }) => true,
        (ResetState::Waiting { .. }, ResetEvent::WaitDone) => true,
        (ResetState::Enabling { .. }, ResetEvent::CommandDone { .. }) => true,
        _ => false,
    }
}

/// Advances the session by one event.
pub fn step(state: ResetState, event: ResetEvent) -> (r: ResetState)
    requires
        accepts(state@, event@),
    ensures
        r@ == step_model(state@, event@),
{
    match (state, event) {
        (ResetState::Querying { .. }, ResetEvent::QueryDone { result }) => match result {
            Err(e) => ResetState::Failed { error: ResetError::Query { error: e } },
            Ok(list) => match resolve_instance_id(list) {
                Ok(id) => ResetState::Disabling { instance_id: id },
                Err(err) => ResetState::Failed { error: err },
            },
        },
        (ResetState::Disabling { instance_id }, ResetEvent::CommandDone { outcome }) => match outcome {
            CommandOutcome::LaunchFailed { detail } => ResetState::Failed {
                error: ResetError::CommandLaunch { disable: true, detail },
            },
            CommandOutcome::Exited { success, status } => if success {
                ResetState::Waiting { instance_id }
            } else {
                ResetState::Failed {
                    error: ResetError::CommandFailed { disable: true, status },
                }
            },
        },
        (ResetState::Waiting { instance_id }, ResetEvent::WaitDone) => ResetState::Enabling {
            instance_id,
        },
        (ResetState::Enabling { .. }, ResetEvent::CommandDone { outcome }) => match outcome {
            CommandOutcome::LaunchFailed { detail } => ResetState::Failed {
                error: ResetError::CommandLaunch { disable: false, detail },
            },
            CommandOutcome::Exited { success, status } => if success {
                ResetState::Done
            } else {
                ResetState::Failed {
                    error: ResetError::CommandFailed { disable: false, status },
                }
            },
        },
        (s, _) => s,
    }
}

/// The action the session asks for in its current state.
pub fn next_action(state: &ResetState) -> (r: ResetAction)
    ensures
        r@ == action_model(state@),
{
    match state {
        ResetState::Querying { gpu_name } => ResetAction::RunQuery {
            query: pnp_entity_query(gpu_name.as_str()),
        },
        ResetState::Disabling { instance_id } => ResetAction::RunCommand {
            disable: true,
            args: interpreter_args(instance_id.as_str(), true),
        },
        ResetState::Waiting { .. } => ResetAction::Wait { seconds: WAIT_SECONDS },
        ResetState::Enabling { instance_id } => ResetAction::RunCommand {
            disable: false,
            args: interpreter_args(instance_id.as_str(), false),
        },
        ResetState::Done => ResetAction::Succeed,
        ResetState::Failed { error } => ResetAction::Fail { error: error.clone() },
    }
}

/// The caller-facing report of a finished reset: a fixed success marker, or
/// the failure's human-readable text.
pub fn reset_report(outcome: Result<(), ResetError>) -> (r: Result<&'static str, String>)
    ensures
        outcome matches Ok(_) ==> r matches Ok(m) && m@ == ("OK")@,
        outcome matches Err(e) ==> r matches Err(msg) && msg@ == reset_error_message_model(e@),
{
    match outcome {
        Ok(_) => Ok("OK"),
        Err(e) => Err(e.message()),
    }
}

} // verus!
