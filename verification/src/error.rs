use vstd::prelude::*;
use vstd::string::StringExecFns;
use crate::command::cmdlet_model;
use crate::command::cmdlet_name;

verus! {

/// Why a management query could not be answered: the query interface itself
/// failed to initialise, or the query failed to execute. `detail` carries the
/// text the underlying system reported.
#[derive(Debug)]
pub enum QueryError {
    InterfaceInit { detail: String },
    Exec { detail: String },
}

/// The mathematical value of a [`QueryError`].
pub enum QueryErrorModel {
    InterfaceInit { detail: Seq<char> },
    Exec { detail: Seq<char> },
}

impl View for QueryError {
    type V = QueryErrorModel;

    open spec fn view(&self) -> QueryErrorModel {
        match self {
            QueryError::InterfaceInit { detail } => QueryErrorModel::InterfaceInit {
                detail: detail@,
            },
            QueryError::Exec { detail } => QueryErrorModel::Exec { detail: detail@ },
        }
    }
}

/// Why a reset failed: the lookup query failed, no device carries the given
/// name, the matched device reports no instance identifier, a lifecycle
/// command could not be launched, or a lifecycle command exited with a
/// non-success status. `disable` tells which of the two commands was
/// involved; `status` carries the text of the non-success exit status.
#[derive(Debug)]
pub enum ResetError {
    Query { error: QueryError },
    NotFound,
    MissingDeviceId,
    CommandLaunch { disable: bool, detail: String },
    CommandFailed { disable: bool, status: String },
}

/// The mathematical value of a [`ResetError`].
pub enum ResetErrorModel {
    Query { error: QueryErrorModel },
    NotFound,
    MissingDeviceId,
    CommandLaunch { disable: bool, detail: Seq<char> },
    CommandFailed { disable: bool, status: Seq<char> },
}

impl View for ResetError {
    type V = ResetErrorModel;

    open spec fn view(&self) -> ResetErrorModel {
        match self {
            ResetError::Query { error } => ResetErrorModel::Query { error: error@ },
            ResetError::NotFound => ResetErrorModel::NotFound,
            ResetError::MissingDeviceId => ResetErrorModel::MissingDeviceId,
            ResetError::CommandLaunch { disable, detail } => ResetErrorModel::CommandLaunch {
                disable: *disable,
                detail: detail@,
            },
            ResetError::CommandFailed { disable, status } => ResetErrorModel::CommandFailed {
                disable: *disable,
                status: status@,
            },
        }
    }
}

/// The human-readable text of a query failure: the reported detail, as it is.
pub open spec fn query_error_message_model(e: QueryErrorModel) -> Seq<char> {
    match e {
        QueryErrorModel::InterfaceInit { detail } => detail,
        QueryErrorModel::Exec { detail } => detail,
    }
}

/// The human-readable text of a non-success exit of a lifecycle command: the
/// cmdlet's name, then the exit status.
pub open spec fn command_failed_message_model(disable: bool, status: Seq<char>) -> Seq<char> {
    cmdlet_model(disable) + (" failed: ")@ + status
}

/// The human-readable text of a reset failure. Every failure is surfaced to
/// the caller as such text and nothing else.
pub open spec fn reset_error_message_model(e: ResetErrorModel) -> Seq<char> {
    match e {
        ResetErrorModel::Query { error } => query_error_message_model(error),
        ResetErrorModel::NotFound => ("GPU not found")@,
        ResetErrorModel::MissingDeviceId => ("DeviceID missing")@,
        ResetErrorModel::CommandLaunch { detail, .. } => detail,
        ResetErrorModel::CommandFailed { disable, status } => command_failed_message_model(
            disable,
            status,
        ),
    }
}

impl Clone for QueryError {
    /// A copy with the same mathematical value.
    fn clone(&self) -> (r: Self)
        ensures
            r@ == self@,
    {
        match self {
            QueryError::InterfaceInit { detail } => QueryError::InterfaceInit {
                detail: detail.clone(),
            },
            QueryError::Exec { detail } => QueryError::Exec { detail: detail.clone() },
        }
    }
}

impl Clone for ResetError {
    /// A copy with the same mathematical value.
    fn clone(&self) -> (r: Self)
        ensures
            r@ == self@,
    {
        match self {
            ResetError::Query { error } => ResetError::Query { error: error.clone() },
            ResetError::NotFound => ResetError::NotFound,
            ResetError::MissingDeviceId => ResetError::MissingDeviceId,
            ResetError::CommandLaunch { disable, detail } => ResetError::CommandLaunch {
                disable: *disable,
                detail: detail.clone(),
            },
            ResetError::CommandFailed { disable, status } => ResetError::CommandFailed {
                disable: *disable,
                status: status.clone(),
            },
        }
    }
}

impl QueryError {
    /// The human-readable text of this failure.
    pub fn message(&self) -> (r: String)
        ensures
            r@ == query_error_message_model(self@),
    {
        match self {
            QueryError::InterfaceInit { detail } => detail.clone(),
            QueryError::Exec { detail } => detail.clone(),
        }
    }
}

impl ResetError {
    /// The human-readable text of this failure.
    pub fn message(&self) -> (r: String)
        ensures
            r@ == reset_error_message_model(self@),
    {
        match self {
            ResetError::Query { error } => error.message(),
            ResetError::NotFound => String::from_str("GPU not found"),
            ResetError::MissingDeviceId => String::from_str("DeviceID missing"),
            ResetError::CommandLaunch { detail, .. } => detail.clone(),
            ResetError::CommandFailed { disable, status } => {
                let mut t = String::from_str(cmdlet_name(*disable));
                t.append(" failed: ");
                t.append(status.as_str());
                proof {
                    assert(t@ =~= command_failed_message_model(*disable, status@));
                }
                t
            },
        }
    }
}

} // verus!
