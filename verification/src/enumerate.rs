use vstd::prelude::*;
use crate::device::VideoController;
use crate::error::QueryError;
use crate::error::query_error_message_model;

verus! {

/// The text of the read-only query that enumerates the installed video
/// controllers, scoped to the three reported columns.
pub fn video_controller_query() -> (r: &'static str)
    ensures
        r@ == ("SELECT Name, DriverVersion, Status FROM Win32_VideoController")@,
{
    "SELECT Name, DriverVersion, Status FROM Win32_VideoController"
}

/// The computing half of the enumeration operation, applied to the outcome
/// of the management query: the rows pass through unchanged — in particular,
/// a system with zero video controllers yields an empty list, not an error —
/// and a query failure is surfaced as its human-readable text.
pub fn gpu_info_result(outcome: Result<Vec<VideoController>, QueryError>) -> (r: Result<
    Vec<VideoController>,
    String,
>)
    ensures
        outcome matches Ok(rows) ==> r matches Ok(out) && out@ == rows@,
        (outcome matches Ok(rows) && rows@.len() == 0) ==> (r matches Ok(out) && out@.len() == 0),
        outcome matches Err(e) ==> r matches Err(msg) && msg@ == query_error_message_model(e@),
{
    match outcome {
        Ok(rows) => Ok(rows),
        Err(e) => Err(e.message()),
    }
}

} // verus!
