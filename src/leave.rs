use vstd::prelude::*;

verus! {

/// The next step of a leave request, to be performed by the caller.
///
/// After `DeleteSession` and `RemoveConnection` the caller reports the
/// step's result to [`leave_advance`]; `Finish` ends the request, which is
/// always acknowledged with the same message.
#[derive(Debug)]
pub enum LeaveAction {
    /// Ask the audio node to delete the guild's session; then remove the
    /// gateway connection when `then_remove`.
    DeleteSession { then_remove: bool },
    /// Remove the guild's gateway connection; `delete_failure` is why the
    /// session deletion before it failed, if it did.
    RemoveConnection { delete_failure: Option<String> },
    /// The request is over; `outcome` holds the first failure, if any.
    Finish { outcome: Result<(), String> },
}

/// First step of a leave: delete the session if there is one, remove the
/// connection if there is one, each independently of the other.
pub open spec fn leave_begin_spec(session_exists: bool, connection_recorded: bool) -> LeaveAction {
    if session_exists {
        LeaveAction::DeleteSession { then_remove: connection_recorded }
    } else if connection_recorded {
        LeaveAction::RemoveConnection { delete_failure: None }
    } else {
        LeaveAction::Finish { outcome: Ok(()) }
    }
}

/// The step that follows `pending` once the caller performed it with `result`.
pub open spec fn leave_advance_spec(pending: LeaveAction, result: Result<(), String>) -> LeaveAction {
    match pending {
        LeaveAction::DeleteSession { then_remove } => {
            if then_remove {
                LeaveAction::RemoveConnection {
                    delete_failure: match result {
                        Ok(_) => None,
                        Err(why) => Some(why),
                    },
                }
            } else {
                LeaveAction::Finish { outcome: result }
            }
        },
        LeaveAction::RemoveConnection { delete_failure } => LeaveAction::Finish {
            outcome: match delete_failure {
                Some(why) => Err(why),
                None => result,
            },
        },
        LeaveAction::Finish { outcome } => LeaveAction::Finish { outcome },
    }
}

/// Starts a leave request for a guild, given whether the audio node holds a
/// session for it and whether the gateway records a connection for it.
pub fn leave_begin(session_exists: bool, connection_recorded: bool) -> (r: LeaveAction)
    ensures
        r == leave_begin_spec(session_exists, connection_recorded),
{
    if session_exists {
        LeaveAction::DeleteSession { then_remove: connection_recorded }
    } else if connection_recorded {
        LeaveAction::RemoveConnection { delete_failure: None }
    } else {
        LeaveAction::Finish { outcome: Ok(()) }
    }
}

/// Moves a leave request on, given the result of the step it asked for.
/// A failed step never stops the next one.
pub fn leave_advance(pending: LeaveAction, result: Result<(), String>) -> (r: LeaveAction)
    ensures
        r == leave_advance_spec(pending, result),
{
    match pending {
        LeaveAction::DeleteSession { then_remove } => {
            if then_remove {
                LeaveAction::RemoveConnection {
                    delete_failure: match result {
                        Ok(_) => None,
                        Err(why) => Some(why),
                    },
                }
            } else {
                LeaveAction::Finish { outcome: result }
            }
        },
        LeaveAction::RemoveConnection { delete_failure } => LeaveAction::Finish {
            outcome: match delete_failure {
                Some(why) => Err(why),
                None => result,
            },
        },
        LeaveAction::Finish { outcome } => LeaveAction::Finish { outcome },
    }
}

} // verus!
