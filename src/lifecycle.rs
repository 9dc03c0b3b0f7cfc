//! What a guild's two registries hold as join and leave requests run, and
//! the laws that the join and leave steps keep.
use vstd::prelude::*;
use crate::join::{join_advance_spec, join_begin_spec, JoinAction, JoinOutcome};
use crate::leave::{leave_advance_spec, leave_begin_spec, LeaveAction};

verus! {

/// What the gateway (a voice connection) and the audio node (a session)
/// hold for one guild.
pub struct Presence {
    pub connected: bool,
    pub session: bool,
}

/// Either both a connection and a session exist, or neither does.
pub open spec fn paired(p: Presence) -> bool {
    p.connected == p.session
}

/// The results that the gateway and the audio node give a join request's steps.
pub struct JoinResults {
    pub connect: Result<(), String>,
    pub bind: Result<(), String>,
    pub disconnect: Result<(), String>,
}

/// The results that the audio node and the gateway give a leave request's steps.
pub struct LeaveResults {
    pub delete: Result<(), String>,
    pub remove: Result<(), String>,
}

/// What performing join step `a` does to the registries, when it succeeds.
pub open spec fn join_effect(p: Presence, a: JoinAction, ok: bool) -> Presence {
    if !ok {
        p
    } else {
        match a {
            JoinAction::Connect { .. } => Presence { connected: true, session: p.session },
            JoinAction::Bind { .. } => Presence { connected: p.connected, session: true },
            JoinAction::Disconnect { .. } => Presence { connected: false, session: p.session },
            JoinAction::Finish { .. } => p,
        }
    }
}

/// The result that `res` gives to join step `a`.
pub open spec fn join_result(a: JoinAction, res: JoinResults) -> Result<(), String> {
    match a {
        JoinAction::Connect { .. } => res.connect,
        JoinAction::Bind { .. } => res.bind,
        _ => res.disconnect,
    }
}

/// Runs join steps from `a` on, for at most `fuel` of them.
pub open spec fn drive_join(p: Presence, a: JoinAction, res: JoinResults, fuel: nat) -> (Presence, JoinAction)
    decreases fuel,
{
    if fuel == 0 || a is Finish {
        (p, a)
    } else {
        let r = join_result(a, res);
        drive_join(join_effect(p, a, r is Ok), join_advance_spec(a, r), res, (fuel - 1) as nat)
    }
}

/// A whole join request on a guild whose registries hold `p`: the registries
/// afterwards, and the final step.
pub open spec fn join_run(
    p: Presence,
    states: Map<u64, u64>,
    user: u64,
    explicit: Option<u64>,
    res: JoinResults,
) -> (Presence, JoinAction) {
    drive_join(p, join_begin_spec(p.session, states, user, explicit), res, 3)
}

/// What performing leave step `a` does to the registries, when it succeeds.
pub open spec fn leave_effect(p: Presence, a: LeaveAction, ok: bool) -> Presence {
    if !ok {
        p
    } else {
        match a {
            LeaveAction::DeleteSession { .. } => Presence { connected: p.connected, session: false },
            LeaveAction::RemoveConnection { .. } => Presence { connected: false, session: p.session },
            LeaveAction::Finish { .. } => p,
        }
    }
}

/// The result that `res` gives to leave step `a`.
pub open spec fn leave_result(a: LeaveAction, res: LeaveResults) -> Result<(), String> {
    match a {
        LeaveAction::DeleteSession { .. } => res.delete,
        _ => res.remove,
    }
}

/// Runs leave steps from `a` on, for at most `fuel` of them.
pub open spec fn drive_leave(p: Presence, a: LeaveAction, res: LeaveResults, fuel: nat) -> (Presence, LeaveAction)
    decreases fuel,
{
    if fuel == 0 || a is Finish {
        (p, a)
    } else {
        let r = leave_result(a, res);
        drive_leave(leave_effect(p, a, r is Ok), leave_advance_spec(a, r), res, (fuel - 1) as nat)
    }
}

/// A whole leave request on a guild whose registries hold `p`.
pub open spec fn leave_run(p: Presence, res: LeaveResults) -> (Presence, LeaveAction) {
    drive_leave(p, leave_begin_spec(p.session, p.connected), res, 2)
}

/// One request on a guild: a join with its inputs, or a leave, each with
/// the results its steps get.
pub enum GuildRequest {
    Join { states: Map<u64, u64>, user: u64, explicit: Option<u64>, results: JoinResults },
    Leave { leave_results: LeaveResults },
}

/// The registries after `req` ran on a guild whose registries hold `p`.
pub open spec fn request_run(p: Presence, req: GuildRequest) -> Presence {
    match req {
        GuildRequest::Join { states, user, explicit, results } => join_run(p, states, user, explicit, results).0,
        GuildRequest::Leave { leave_results } => leave_run(p, leave_results).0,
    }
}

/// The registries after `reqs` ran one after another from `p`.
pub open spec fn requests_run(p: Presence, reqs: Seq<GuildRequest>) -> Presence
    decreases reqs.len(),
{
    if reqs.len() == 0 {
        p
    } else {
        requests_run(request_run(p, reqs[0]), reqs.drop_first())
    }
}

/// The request does not hit a failure that leaves one registry holding an
/// entry without the other: a bind failure whose rollback fails too, or a
/// failed removal during a leave.
pub open spec fn cleanly_handled(req: GuildRequest) -> bool {
    match req {
        GuildRequest::Join { results, .. } => results.bind is Err ==> results.disconnect is Ok,
        GuildRequest::Leave { leave_results } => leave_results.delete is Ok && leave_results.remove is Ok,
    }
}

/// Joining twice with no leave between: once the first request succeeded,
/// the guild holds one connection and one session, and the second request
/// performs no step at all and changes nothing.
pub proof fn lemma_join_twice(
    p: Presence,
    states: Map<u64, u64>,
    user: u64,
    explicit: Option<u64>,
    res: JoinResults,
    states2: Map<u64, u64>,
    user2: u64,
    explicit2: Option<u64>,
    res2: JoinResults,
)
    requires
        paired(p),
        join_run(p, states, user, explicit, res).1 matches JoinAction::Finish { outcome: Ok(_) },
    ensures
        join_run(p, states, user, explicit, res).0 == (Presence { connected: true, session: true }),
        join_begin_spec(join_run(p, states, user, explicit, res).0.session, states2, user2, explicit2)
            == (JoinAction::Finish { outcome: Ok(JoinOutcome::AlreadyJoined) }),
        join_run(join_run(p, states, user, explicit, res).0, states2, user2, explicit2, res2)
            == (join_run(p, states, user, explicit, res).0, JoinAction::Finish { outcome: Ok(JoinOutcome::AlreadyJoined) }),
{
    reveal_with_fuel(drive_join, 4);
}

/// A join request started from paired registries runs to its end and leaves
/// them paired, unless binding failed and the rollback of the connection
/// failed too.
pub proof fn lemma_join_keeps_pairing(
    p: Presence,
    states: Map<u64, u64>,
    user: u64,
    explicit: Option<u64>,
    res: JoinResults,
)
    requires
        paired(p),
        res.bind is Err ==> res.disconnect is Ok,
    ensures
        paired(join_run(p, states, user, explicit, res).0),
        join_run(p, states, user, explicit, res).1 is Finish,
{
    reveal_with_fuel(drive_join, 4);
}

/// A leave request whose removals succeed leaves neither a connection nor a
/// session, whatever the registries held before.
pub proof fn lemma_leave_clears(p: Presence, res: LeaveResults)
    requires
        res.delete is Ok,
        res.remove is Ok,
    ensures
        leave_run(p, res).0 == (Presence { connected: false, session: false }),
        leave_run(p, res).1 matches LeaveAction::Finish { outcome: Ok(_) },
{
    reveal_with_fuel(drive_leave, 3);
}

/// Leaving a guild that holds neither a connection nor a session performs
/// no step and succeeds, whatever the registries would answer.
pub proof fn lemma_leave_when_idle(res: LeaveResults)
    ensures
        leave_begin_spec(false, false) == (LeaveAction::Finish { outcome: Ok(()) }),
        leave_run(Presence { connected: false, session: false }, res)
            == (Presence { connected: false, session: false }, LeaveAction::Finish { outcome: Ok(()) }),
{
    reveal_with_fuel(drive_leave, 3);
}

/// Pairing holds after any sequence of join and leave requests on a guild
/// that started paired, as long as none of them hits a failure that strands
/// one registry's entry.
pub proof fn lemma_requests_keep_pairing(p: Presence, reqs: Seq<GuildRequest>)
    requires
        paired(p),
        forall|i: int| 0 <= i < reqs.len() ==> cleanly_handled(#[trigger] reqs[i]),
    ensures
        paired(requests_run(p, reqs)),
    decreases reqs.len(),
{
    if reqs.len() > 0 {
        assert(cleanly_handled(reqs[0]));
        match reqs[0] {
            GuildRequest::Join { states, user, explicit, results } => {
                lemma_join_keeps_pairing(p, states, user, explicit, results);
            },
            GuildRequest::Leave { leave_results } => {
                lemma_leave_clears(p, leave_results);
            },
        }
        let rest = reqs.drop_first();
        assert forall|i: int| 0 <= i < rest.len() implies cleanly_handled(#[trigger] rest[i]) by {
            assert(rest[i] == reqs[i + 1]);
        }
        lemma_requests_keep_pairing(request_run(p, reqs[0]), rest);
    }
}

} // verus!
