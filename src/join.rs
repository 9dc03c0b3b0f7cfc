use vstd::prelude::*;
use crate::reply::{join_failed_text, joined_text, mention_text, not_in_voice_text};
use crate::voice::{resolve, resolve_spec, JoinError, VoiceStates};

verus! {

/// How a join request ends when nothing failed.
#[derive(Debug, PartialEq, Eq, Structural)]
pub enum JoinOutcome {
    /// The guild already had an audio-node session: nothing was done.
    AlreadyJoined,
    /// A gateway connection to `channel` was made and registered with the audio node.
    Joined { channel: u64 },
}

/// The next step of a join request, to be performed by the caller.
///
/// After `Connect`, `Bind` and `Disconnect` the caller reports the step's
/// result to [`join_advance`]; `Finish` ends the request.
#[derive(Debug)]
pub enum JoinAction {
    /// Perform the gateway voice handshake for the guild and `channel`.
    Connect { channel: u64 },
    /// Register the connection just made to `channel` with the audio node,
    /// together with the originating text channel and the messaging handle.
    Bind { channel: u64 },
    /// Release the guild's gateway connection, because binding failed with `cause`.
    Disconnect { cause: String },
    /// The request is over.
    Finish { outcome: Result<JoinOutcome, JoinError> },
}

/// Channel identifiers that a join action carries are valid (non-zero).
pub open spec fn join_action_wf(a: JoinAction) -> bool {
    match a {
        JoinAction::Connect { channel } => channel != 0,
        JoinAction::Bind { channel } => channel != 0,
        JoinAction::Disconnect { .. } => true,
        JoinAction::Finish { outcome } => outcome matches Ok(JoinOutcome::Joined { channel }) ==> channel != 0,
    }
}

/// First step of a join: skip when a session exists, else resolve the target
/// channel and connect to it.
pub open spec fn join_begin_spec(
    session_exists: bool,
    states: Map<u64, u64>,
    user: u64,
    explicit: Option<u64>,
) -> JoinAction {
    if session_exists {
        JoinAction::Finish { outcome: Ok(JoinOutcome::AlreadyJoined) }
    } else {
        match resolve_spec(states, user, explicit) {
            Ok(channel) => JoinAction::Connect { channel },
            Err(e) => JoinAction::Finish { outcome: Err(e) },
        }
    }
}

/// The step that follows `pending` once the caller performed it with `result`.
pub open spec fn join_advance_spec(pending: JoinAction, result: Result<(), String>) -> JoinAction {
    match pending {
        JoinAction::Connect { channel } => match result {
            Ok(_) => JoinAction::Bind { channel },
            Err(why) => JoinAction::Finish { outcome: Err(JoinError::Connect(why)) },
        },
        JoinAction::Bind { channel } => match result {
            Ok(_) => JoinAction::Finish { outcome: Ok(JoinOutcome::Joined { channel }) },
            Err(why) => JoinAction::Disconnect { cause: why },
        },
        JoinAction::Disconnect { cause } => JoinAction::Finish { outcome: Err(JoinError::Bind(cause)) },
        JoinAction::Finish { outcome } => JoinAction::Finish { outcome },
    }
}

/// Starts a join request for a guild.
///
/// `session_exists` is the audio node's answer for the guild, `states` the
/// guild's voice-state table, `user` the invoking user and `explicit` the
/// channel named in the command, if any.
pub fn join_begin(session_exists: bool, states: &VoiceStates, user: u64, explicit: Option<u64>) -> (r: JoinAction)
    requires
        states.wf(),
        explicit != Some(0u64),
    ensures
        r == join_begin_spec(session_exists, states@, user, explicit),
        join_action_wf(r),
{
    if session_exists {
        JoinAction::Finish { outcome: Ok(JoinOutcome::AlreadyJoined) }
    } else {
        match resolve(states, user, explicit) {
            Ok(channel) => JoinAction::Connect { channel },
            Err(e) => JoinAction::Finish { outcome: Err(e) },
        }
    }
}

/// Moves a join request on, given the result of the step it asked for.
pub fn join_advance(pending: JoinAction, result: Result<(), String>) -> (r: JoinAction)
    requires
        join_action_wf(pending),
    ensures
        r == join_advance_spec(pending, result),
        join_action_wf(r),
{
    match pending {
        JoinAction::Connect { channel } => match result {
            Ok(_) => JoinAction::Bind { channel },
            Err(why) => JoinAction::Finish { outcome: Err(JoinError::Connect(why)) },
        },
        JoinAction::Bind { channel } => match result {
            Ok(_) => JoinAction::Finish { outcome: Ok(JoinOutcome::Joined { channel }) },
            Err(why) => JoinAction::Disconnect { cause: why },
        },
        JoinAction::Disconnect { cause } => JoinAction::Finish { outcome: Err(JoinError::Bind(cause)) },
        JoinAction::Finish { outcome } => JoinAction::Finish { outcome },
    }
}

/// What the user is told when a join request ends with `outcome`; nothing
/// when the guild was already joined.
pub open spec fn join_reply_spec(outcome: Result<JoinOutcome, JoinError>) -> Option<Seq<char>> {
    match outcome {
        Ok(JoinOutcome::AlreadyJoined) => None,
        Ok(JoinOutcome::Joined { channel }) => Some("Joined "@ + mention_text(channel)),
        Err(JoinError::NotInVoiceChannel) => Some("Not in a voice channel!"@),
        Err(JoinError::Connect(why)) => Some("Error while joining channel : "@ + why@),
        Err(JoinError::Bind(why)) => Some("Error while joining channel : "@ + why@),
    }
}

/// The message that ends a join request with `outcome`, if any.
pub fn join_reply(outcome: &Result<JoinOutcome, JoinError>) -> (r: Option<String>)
    requires
        outcome matches Ok(JoinOutcome::Joined { channel }) ==> channel != 0,
    ensures
        match r {
            Some(t) => join_reply_spec(*outcome) == Some(t@),
            None => join_reply_spec(*outcome) is None,
        },
{
    match outcome {
        Ok(JoinOutcome::AlreadyJoined) => None,
        Ok(JoinOutcome::Joined { channel }) => Some(joined_text(*channel)),
        Err(JoinError::NotInVoiceChannel) => Some(not_in_voice_text()),
        Err(JoinError::Connect(why)) => Some(join_failed_text(why)),
        Err(JoinError::Bind(why)) => Some(join_failed_text(why)),
    }
}

} // verus!
