use std::collections::HashMap;
use vstd::prelude::*;

verus! {

broadcast use vstd::std_specs::hash::group_hash_axioms;

/// Why a join request did not end in a bound session.
#[derive(Debug)]
pub enum JoinError {
    /// The invoking user named no channel and sits in no voice channel.
    NotInVoiceChannel,
    /// The gateway refused or failed the voice handshake.
    Connect(String),
    /// The audio node did not register the session.
    Bind(String),
}

/// A guild's voice-state table: the voice channel that each user sits in.
///
/// Channel identifiers are gateway snowflakes and therefore never zero.
pub struct VoiceStates {
    channels: HashMap<u64, u64>,
}

impl View for VoiceStates {
    type V = Map<u64, u64>;

    closed spec fn view(&self) -> Map<u64, u64> {
        self.channels@
    }
}

impl VoiceStates {
    /// Every recorded channel is a valid (non-zero) identifier.
    pub closed spec fn wf(&self) -> bool {
        forall|u: u64| #[trigger] self.channels@.contains_key(u) ==> self.channels@[u] != 0
    }

    /// A table in which nobody sits in a voice channel.
    pub fn new() -> (r: VoiceStates)
        ensures
            r@ == Map::<u64, u64>::empty(),
            r.wf(),
    {
        VoiceStates { channels: HashMap::new() }
    }

    /// Records that `user` now sits in `channel`.
    pub fn set_channel(&mut self, user: u64, channel: u64)
        requires
            old(self).wf(),
            channel != 0,
        ensures
            final(self)@ == old(self)@.insert(user, channel),
            final(self).wf(),
    {
        self.channels.insert(user, channel);
    }

    /// The channel that `user` sits in, if any.
    pub fn channel_of(&self, user: u64) -> (r: Option<u64>)
        requires
            self.wf(),
        ensures
            r == channel_of_spec(self@, user),
            r matches Some(c) ==> c != 0,
    {
        match self.channels.get(&user) {
            Some(c) => Some(*c),
            None => None,
        }
    }
}

/// The channel that `user` sits in according to `states`.
pub open spec fn channel_of_spec(states: Map<u64, u64>, user: u64) -> Option<u64> {
    if states.contains_key(user) {
        Some(states[user])
    } else {
        None
    }
}

/// The voice channel a join request targets: the explicit one when given,
/// else the invoking user's current channel.
pub open spec fn resolve_spec(states: Map<u64, u64>, user: u64, explicit: Option<u64>) -> Result<u64, JoinError> {
    match explicit {
        Some(c) => Ok(c),
        None => match channel_of_spec(states, user) {
            Some(c) => Ok(c),
            None => Err(JoinError::NotInVoiceChannel),
        },
    }
}

/// Determines the voice channel that a join request targets.
pub fn resolve(states: &VoiceStates, user: u64, explicit: Option<u64>) -> (r: Result<u64, JoinError>)
    requires
        states.wf(),
    ensures
        r == resolve_spec(states@, user, explicit),
        explicit != Some(0u64) ==> (r matches Ok(c) ==> c != 0),
{
    match explicit {
        Some(c) => Ok(c),
        None => match states.channel_of(user) {
            Some(c) => Ok(c),
            None => Err(JoinError::NotInVoiceChannel),
        },
    }
}

} // verus!
