//! Voice-session lifecycle of a chat bot, and the text of its commands.
//!
//! The network work (gateway handshakes, audio-node requests, sending
//! messages) is done by the caller; this crate decides what to do next and
//! what to say, and proves that those decisions keep a guild's gateway
//! connection and audio-node session paired.

mod commands;
mod join;
mod leave;
mod lifecycle;
mod reply;
mod voice;

pub use join::{join_advance, join_begin, join_reply, JoinAction, JoinOutcome};
pub use reply::{join_failed_text, joined_text, left_text, not_in_voice_text};
pub use voice::{resolve, JoinError, VoiceStates};
pub use leave::{leave_advance, leave_begin, LeaveAction};
pub use lifecycle::{GuildRequest, JoinResults, LeaveResults, Presence};
pub use commands::{
    help_description, help_fields, help_title, ping_text, play_reply, play_searching_text, CommandInfo,
    HelpField,
};
