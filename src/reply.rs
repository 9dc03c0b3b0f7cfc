use vstd::prelude::*;
use vstd::string::StringExecFns;

verus! {

/// The decimal digit character for `d` (below ten).
pub open spec fn digit_char(d: nat) -> char {
    seq!['0', '1', '2', '3', '4', '5', '6', '7', '8', '9'][d as int]
}

/// The decimal writing of `n`, most significant digit first, without leading zeros.
pub open spec fn decimal(n: nat) -> Seq<char>
    decreases n,
{
    if n < 10 {
        seq![digit_char(n)]
    } else {
        decimal(n / 10) + seq![digit_char(n % 10)]
    }
}

/// How the gateway renders a mention of a channel: `<#`, the id, `>`.
pub open spec fn mention_text(channel: u64) -> Seq<char> {
    seq!['<', '#'] + decimal(channel as nat) + seq!['>']
}

/// Relies on serenity's `Mention` display for channels (`<#{id}>`, the id
/// written by `u64`'s `Display`), and on `ChannelId::new`, which panics on zero.
#[verifier::external_body]
fn channel_mention(channel: u64) -> (r: String)
    requires
        channel != 0,
    ensures
        r@ == mention_text(channel),
{
    serenity::model::mention::Mentionable::mention(&serenity::model::id::ChannelId::new(channel)).to_string()
}

/// The acknowledgment of a join that bound a session in `channel`.
pub fn joined_text(channel: u64) -> (r: String)
    requires
        channel != 0,
    ensures
        r@ == "Joined "@ + mention_text(channel),
{
    let mut s = String::from_str("Joined ");
    let m = channel_mention(channel);
    s.append(m.as_str());
    s
}

/// The report of a join that the gateway or the audio node failed.
pub fn join_failed_text(cause: &String) -> (r: String)
    ensures
        r@ == "Error while joining channel : "@ + cause@,
{
    let mut s = String::from_str("Error while joining channel : ");
    s.append(cause.as_str());
    s
}

/// The report of a join whose user sits in no voice channel.
pub fn not_in_voice_text() -> (r: String)
    ensures
        r@ == "Not in a voice channel!"@,
{
    String::from_str("Not in a voice channel!")
}

/// The single acknowledgment that ends every leave request.
pub fn left_text() -> (r: String)
    ensures
        r@ == "Left voice channel."@,
{
    String::from_str("Left voice channel.")
}

} // verus!
