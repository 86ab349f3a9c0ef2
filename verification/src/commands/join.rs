use vstd::prelude::*;

verus! {

pub const NOT_IN_VOICE_REPLY: &'static str = "It doesn't look like you're in a voice channel. Please join a voice channel before running this command.";

/// What the join command does.
#[derive(Debug, PartialEq, Eq)]
pub enum JoinPlan {
    /// Connect to this voice channel.
    Connect(u64),
    /// Reply with this text.
    Reply(String),
}

/// Join the voice channel of the user who asked, or tell them that they
/// are in none.
pub fn join_plan(user_channel: Option<u64>) -> (r: JoinPlan)
    ensures
        match user_channel {
            Some(channel) => r == JoinPlan::Connect(channel),
            None => r matches JoinPlan::Reply(text) && text@ == NOT_IN_VOICE_REPLY@,
        },
{
    match user_channel {
        Some(channel) => JoinPlan::Connect(channel),
        None => JoinPlan::Reply(String::from_str(NOT_IN_VOICE_REPLY)),
    }
}

} // verus!
