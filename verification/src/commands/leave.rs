use vstd::prelude::*;

verus! {

pub const NOT_CONNECTED_REPLY: &'static str = "It doesn't look like I'm in a voice channel, so this command won't do anything.";

/// What the leave command does.
#[derive(Debug, PartialEq, Eq)]
pub enum LeavePlan {
    /// Leave the server's voice channel.
    Disconnect,
    /// Reply with this text.
    Reply(String),
}

/// Leave when the bot is in a voice channel of the server, else say so.
pub fn leave_plan(has_handler: bool) -> (r: LeavePlan)
    ensures
        has_handler ==> r is Disconnect,
        !has_handler ==> (r matches LeavePlan::Reply(text) && text@ == NOT_CONNECTED_REPLY@),
{
    if has_handler {
        LeavePlan::Disconnect
    } else {
        LeavePlan::Reply(String::from_str(NOT_CONNECTED_REPLY))
    }
}

} // verus!
