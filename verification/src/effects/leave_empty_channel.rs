use vstd::prelude::*;

verus! {

/// What the bot does when a user leaves a voice channel that it is in.
#[derive(Debug, Clone, Copy, PartialEq, Eq, Structural)]
pub enum EmptyChannelAction {
    /// Others are still in the channel: stay.
    Stay,
    /// The bot is alone: leave.
    Leave,
    /// The bot is alone but holds no voice connection: only a note in the log.
    NotConnected,
}

/// The bot leaves a voice channel in which it is alone (at most one
/// member, itself), if it holds a connection there.
pub fn empty_channel_action(member_count: usize, has_handler: bool) -> (r: EmptyChannelAction)
    ensures
        r == (if member_count > 1 {
            EmptyChannelAction::Stay
        } else if has_handler {
            EmptyChannelAction::Leave
        } else {
            EmptyChannelAction::NotConnected
        }),
{
    if member_count <= 1 {
        if has_handler {
            EmptyChannelAction::Leave
        } else {
            EmptyChannelAction::NotConnected
        }
    } else {
        EmptyChannelAction::Stay
    }
}

} // verus!
