use vstd::prelude::*;
use crate::models::active_threads::ActiveThreads;

verus! {

/// The bot answers every message of someone else in one of its threads.
pub fn should_reply_in_thread(active: &ActiveThreads, channel_id: u64, is_own: bool) -> (r: bool)
    ensures
        r == (active@.contains(channel_id) && !is_own),
{
    active.contains(channel_id) && !is_own
}

} // verus!
