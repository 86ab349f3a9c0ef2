use vstd::prelude::*;
use crate::models::active_threads::ActiveThreads;

verus! {

/// A mention of the bot outside its threads opens a conversation.
pub fn should_open_thread(mentions_me: bool, active: &ActiveThreads, channel_id: u64) -> (r: bool)
    ensures
        r == (mentions_me && !active@.contains(channel_id)),
{
    mentions_me && !active.contains(channel_id)
}

pub const CHAT_THREAD_NAME: &'static str = "Chatting";

pub const CHAT_THREAD_ARCHIVE_MINUTES: u16 = 60;

pub const CHAT_THREAD_RATE_LIMIT: u16 = 0;

/// The settings of the public thread in which a conversation goes on.
#[derive(Debug)]
pub struct ThreadSettings {
    pub name: String,
    pub auto_archive_minutes: u16,
    pub rate_limit_per_user: u16,
}

/// A thread named `Chatting`, archived after an hour without messages,
/// with no slow mode.
pub fn chat_thread_settings() -> (r: ThreadSettings)
    ensures
        r.name@ == CHAT_THREAD_NAME@,
        r.auto_archive_minutes == CHAT_THREAD_ARCHIVE_MINUTES,
        r.rate_limit_per_user == CHAT_THREAD_RATE_LIMIT,
{
    ThreadSettings {
        name: String::from_str(CHAT_THREAD_NAME),
        auto_archive_minutes: CHAT_THREAD_ARCHIVE_MINUTES,
        rate_limit_per_user: CHAT_THREAD_RATE_LIMIT,
    }
}

} // verus!
