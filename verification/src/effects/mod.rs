pub mod leave_empty_channel;
pub mod mention;
pub mod random_react;
pub mod reply_thread;
