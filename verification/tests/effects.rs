use abc_chatter_bot::effects::leave_empty_channel::{empty_channel_action, EmptyChannelAction};
use abc_chatter_bot::effects::mention::{chat_thread_settings, should_open_thread};
use abc_chatter_bot::effects::random_react::{random_react_eligible, react_on_roll, should_random_react};
use abc_chatter_bot::effects::reply_thread::should_reply_in_thread;
use abc_chatter_bot::models::active_threads::ActiveThreads;

#[test]
fn active_threads_register_and_clear() {
    let mut active = ActiveThreads::new();
    assert!(!active.contains(1));
    active.register(1);
    active.register(2);
    active.register(3);
    active.register(2);
    assert!(active.contains(2));
    active.clear_inactive_threads(&vec![2, 9]);
    assert_eq!(active.ids, vec![1, 3]);
    active.clear_inactive_threads(&vec![2, 9]);
    assert_eq!(active.ids, vec![1, 3]);
    active.clear_inactive_threads(&vec![]);
    assert_eq!(active.ids, vec![1, 3]);
}

#[test]
fn mention_opens_thread_outside_threads() {
    let mut active = ActiveThreads::new();
    active.register(7);
    assert!(should_open_thread(true, &active, 8));
    assert!(!should_open_thread(true, &active, 7));
    assert!(!should_open_thread(false, &active, 8));
    let s = chat_thread_settings();
    assert_eq!(s.name, "Chatting");
    assert_eq!(s.auto_archive_minutes, 60);
    assert_eq!(s.rate_limit_per_user, 0);
}

#[test]
fn replies_only_in_active_threads_to_others() {
    let mut active = ActiveThreads::new();
    active.register(7);
    assert!(should_reply_in_thread(&active, 7, false));
    assert!(!should_reply_in_thread(&active, 7, true));
    assert!(!should_reply_in_thread(&active, 8, false));
}

#[test]
fn random_react_rules() {
    assert!(random_react_eligible(false, 0, 0));
    assert!(!random_react_eligible(true, 0, 0));
    assert!(!random_react_eligible(false, 1, 0));
    assert!(!random_react_eligible(false, 0, 2));
    assert!(react_on_roll(false, 0, 0, 0));
    assert!(!react_on_roll(false, 0, 0, 1));
    assert!(!react_on_roll(true, 0, 0, 0));
    assert!(should_random_react(false, 0, 0, 1));
    assert!(!should_random_react(true, 0, 0, 1));
    assert!(!should_random_react(false, 3, 0, 5));
    let mut hits = 0;
    for _ in 0..200 {
        if should_random_react(false, 0, 0, 2) {
            hits += 1;
        }
    }
    assert!(hits > 0 && hits < 200);
}

#[test]
fn empty_channel_actions() {
    assert_eq!(empty_channel_action(0, true), EmptyChannelAction::Leave);
    assert_eq!(empty_channel_action(1, true), EmptyChannelAction::Leave);
    assert_eq!(empty_channel_action(1, false), EmptyChannelAction::NotConnected);
    assert_eq!(empty_channel_action(2, true), EmptyChannelAction::Stay);
}
