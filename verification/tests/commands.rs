use abc_chatter_bot::commands::chug::{
    all_reacting_users, chug_kind, chug_timeout, chugsters_string, control_emoji,
    control_reactions, parse_chug_args, poll_options, ChugAction, ChugCheck, ChugControl,
    ChugEvent, ChugKind, ReactingUser, WatchedReaction,
};
use abc_chatter_bot::commands::embed::{avatar_or_empty, EmbedColor, EmbedContent};
use abc_chatter_bot::commands::help::{help_embed, HelpTopic};
use abc_chatter_bot::commands::image::{image_reply, reply_for_decoded, ImageReply};
use abc_chatter_bot::commands::join::{join_plan, JoinPlan};
use abc_chatter_bot::commands::leave::{leave_plan, LeavePlan};
use abc_chatter_bot::commands::voice::{VoiceAction, VoiceCommand, VoiceEvent, VoiceStage};
use abc_chatter_bot::commands::voices::voices_reply;
use abc_chatter_bot::network::eleven_labs_models::Voice;

fn fields(e: &EmbedContent) -> Vec<(String, String, bool)> {
    e.fields.iter().map(|f| (f.name.clone(), f.value.clone(), f.inline)).collect()
}

fn f(name: &str, value: &str, inline: bool) -> (String, String, bool) {
    (name.to_string(), value.to_string(), inline)
}

#[test]
fn help_overview() {
    let e = help_embed(HelpTopic::Overview, &"Bot".to_string(), 300);
    assert_eq!(e.title, "Help");
    assert_eq!(
        e.description,
        "To get help with an individual command, pass its name as an argument to this command (/help `{command}`)."
    );
    assert_eq!(e.color, EmbedColor::Teal);
    assert_eq!(e.thumbnail, None);
    assert_eq!(
        fields(&e),
        vec![f("Commands", "`mention`, `chug`, `image`, `voice`, `voices`, `join`, `leave`", false)]
    );
}

#[test]
fn help_mention_shows_bot_name() {
    let e = help_embed(HelpTopic::Mention, &"ChatterBot".to_string(), 300);
    assert_eq!(e.title, "Command: Mention");
    assert_eq!(e.fields[0].name, "Usage");
    assert_eq!(e.fields[0].value, "@ChatterBot `{message}`");
    assert_eq!(e.fields[1].name, "Arguments");
    assert_eq!(e.fields[1].value, "`message`: The message to prompt the beginning of a conversation.");
}

#[test]
fn help_chug_shows_minutes() {
    let e = help_embed(HelpTopic::Chug, &"Bot".to_string(), 900);
    assert_eq!(e.title, "Command: Chug");
    assert!(e.description.contains("A chug check lasts 15 minutes by default"));
    assert!(e.description.ends_with(" minutes by default, but can be configured to last shorter or longer by passing in an argument."));
    assert!(e.fields[1].value.ends_with("Defaults to 15 minutes if not specified."));
    let short = help_embed(HelpTopic::Chug, &"Bot".to_string(), 59);
    assert!(short.description.contains("lasts 0 minutes"));
}

#[test]
fn help_other_topics() {
    let cases = [
        (HelpTopic::Image, "Command: Image", "/image `{prompt}`"),
        (HelpTopic::Voice, "Command: Voice", "/voice `{voice name}`, `{prompt}`"),
        (HelpTopic::Voices, "Command: Voices", "/voices"),
        (HelpTopic::Join, "Command: Join", "/join"),
        (HelpTopic::Leave, "Command: Leave", "/leave"),
    ];
    for (topic, title, usage) in cases {
        let e = help_embed(topic, &"Bot".to_string(), 60);
        assert_eq!(e.title, title);
        assert_eq!(e.color, EmbedColor::Teal);
        assert_eq!(e.fields.len(), 2);
        assert_eq!(e.fields[0].value, usage);
    }
    assert_eq!(help_embed(HelpTopic::Join, &"Bot".to_string(), 60).fields[1].value, "None");
}

#[test]
fn avatar_fallback() {
    assert_eq!(avatar_or_empty(Some("https://a".to_string())), "https://a");
    assert_eq!(avatar_or_empty(None), "");
}

#[test]
fn chug_kind_by_argument_count() {
    assert_eq!(chug_kind(0), ChugKind::NoCheck);
    assert_eq!(chug_kind(1), ChugKind::SingleGame);
    assert_eq!(chug_kind(2), ChugKind::MultipleGames);
    assert_eq!(chug_kind(9), ChugKind::MultipleGames);
    assert_eq!(chug_kind(10), ChugKind::NoCheck);
}

fn user(id: u64, bot: bool) -> ReactingUser {
    ReactingUser { id, bot }
}

#[test]
fn chugsters_skip_bots_and_repeats() {
    let users = vec![user(10, false), user(20, true), user(10, false), user(3, false)];
    assert_eq!(chugsters_string(&users), "<@10>, <@3>");
    assert_eq!(chugsters_string(&vec![user(1, true)]), "");
    assert_eq!(chugsters_string(&vec![]), "");
}

#[test]
fn poll_option_lines() {
    let games = vec!["Halo".to_string(), "Doom".to_string()];
    assert_eq!(poll_options(&games), "1\u{FE0F}\u{20E3} Halo\n2\u{FE0F}\u{20E3} Doom");
}

#[test]
fn single_check_embeds() {
    let check = ChugCheck::new_single(
        "Halo".to_string(),
        5,
        "<:chug:77>".to_string(),
        "https://cover".to_string(),
    );
    assert_eq!(check.watched_reactions(), vec![WatchedReaction::ChugEmote]);
    let e = check.initial_embed();
    assert_eq!(e.title, "Chug Check started for \"Halo\"");
    assert_eq!(
        e.description,
        "<@5> has started a chug check for \"Halo\". React with a <:chug:77> if you're ready!"
    );
    assert_eq!(e.color, EmbedColor::DarkPurple);
    assert_eq!(e.thumbnail, Some("https://cover".to_string()));
    assert_eq!(fields(&e), vec![f("Game", "Halo", false), f("Chugsters", "", false)]);
    match check.handle_event(ChugEvent::ReactionsChanged(vec![vec![user(1, false), user(2, true)]])) {
        ChugAction::Edit(e) => assert_eq!(fields(&e)[1], f("Chugsters", "<@1>", false)),
        _ => panic!("a change of reactions edits the check"),
    }
    assert!(matches!(check.handle_event(ChugEvent::Other), ChugAction::Ignore));
}

#[test]
fn poll_check_embeds() {
    let check = ChugCheck::new_poll(
        vec!["Halo".to_string(), "Doom".to_string()],
        5,
        "<:chug:77>".to_string(),
        "https://poll".to_string(),
    );
    assert_eq!(
        check.watched_reactions(),
        vec![
            WatchedReaction::Keycap("1\u{FE0F}\u{20E3}".to_string()),
            WatchedReaction::Keycap("2\u{FE0F}\u{20E3}".to_string()),
        ]
    );
    let e = check.initial_embed();
    assert_eq!(e.title, "Chug Check started for multiple games!");
    assert_eq!(
        e.description,
        "<@5> has started a chug check for multiple games. React with the emoji next to the game you want to play! <:chug:77>"
    );
    assert_eq!(e.thumbnail, Some("https://poll".to_string()));
    assert_eq!(
        fields(&e),
        vec![
            f("Games", "1\u{FE0F}\u{20E3} Halo\n2\u{FE0F}\u{20E3} Doom", false),
            f("Halo Chugsters", "", true),
            f("Doom Chugsters", "", true),
        ]
    );
    let event = ChugEvent::ReactionsChanged(vec![vec![user(1, false)], vec![user(2, false), user(1, false)]]);
    match check.handle_event(event) {
        ChugAction::Edit(e) => {
            assert_eq!(fields(&e)[1], f("Halo Chugsters", "<@1>", true));
            assert_eq!(fields(&e)[2], f("Doom Chugsters", "<@2>, <@1>", true));
        },
        _ => panic!("a change of reactions edits the poll"),
    }
}

#[test]
fn image_replies() {
    match image_reply(&Some("aGVsbG8=".to_string())) {
        ImageReply::Attach { data, filename } => {
            assert_eq!(data, b"hello".to_vec());
            assert_eq!(filename, "gen_image.png");
        },
        other => panic!("expected an attachment, got {:?}", other),
    }
    assert_eq!(image_reply(&Some("not base64!".to_string())), ImageReply::DecodeFailed);
    assert_eq!(image_reply(&None), ImageReply::NoImage);
    assert_eq!(reply_for_decoded(None), ImageReply::DecodeFailed);
}

#[test]
fn join_and_leave_plans() {
    assert_eq!(join_plan(Some(42)), JoinPlan::Connect(42));
    assert_eq!(
        join_plan(None),
        JoinPlan::Reply("It doesn't look like you're in a voice channel. Please join a voice channel before running this command.".to_string())
    );
    assert_eq!(leave_plan(true), LeavePlan::Disconnect);
    assert_eq!(
        leave_plan(false),
        LeavePlan::Reply("It doesn't look like I'm in a voice channel, so this command won't do anything.".to_string())
    );
}

fn voices() -> Vec<Voice> {
    vec![
        Voice { voice_id: "id-a".to_string(), name: "Adam".to_string() },
        Voice { voice_id: "id-b".to_string(), name: "Bella".to_string() },
        Voice { voice_id: "id-c".to_string(), name: "Bella".to_string() },
    ]
}

#[test]
fn voices_list_reply() {
    assert_eq!(voices_reply(&voices()), "Adam, Bella, Bella");
    assert_eq!(voices_reply(&vec![]), "");
}

#[test]
fn voice_command_plays_in_channel() {
    let mut cmd = VoiceCommand::new("Bella".to_string());
    assert_eq!(cmd.step(VoiceEvent::VoicesListed(voices())), VoiceAction::GenerateSpeech("id-b".to_string()));
    assert_eq!(cmd.stage, VoiceStage::GenerateSpeech);
    assert_eq!(cmd.step(VoiceEvent::SpeechGenerated(true)), VoiceAction::FindUserChannel);
    assert_eq!(cmd.step(VoiceEvent::UserChannelFound(Some(9))), VoiceAction::JoinChannel(9));
    assert_eq!(cmd.step(VoiceEvent::JoinFinished(true)), VoiceAction::PlayAudio("voice.mp3".to_string()));
    assert_eq!(cmd.stage, VoiceStage::Done);
}

#[test]
fn voice_command_other_endings() {
    let mut cmd = VoiceCommand::new("Zed".to_string());
    assert_eq!(
        cmd.step(VoiceEvent::VoicesListed(voices())),
        VoiceAction::Reply("A voice with that name was not found. Please try again with a valid voice.".to_string())
    );
    assert_eq!(cmd.stage, VoiceStage::Done);

    let mut cmd = VoiceCommand::new("Adam".to_string());
    cmd.step(VoiceEvent::VoicesListed(voices()));
    assert_eq!(
        cmd.step(VoiceEvent::SpeechGenerated(false)),
        VoiceAction::Reply("Sorry, something went wrong during voice creation.".to_string())
    );

    let mut cmd = VoiceCommand::new("Adam".to_string());
    cmd.step(VoiceEvent::VoicesListed(voices()));
    cmd.step(VoiceEvent::SpeechGenerated(true));
    assert_eq!(cmd.step(VoiceEvent::UserChannelFound(None)), VoiceAction::AttachAudio("voice.mp3".to_string()));

    let mut cmd = VoiceCommand::new("Adam".to_string());
    cmd.step(VoiceEvent::VoicesListed(voices()));
    cmd.step(VoiceEvent::SpeechGenerated(true));
    cmd.step(VoiceEvent::UserChannelFound(Some(1)));
    assert_eq!(
        cmd.step(VoiceEvent::JoinFinished(false)),
        VoiceAction::Reply("Sorry, I was unable to join the voice channel.".to_string())
    );
}

#[test]
fn nobody_reacted_shows_initial_embed() {
    let check = ChugCheck::new_poll(
        vec!["Halo".to_string(), "Doom".to_string(), "Tetris".to_string()],
        5,
        "<:chug:77>".to_string(),
        "https://poll".to_string(),
    );
    let initial = check.initial_embed();
    match check.handle_event(ChugEvent::ReactionsChanged(vec![vec![], vec![user(8, true)], vec![]])) {
        ChugAction::Edit(e) => {
            assert_eq!(e.title, initial.title);
            assert_eq!(e.description, initial.description);
            assert_eq!(fields(&e), fields(&initial));
        },
        _ => panic!("a change of reactions edits the poll"),
    }
}

fn strings(items: &[&str]) -> Vec<String> {
    items.iter().map(|s| s.to_string()).collect()
}

#[test]
fn chug_duration_as_own_argument() {
    let a = parse_chug_args(&strings(&["30", "Halo", "Doom"]));
    assert_eq!(a.duration_seconds, Some(1800));
    assert_eq!(a.games, strings(&["Halo", "Doom"]));
    let a = parse_chug_args(&strings(&["5", "Halo"]));
    assert_eq!(a.duration_seconds, Some(300));
    assert_eq!(a.games, strings(&["Halo"]));
}

#[test]
fn chug_duration_before_single_game() {
    let a = parse_chug_args(&strings(&["30 Halo Infinite"]));
    assert_eq!(a.duration_seconds, Some(1800));
    assert_eq!(a.games, strings(&["Halo Infinite"]));
    let a = parse_chug_args(&strings(&["10 Halo", "Doom"]));
    assert_eq!(a.duration_seconds, Some(600));
    assert_eq!(a.games, strings(&["Halo", "Doom"]));
}

#[test]
fn chug_arguments_without_duration() {
    let a = parse_chug_args(&strings(&["Halo"]));
    assert_eq!(a.duration_seconds, None);
    assert_eq!(a.games, strings(&["Halo"]));
    let a = parse_chug_args(&strings(&["30"]));
    assert_eq!(a.duration_seconds, None);
    assert_eq!(a.games, strings(&["30"]));
    let a = parse_chug_args(&strings(&["3a Halo"]));
    assert_eq!(a.duration_seconds, None);
    assert_eq!(a.games, strings(&["3a Halo"]));
    let a = parse_chug_args(&strings(&["30 "]));
    assert_eq!(a.duration_seconds, None);
    assert_eq!(a.games, strings(&["30 "]));
    let a = parse_chug_args(&strings(&["Halo", "30"]));
    assert_eq!(a.duration_seconds, None);
    assert_eq!(a.games, strings(&["Halo", "30"]));
    let a = parse_chug_args(&vec![]);
    assert_eq!(a.duration_seconds, None);
    assert!(a.games.is_empty());
}

#[test]
fn chug_duration_too_long_is_a_game() {
    let a = parse_chug_args(&strings(&["99999999999999999999", "Halo"]));
    assert_eq!(a.duration_seconds, None);
    assert_eq!(a.games, strings(&["99999999999999999999", "Halo"]));
    let a = parse_chug_args(&strings(&["307445734561825860", "Halo"]));
    assert_eq!(a.duration_seconds, Some(307445734561825860 * 60));
    let a = parse_chug_args(&strings(&["307445734561825861", "Halo"]));
    assert_eq!(a.duration_seconds, None);
}

#[test]
fn chug_timeout_falls_back_to_default() {
    assert_eq!(chug_timeout(Some(1800), 900), 1800);
    assert_eq!(chug_timeout(None, 900), 900);
    let a = parse_chug_args(&strings(&["2", "Halo", "Doom"]));
    assert_eq!(chug_kind(a.games.len()), ChugKind::MultipleGames);
    assert_eq!(chug_timeout(a.duration_seconds, 900), 120);
}

#[test]
fn control_reaction_emojis() {
    assert_eq!(control_emoji(ChugControl::Cancel), "\u{274C}");
    assert_eq!(control_emoji(ChugControl::Alert), "\u{1F4E2}");
    assert_eq!(control_reactions(), vec![ChugControl::Cancel, ChugControl::Alert]);
}

fn poll_of_two() -> ChugCheck {
    ChugCheck::new_poll(
        strings(&["Halo", "Doom"]),
        5,
        "<:chug:77>".to_string(),
        "https://poll".to_string(),
    )
}

#[test]
fn author_cancels_check() {
    let check = poll_of_two();
    let event = ChugEvent::ControlAdded {
        control: ChugControl::Cancel,
        user_id: 5,
        users: vec![vec![user(1, false)], vec![]],
    };
    assert!(matches!(check.handle_event(event), ChugAction::Cancel));
}

#[test]
fn author_alerts_chugsters() {
    let check = poll_of_two();
    let event = ChugEvent::ControlAdded {
        control: ChugControl::Alert,
        user_id: 5,
        users: vec![vec![user(1, false), user(9, true)], vec![user(2, false), user(1, false)]],
    };
    match check.handle_event(event) {
        ChugAction::Alert(text) => assert_eq!(text, "Chug time! <@1>, <@2>"),
        other => panic!("expected an alert, got {:?}", other),
    }
}

#[test]
fn alert_without_chugsters_is_ignored() {
    let check = poll_of_two();
    let event = ChugEvent::ControlAdded {
        control: ChugControl::Alert,
        user_id: 5,
        users: vec![vec![user(9, true)], vec![]],
    };
    assert!(matches!(check.handle_event(event), ChugAction::Ignore));
}

#[test]
fn controls_of_others_are_ignored() {
    let check = ChugCheck::new_single(
        "Halo".to_string(),
        5,
        "<:chug:77>".to_string(),
        "https://cover".to_string(),
    );
    assert_eq!(check.author, "<@5>");
    for control in [ChugControl::Cancel, ChugControl::Alert] {
        let event = ChugEvent::ControlAdded { control, user_id: 6, users: vec![vec![user(1, false)]] };
        assert!(matches!(check.handle_event(event), ChugAction::Ignore));
    }
}

#[test]
fn all_reacting_users_in_order() {
    let lists = vec![vec![user(1, false)], vec![], vec![user(2, true), user(1, false)]];
    assert_eq!(all_reacting_users(&lists), vec![user(1, false), user(2, true), user(1, false)]);
}
