use vstd::prelude::*;
use crate::commands::embed::{EmbedColor, EmbedContent, EmbedField, EmbedView, FieldView, embed_field, field_view};
use crate::utils::text::{decimal, u64_to_decimal};

verus! {

/// The command whose help is asked for, or the overview of all commands.
#[derive(Debug, Clone, Copy, PartialEq, Eq, Structural)]
pub enum HelpTopic {
    Overview,
    Mention,
    Chug,
    Image,
    Voice,
    Voices,
    Join,
    Leave,
}

pub const HELP_TITLE: &'static str = "Help";

pub const HELP_DESCRIPTION: &'static str = "To get help with an individual command, pass its name as an argument to this command (/help `{command}`).";

pub const COMMANDS_FIELD: &'static str = "Commands";

pub const COMMANDS_LIST: &'static str = "`mention`, `chug`, `image`, `voice`, `voices`, `join`, `leave`";

pub const USAGE_FIELD: &'static str = "Usage";

pub const ARGUMENTS_FIELD: &'static str = "Arguments";

pub const NO_ARGUMENTS: &'static str = "None";

pub const MENTION_TITLE: &'static str = "Command: Mention";

pub const MENTION_DESCRIPTION: &'static str = "The mention command is used to communicate with me directly. You can ask me questions, or just have a normal conversation!\n                        Once the conversation has been kicked off, you can continue the conversation with me in the thread I create.\n                        The thread will automatically archive after 1 hour.";

pub const MENTION_USAGE_START: &'static str = "@";

pub const MENTION_USAGE_END: &'static str = " `{message}`";

pub const MENTION_ARGUMENTS: &'static str = "`message`: The message to prompt the beginning of a conversation.";

pub const CHUG_TITLE: &'static str = "Command: Chug";

pub const CHUG_DESCRIPTION_START: &'static str = "The chug command is used to initiate a chug check and see who is ready to play a game.\n                        You can initiate a chug check for a single game, or suggest multiple games to see what everyone prefers.\n                        You can cancel a chug check early, or alert all chugsters by reacting to the chug check.\n                        A chug check lasts ";

pub const CHUG_DESCRIPTION_END: &'static str = " minutes by default, but can be configured to last shorter or longer by passing in an argument.";

pub const CHUG_USAGE: &'static str = "/chug `{game}`\n                        /chug `{duration}` `{game}`\n                        /chug `{game 1}`, `{game 2}`, `etc.` \n                        /chug `{duration}`, `{game 1}`, `{game 2}`, `etc.`";

pub const CHUG_ARGUMENTS_START: &'static str = "`game x`: The name of a game to suggest for the chug check.\n                        `duration`: The duration of the chug check. Defaults to ";

pub const CHUG_ARGUMENTS_END: &'static str = " minutes if not specified.";

pub const IMAGE_TITLE: &'static str = "Command: Image";

pub const IMAGE_DESCRIPTION: &'static str = "The image command is used to generate an image from the provided prompt using an AI image generator.";

pub const IMAGE_USAGE: &'static str = "/image `{prompt}`";

pub const IMAGE_ARGUMENTS: &'static str = "`prompt`: The prompt to send to the AI image generator.";

pub const VOICE_TITLE: &'static str = "Command: Voice";

pub const VOICE_DESCRIPTION: &'static str = "The voice command is used to generate speech from the provided prompt using an AI text to speech generator.\n                        If the user who runs the command is in a voice channel, the bot will join the voice channel and play the generated speech.\n                        If the user who runs the command is not in a voice channel, the bot will reply to the message with the generated speech as an attachment.\n                        You will need to specify a voice for the speech generation.\n                        A list of voices can be retrieved by running the `voices` command.";

pub const VOICE_USAGE: &'static str = "/voice `{voice name}`, `{prompt}`";

pub const VOICE_ARGUMENTS: &'static str = "`voice name`: The name of the voice to use for the speech generation.\n                        `prompt`: The prompt to send to the AI text to speech generator.";

pub const VOICES_TITLE: &'static str = "Command: Voices";

pub const VOICES_DESCRIPTION: &'static str = "The voices command is used to list all the voice names that can be used with the `voice` command.";

pub const VOICES_USAGE: &'static str = "/voices";

pub const JOIN_TITLE: &'static str = "Command: Join";

pub const JOIN_DESCRIPTION: &'static str = "The join command is used to summon the bot to the user's current voice channel.\n                        The bot will return an error if the user is not in a voice channel.";

pub const JOIN_USAGE: &'static str = "/join";

pub const LEAVE_TITLE: &'static str = "Command: Leave";

pub const LEAVE_DESCRIPTION: &'static str = "The leave command is used to remove the bot from the user's current voice channel.\n                        The bot will return an error if the bot is not currently in a voice channel.\n                        The bot will automatically leave a voice channel if all users also leave.";

pub const LEAVE_USAGE: &'static str = "/leave";

/// The usage and arguments fields of a command's help.
pub open spec fn usage_fields(usage: Seq<char>, arguments: Seq<char>) -> Seq<FieldView> {
    seq![field_view(USAGE_FIELD@, usage, false), field_view(ARGUMENTS_FIELD@, arguments, false)]
}

/// A help embed.
pub open spec fn help_view_of(title: Seq<char>, description: Seq<char>, fields: Seq<FieldView>) -> EmbedView {
    EmbedView { title, description, color: EmbedColor::Teal, thumbnail: None, fields }
}

/// The help embed of a topic. The mention help shows the bot's name, and
/// the chug help the default length of a chug check in whole minutes.
pub open spec fn help_view(topic: HelpTopic, bot_name: Seq<char>, chug_timeout_seconds: u64) -> EmbedView {
    let minutes = decimal((chug_timeout_seconds / 60) as nat);
    match topic {
        HelpTopic::Overview => help_view_of(
            HELP_TITLE@,
            HELP_DESCRIPTION@,
            seq![field_view(COMMANDS_FIELD@, COMMANDS_LIST@, false)],
        ),
        HelpTopic::Mention => help_view_of(
            MENTION_TITLE@,
            MENTION_DESCRIPTION@,
            usage_fields(MENTION_USAGE_START@ + bot_name + MENTION_USAGE_END@, MENTION_ARGUMENTS@),
        ),
        HelpTopic::Chug => help_view_of(
            CHUG_TITLE@,
            CHUG_DESCRIPTION_START@ + minutes + CHUG_DESCRIPTION_END@,
            usage_fields(CHUG_USAGE@, CHUG_ARGUMENTS_START@ + minutes + CHUG_ARGUMENTS_END@),
        ),
        HelpTopic::Image => help_view_of(
            IMAGE_TITLE@,
            IMAGE_DESCRIPTION@,
            usage_fields(IMAGE_USAGE@, IMAGE_ARGUMENTS@),
        ),
        HelpTopic::Voice => help_view_of(
            VOICE_TITLE@,
            VOICE_DESCRIPTION@,
            usage_fields(VOICE_USAGE@, VOICE_ARGUMENTS@),
        ),
        HelpTopic::Voices => help_view_of(
            VOICES_TITLE@,
            VOICES_DESCRIPTION@,
            usage_fields(VOICES_USAGE@, NO_ARGUMENTS@),
        ),
        HelpTopic::Join => help_view_of(
            JOIN_TITLE@,
            JOIN_DESCRIPTION@,
            usage_fields(JOIN_USAGE@, NO_ARGUMENTS@),
        ),
        HelpTopic::Leave => help_view_of(
            LEAVE_TITLE@,
            LEAVE_DESCRIPTION@,
            usage_fields(LEAVE_USAGE@, NO_ARGUMENTS@),
        ),
    }
}

fn usage_and_arguments(usage: String, arguments: String) -> (r: Vec<EmbedField>)
    ensures
        r@.map_values(|f: EmbedField| f@) == usage_fields(usage@, arguments@),
{
    let mut r: Vec<EmbedField> = Vec::new();
    r.push(embed_field(String::from_str(USAGE_FIELD), usage, false));
    r.push(embed_field(String::from_str(ARGUMENTS_FIELD), arguments, false));
    proof {
        assert(r@.map_values(|f: EmbedField| f@) =~= usage_fields(usage@, arguments@));
    }
    r
}

fn help_embed_of(title: &str, description: String, fields: Vec<EmbedField>) -> (r: EmbedContent)
    ensures
        r@ == help_view_of(title@, description@, fields@.map_values(|f: EmbedField| f@)),
{
    EmbedContent {
        title: String::from_str(title),
        description,
        color: EmbedColor::Teal,
        thumbnail: None,
        fields,
    }
}

/// The letter at position four of a topic's description.
spec fn description_mark_4(topic: HelpTopic) -> char {
    match topic {
        HelpTopic::Overview => 'e',
        HelpTopic::Mention => 'm',
        HelpTopic::Chug => 'c',
        HelpTopic::Image => 'i',
        HelpTopic::Voice => 'v',
        HelpTopic::Voices => 'v',
        HelpTopic::Join => 'j',
        HelpTopic::Leave => 'l',
    }
}

/// The letter at position nine of a topic's description.
spec fn description_mark_9(topic: HelpTopic) -> char {
    match topic {
        HelpTopic::Overview => 'l',
        HelpTopic::Mention => 'o',
        HelpTopic::Chug => 'c',
        HelpTopic::Image => ' ',
        HelpTopic::Voice => ' ',
        HelpTopic::Voices => 's',
        HelpTopic::Join => 'c',
        HelpTopic::Leave => ' ',
    }
}

proof fn lemma_description_marks(topic: HelpTopic, bot_name: Seq<char>, chug_timeout_seconds: u64)
    ensures
        help_view(topic, bot_name, chug_timeout_seconds).description.len() > 9,
        help_view(topic, bot_name, chug_timeout_seconds).description[4] == description_mark_4(topic),
        help_view(topic, bot_name, chug_timeout_seconds).description[9] == description_mark_9(topic),
{
    reveal_strlit("To get help with an individual command, pass its name as an argument to this command (/help `{command}`).");
    reveal_strlit("The mention command is used to communicate with me directly. You can ask me questions, or just have a normal conversation!\n                        Once the conversation has been kicked off, you can continue the conversation with me in the thread I create.\n                        The thread will automatically archive after 1 hour.");
    reveal_strlit("The chug command is used to initiate a chug check and see who is ready to play a game.\n                        You can initiate a chug check for a single game, or suggest multiple games to see what everyone prefers.\n                        You can cancel a chug check early, or alert all chugsters by reacting to the chug check.\n                        A chug check lasts ");
    reveal_strlit("The image command is used to generate an image from the provided prompt using an AI image generator.");
    reveal_strlit("The voice command is used to generate speech from the provided prompt using an AI text to speech generator.\n                        If the user who runs the command is in a voice channel, the bot will join the voice channel and play the generated speech.\n                        If the user who runs the command is not in a voice channel, the bot will reply to the message with the generated speech as an attachment.\n                        You will need to specify a voice for the speech generation.\n                        A list of voices can be retrieved by running the `voices` command.");
    reveal_strlit("The voices command is used to list all the voice names that can be used with the `voice` command.");
    reveal_strlit("The join command is used to summon the bot to the user's current voice channel.\n                        The bot will return an error if the user is not in a voice channel.");
    reveal_strlit("The leave command is used to remove the bot from the user's current voice channel.\n                        The bot will return an error if the bot is not currently in a voice channel.\n                        The bot will automatically leave a voice channel if all users also leave.");
}

/// Each topic's help carries a description of its own: no two topics
/// share one.
pub proof fn lemma_topics_have_own_descriptions(
    a: HelpTopic,
    b: HelpTopic,
    bot_name: Seq<char>,
    chug_timeout_seconds: u64,
)
    requires
        a != b,
    ensures
        help_view(a, bot_name, chug_timeout_seconds).description != help_view(
            b,
            bot_name,
            chug_timeout_seconds,
        ).description,
{
    lemma_description_marks(a, bot_name, chug_timeout_seconds);
    lemma_description_marks(b, bot_name, chug_timeout_seconds);
}

/// The help embed that the help command posts for `topic`.
pub fn help_embed(topic: HelpTopic, bot_name: &String, chug_timeout_seconds: u64) -> (r: EmbedContent)
    ensures
        r@ == help_view(topic, bot_name@, chug_timeout_seconds),
        topic == HelpTopic::Overview ==> r@.title == HELP_TITLE@ && r@.description == HELP_DESCRIPTION@,
        topic == HelpTopic::Mention ==> r@.title == MENTION_TITLE@ && r@.description == MENTION_DESCRIPTION@,
        topic == HelpTopic::Image ==> r@.title == IMAGE_TITLE@ && r@.description == IMAGE_DESCRIPTION@,
        topic == HelpTopic::Voice ==> r@.title == VOICE_TITLE@ && r@.description == VOICE_DESCRIPTION@,
        topic == HelpTopic::Voices ==> r@.title == VOICES_TITLE@ && r@.description == VOICES_DESCRIPTION@,
        topic == HelpTopic::Join ==> r@.title == JOIN_TITLE@ && r@.description == JOIN_DESCRIPTION@,
        topic == HelpTopic::Leave ==> r@.title == LEAVE_TITLE@ && r@.description == LEAVE_DESCRIPTION@,
        topic == HelpTopic::Chug ==> r@.title == CHUG_TITLE@ && r@.description == CHUG_DESCRIPTION_START@
            + decimal((chug_timeout_seconds / 60) as nat) + CHUG_DESCRIPTION_END@,
{
    match topic {
        HelpTopic::Overview => {
            let mut fields: Vec<EmbedField> = Vec::new();
            fields.push(
                embed_field(String::from_str(COMMANDS_FIELD), String::from_str(COMMANDS_LIST), false),
            );
            proof {
                assert(fields@.map_values(|f: EmbedField| f@) =~= seq![
                    field_view(COMMANDS_FIELD@, COMMANDS_LIST@, false),
                ]);
            }
            help_embed_of(HELP_TITLE, String::from_str(HELP_DESCRIPTION), fields)
        },
        HelpTopic::Mention => {
            let mut usage = String::from_str(MENTION_USAGE_START);
            usage.append(bot_name.as_str());
            usage.append(MENTION_USAGE_END);
            let fields = usage_and_arguments(usage, String::from_str(MENTION_ARGUMENTS));
            help_embed_of(MENTION_TITLE, String::from_str(MENTION_DESCRIPTION), fields)
        },
        HelpTopic::Chug => {
            let minutes = u64_to_decimal(chug_timeout_seconds / 60);
            let mut description = String::from_str(CHUG_DESCRIPTION_START);
            description.append(minutes.as_str());
            description.append(CHUG_DESCRIPTION_END);
            let mut arguments = String::from_str(CHUG_ARGUMENTS_START);
            arguments.append(minutes.as_str());
            arguments.append(CHUG_ARGUMENTS_END);
            let fields = usage_and_arguments(String::from_str(CHUG_USAGE), arguments);
            help_embed_of(CHUG_TITLE, description, fields)
        },
        HelpTopic::Image => {
            let fields = usage_and_arguments(
                String::from_str(IMAGE_USAGE),
                String::from_str(IMAGE_ARGUMENTS),
            );
            help_embed_of(IMAGE_TITLE, String::from_str(IMAGE_DESCRIPTION), fields)
        },
        HelpTopic::Voice => {
            let fields = usage_and_arguments(
                String::from_str(VOICE_USAGE),
                String::from_str(VOICE_ARGUMENTS),
            );
            help_embed_of(VOICE_TITLE, String::from_str(VOICE_DESCRIPTION), fields)
        },
        HelpTopic::Voices => {
            let fields = usage_and_arguments(
                String::from_str(VOICES_USAGE),
                String::from_str(NO_ARGUMENTS),
            );
            help_embed_of(VOICES_TITLE, String::from_str(VOICES_DESCRIPTION), fields)
        },
        HelpTopic::Join => {
            let fields = usage_and_arguments(
                String::from_str(JOIN_USAGE),
                String::from_str(NO_ARGUMENTS),
            );
            help_embed_of(JOIN_TITLE, String::from_str(JOIN_DESCRIPTION), fields)
        },
        HelpTopic::Leave => {
            let fields = usage_and_arguments(
                String::from_str(LEAVE_USAGE),
                String::from_str(NO_ARGUMENTS),
            );
            help_embed_of(LEAVE_TITLE, String::from_str(LEAVE_DESCRIPTION), fields)
        },
    }
}

} // verus!
