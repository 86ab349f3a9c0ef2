use vstd::prelude::*;
use crate::errors::network_error::NetworkErrorType;
use crate::network::network_models::NetworkResult;
use crate::network::open_ai_models::{ChatMessage, ChatResponse, Role, role_name};
use crate::utils::text::{remove_char, without_char};

verus! {

pub const CHAT_COMPLETIONS_PATH: &'static str = "chat/completions";

/// What the chat logic reads of a message of a conversation: whether the
/// bot wrote it, and its text.
#[derive(Debug)]
pub struct ThreadMessage {
    pub is_own: bool,
    pub content: String,
}

/// The role of a message in the chat: the bot's own messages are the
/// assistant's, all others the user's.
pub open spec fn thread_role(is_own: bool) -> Role {
    if is_own {
        Role::Assistant
    } else {
        Role::User
    }
}

/// The messages of a conversation as chat messages, in the same order.
pub fn thread_chat_messages(messages: &Vec<ThreadMessage>) -> (r: Vec<ChatMessage>)
    ensures
        r@.len() == messages@.len(),
        forall|i: int|
            0 <= i < r@.len() ==> #[trigger] r@[i].role@ == role_name(thread_role(messages@[i].is_own))
                && r@[i].content@ == messages@[i].content@,
{
    let mut r: Vec<ChatMessage> = Vec::new();
    let n = messages.len();
    let mut i: usize = 0;
    while i < n
        invariant
            n == messages.len(),
            i <= n,
            r@.len() == i,
            forall|j: int|
                0 <= j < i ==> #[trigger] r@[j].role@ == role_name(thread_role(messages@[j].is_own))
                    && r@[j].content@ == messages@[j].content@,
        decreases n - i,
    {
        let m = &messages[i];
        let role = if m.is_own {
            Role::Assistant
        } else {
            Role::User
        };
        r.push(ChatMessage::new(role, m.content.clone()));
        i = i + 1;
    }
    r
}

/// The messages of a conversation, oldest first, from the list that the
/// chat service hands out newest first.
pub fn oldest_first(messages: Vec<ThreadMessage>) -> (r: Vec<ThreadMessage>)
    ensures
        r@ == messages@.reverse(),
{
    let ghost given = messages@;
    let mut rest = messages;
    let mut r: Vec<ThreadMessage> = Vec::new();
    while rest.len() > 0
        invariant
            rest@.len() <= given.len(),
            rest@ == given.take(rest@.len() as int),
            r@ == given.skip(rest@.len() as int).reverse(),
        decreases rest@.len(),
    {
        let ghost k = rest@.len();
        let m = rest.pop().unwrap();
        proof {
            assert(given.skip(k - 1) =~= seq![given[k - 1]] + given.skip(k as int));
            assert(given.skip(k - 1).reverse() =~= given.skip(k as int).reverse().push(
                given[k - 1],
            ));
            assert(rest@ =~= given.take(k - 1));
        }
        r.push(m);
    }
    proof {
        assert(given.skip(0) =~= given);
    }
    r
}

pub const QUOTA_REACHED_REPLY: &'static str = "Sorry! I've reached my limit for this month. Please ask the administrator to check their OpenAI billing details.";

pub const UNKNOWN_ERROR_REPLY: &'static str = "Sorry! An unknown error occurred. Please contact the administrator for details.";

/// The text that the bot answers with: the first choice of the chat
/// service's reply, or an apology that fits the error.
pub open spec fn ai_reply_spec(result: NetworkResult<ChatResponse>) -> Seq<char> {
    match result {
        Ok(response) => response.choices@[0].message.content@,
        Err(err) => if err.error_type == NetworkErrorType::TokenQuotaReached {
            QUOTA_REACHED_REPLY@
        } else {
            UNKNOWN_ERROR_REPLY@
        },
    }
}

/// A reply of the chat service that the bot can answer from: a success
/// carries at least one choice.
pub open spec fn answerable(result: NetworkResult<ChatResponse>) -> bool {
    result matches Ok(response) ==> response.choices@.len() > 0
}

pub fn ai_reply_text(result: &NetworkResult<ChatResponse>) -> (r: String)
    requires
        answerable(*result),
    ensures
        r@ == ai_reply_spec(*result),
{
    match result {
        Ok(response) => response.choices[0].message.content.clone(),
        Err(err) => match err.error_type {
            NetworkErrorType::TokenQuotaReached => String::from_str(QUOTA_REACHED_REPLY),
            _ => String::from_str(UNKNOWN_ERROR_REPLY),
        },
    }
}

pub const EMOJI_PROMPT_START: &'static str = "Pick one discord emote from (";

pub const EMOJI_PROMPT_MIDDLE: &'static str = ") that best fits the message '";

pub const EMOJI_PROMPT_END: &'static str = "'. You must respond with only a single word from the list.";

/// The question that asks the chat service for the emote among
/// `emoji_list` that best fits a message with text `content`.
pub open spec fn emoji_prompt_spec(emoji_list: Seq<char>, content: Seq<char>) -> Seq<char> {
    EMOJI_PROMPT_START@ + emoji_list + EMOJI_PROMPT_MIDDLE@ + content + EMOJI_PROMPT_END@
}

pub fn emoji_prompt(emoji_list: &String, content: &String) -> (r: String)
    ensures
        r@ == emoji_prompt_spec(emoji_list@, content@),
{
    let mut r = String::from_str(EMOJI_PROMPT_START);
    r.append(emoji_list.as_str());
    r.append(EMOJI_PROMPT_MIDDLE);
    r.append(content.as_str());
    r.append(EMOJI_PROMPT_END);
    r
}

/// The chat messages of the emote question: the question alone, as the
/// user's message.
pub fn emoji_chat_messages(emoji_list: &String, content: &String) -> (r: Vec<ChatMessage>)
    ensures
        r@.len() == 1,
        r@[0].role@ == role_name(Role::User),
        r@[0].content@ == emoji_prompt_spec(emoji_list@, content@),
{
    let mut r: Vec<ChatMessage> = Vec::new();
    r.push(ChatMessage::new(Role::User, emoji_prompt(emoji_list, content)));
    r
}

/// The emote name that the chat service picked: its answer without any
/// full stop.
pub fn emoji_name_from_reply(result: &NetworkResult<ChatResponse>) -> (r: String)
    requires
        answerable(*result),
    ensures
        r@ == without_char(ai_reply_spec(*result), '.'),
{
    let text = ai_reply_text(result);
    remove_char(&text, '.')
}

} // verus!
