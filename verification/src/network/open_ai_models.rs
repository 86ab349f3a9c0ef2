use vstd::prelude::*;

verus! {

/// Who wrote a message of a chat.
#[derive(Debug, Clone, Copy, PartialEq, Eq, Structural)]
pub enum Role {
    System,
    User,
    Assistant,
}

pub const SYSTEM_ROLE: &'static str = "system";

pub const USER_ROLE: &'static str = "user";

pub const ASSISTANT_ROLE: &'static str = "assistant";

/// The name of a role in the chat API.
pub open spec fn role_name(role: Role) -> Seq<char> {
    match role {
        Role::System => SYSTEM_ROLE@,
        Role::User => USER_ROLE@,
        Role::Assistant => ASSISTANT_ROLE@,
    }
}

/// One message of a chat.
#[derive(Debug)]
pub struct ChatMessage {
    pub role: String,
    pub content: String,
}

impl ChatMessage {
    pub fn new(role: Role, content: String) -> (r: Self)
        ensures
            r.role@ == role_name(role),
            r.content == content,
    {
        let role_text = match role {
            Role::System => String::from_str(SYSTEM_ROLE),
            Role::User => String::from_str(USER_ROLE),
            Role::Assistant => String::from_str(ASSISTANT_ROLE),
        };
        ChatMessage { role: role_text, content }
    }
}

/// One answer of the chat API.
#[derive(Debug)]
pub struct ChatChoice {
    pub index: i32,
    pub message: ChatMessage,
    pub finish_reason: String,
}

/// The tokens that a chat request used.
#[derive(Debug)]
pub struct ChatUsage {
    pub prompt_tokens: i32,
    pub completion_tokens: i32,
    pub total_tokens: i32,
}

/// A request to the chat API: the model, and the messages that start with
/// the system message.
#[derive(Debug)]
pub struct ChatRequest {
    pub model: String,
    pub messages: Vec<ChatMessage>,
}

impl ChatRequest {
    /// A request to `model` whose messages are the system message with
    /// `system_content`, then `existing_messages` in their order.
    pub fn new(existing_messages: Vec<ChatMessage>, model: String, system_content: String) -> (r: Self)
        ensures
            r.model == model,
            r.messages@.len() == existing_messages@.len() + 1,
            r.messages@[0].role@ == role_name(Role::System),
            r.messages@[0].content == system_content,
            r.messages@.drop_first() == existing_messages@,
    {
        let ghost existing = existing_messages@;
        let mut existing_messages = existing_messages;
        let mut messages: Vec<ChatMessage> = Vec::new();
        messages.push(ChatMessage::new(Role::System, system_content));
        messages.append(&mut existing_messages);
        proof {
            assert(messages@.drop_first() =~= existing);
        }
        ChatRequest { model, messages }
    }
}

/// The reply of the chat API.
#[derive(Debug)]
pub struct ChatResponse {
    pub id: String,
    pub object: String,
    pub created: i64,
    pub choices: Vec<ChatChoice>,
    pub usage: ChatUsage,
}

} // verus!
