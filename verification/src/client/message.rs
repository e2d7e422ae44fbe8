//! The messages of a conversation.

use vstd::prelude::*;

verus! {

/// Who speaks in a message.
#[derive(Debug, Clone, Copy, PartialEq, Eq, Structural)]
pub enum MessageRole {
    System,
    Assistant,
    User,
}

impl MessageRole {
    /// Whether this is the system's role.
    pub fn is_system(&self) -> (yes: bool)
        ensures
            yes == (*self == MessageRole::System),
    {
        match self {
            MessageRole::System => true,
            _ => false,
        }
    }

    /// Whether this is the user's role.
    pub fn is_user(&self) -> (yes: bool)
        ensures
            yes == (*self == MessageRole::User),
    {
        match self {
            MessageRole::User => true,
            _ => false,
        }
    }

    /// Whether this is the assistant's role.
    pub fn is_assistant(&self) -> (yes: bool)
        ensures
            yes == (*self == MessageRole::Assistant),
    {
        match self {
            MessageRole::Assistant => true,
            _ => false,
        }
    }
}

/// One message of a conversation. A conversation is a sequence of messages
/// in the order in which they were said.
#[derive(Debug, Clone, PartialEq, Eq)]
pub struct Message {
    pub role: MessageRole,
    pub content: String,
}

impl Message {
    /// A message of the user.
    pub fn new(content: &str) -> (message: Self)
        ensures
            message.role == MessageRole::User,
            message.content@ == content@,
    {
        Message { role: MessageRole::User, content: content.to_owned() }
    }

    /// A message of the given role.
    pub fn with_role(role: MessageRole, content: &str) -> (message: Self)
        ensures
            message.role == role,
            message.content@ == content@,
    {
        Message { role, content: content.to_owned() }
    }
}

} // verus!
