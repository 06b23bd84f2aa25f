use vstd::prelude::*;

verus! {

/// A message that a user sent to the bot.
#[derive(Debug, PartialEq, Eq)]
pub struct Message {
    /// The chat in which it was sent.
    pub chat_id: i64,
    /// Who sent it, where the platform says so.
    pub from_id: Option<u64>,
    /// The public name of the chat, if it has one.
    pub chat_username: Option<String>,
    /// The text; `None` for a photo, a sticker and the like.
    pub text: Option<String>,
}

/// The place of a message that the bot may edit.
#[derive(Clone, Copy, Debug, PartialEq, Eq, Structural)]
pub struct MessageRef {
    pub chat_id: i64,
    pub message_id: i32,
}

/// A tap on an inline button.
#[derive(Debug, PartialEq, Eq)]
pub struct CallbackQuery {
    /// The identifier by which the tap is acknowledged.
    pub id: String,
    /// Who tapped.
    pub from_id: u64,
    /// The chat in which the button stands, where the platform says so.
    pub chat_id: Option<i64>,
    /// The payload of the button.
    pub data: Option<String>,
    /// The message under which the button stands, where it can still be
    /// reached.
    pub message: Option<MessageRef>,
}

/// What the platform delivers.
#[derive(Debug, PartialEq, Eq)]
pub enum Update {
    Message(Message),
    CallbackQuery(CallbackQuery),
    /// Any other kind of update, with its sender where it has one.
    Other { from_id: Option<u64> },
}

impl Update {
    /// The user behind the update.
    pub open spec fn sender(&self) -> Option<u64> {
        match self {
            Update::Message(msg) => msg.from_id,
            Update::CallbackQuery(q) => Some(q.from_id),
            Update::Other { from_id } => *from_id,
        }
    }
}

} // verus!
