//! The chat's message vocabulary.

use vstd::prelude::*;
use vstd::string::*;
use crate::ids::fresh_id;
use crate::text::{lex_le, sorts_first};

verus! {

/// How far a message has got on its way to the server.
#[derive(Debug, Clone, Copy, PartialEq, Eq, Structural)]
pub enum MessageStatus {
    Sending,
    Sent,
    Failed,
}

/// What a message is.
#[derive(Debug, Clone, Copy, PartialEq, Eq, Structural)]
pub enum MessageType {
    Text,
    System,
    Error,
}

/// The id of the conversation between two users: `CHAT#`, the name that
/// sorts first, `#`, the other name.
pub open spec fn chat_id_text(first_user: Seq<char>, second_user: Seq<char>) -> Seq<char> {
    if lex_le(first_user, second_user) {
        "CHAT#"@ + first_user + "#"@ + second_user
    } else {
        "CHAT#"@ + second_user + "#"@ + first_user
    }
}

/// The id of the conversation between two users, whichever is named first.
pub fn chat_id(first_user: &str, second_user: &str) -> (r: String)
    ensures
        r@ == chat_id_text(first_user@, second_user@),
{
    let mut out = String::from_str("CHAT#");
    if sorts_first(first_user, second_user) {
        out.append(first_user);
        out.append("#");
        out.append(second_user);
    } else {
        out.append(second_user);
        out.append("#");
        out.append(first_user);
    }
    out
}

impl MessageStatus {
    /// The status in words.
    pub open spec fn label_text(self) -> Seq<char> {
        match self {
            MessageStatus::Sending => "sending"@,
            MessageStatus::Sent => "sent"@,
            MessageStatus::Failed => "failed"@,
        }
    }

    /// The mark shown beside a message of this status.
    pub open spec fn icon_text(self) -> Seq<char> {
        match self {
            MessageStatus::Sending => "\u{22ef}"@,
            MessageStatus::Sent => "\u{2713}"@,
            MessageStatus::Failed => "!"@,
        }
    }

    /// The status in words: `sending`, `sent` or `failed`.
    pub fn label(&self) -> (r: &'static str)
        ensures
            r@ == self.label_text(),
    {
        match self {
            MessageStatus::Sending => "sending",
            MessageStatus::Sent => "sent",
            MessageStatus::Failed => "failed",
        }
    }

    /// The mark shown beside a message of this status.
    pub fn icon(&self) -> (r: &'static str)
        ensures
            r@ == self.icon_text(),
    {
        match self {
            MessageStatus::Sending => "\u{22ef}",
            MessageStatus::Sent => "\u{2713}",
            MessageStatus::Failed => "!",
        }
    }
}

/// A user of the chat. A time is held as an integer that orders as the time
/// does.
#[derive(Debug, PartialEq, Eq)]
pub struct User {
    pub username: String,
    pub email: String,
    pub created_at: u64,
    pub last_seen: Option<u64>,
    pub status: Option<String>,
}

/// A message as the server hands it out.
#[derive(Debug, PartialEq, Eq)]
pub struct MessageData {
    pub message_id: String,
    pub content: String,
    pub sender: String,
    pub timestamp: u64,
    pub chat_id: String,
}

/// A message of a conversation. Its time is held as an integer that orders
/// as the time does.
#[derive(Debug, PartialEq, Eq)]
pub struct Message {
    pub message_id: String,
    pub content: String,
    pub sender: String,
    pub timestamp: u64,
    pub status: MessageStatus,
    pub message_type: MessageType,
    pub chat_id: String,
}

/// A conversation with one other user.
#[derive(Debug, PartialEq, Eq)]
pub struct Conversation {
    pub chat_id: String,
    pub other_user: User,
    pub last_message: Option<Message>,
    pub unread_count: i32,
}

impl User {
    /// A user first seen at `now`, with no status yet.
    pub fn new(username: String, email: String, now: u64) -> (r: User)
        ensures
            r == (User { username, email, created_at: now, last_seen: None, status: None }),
    {
        User { username, email, created_at: now, last_seen: None, status: None }
    }
}

impl Message {
    /// What a text message under a given id looks like when it is being sent.
    pub open spec fn is_text(
        self,
        content: String,
        sender: String,
        receiver: Seq<char>,
        message_id: String,
        now: u64,
    ) -> bool {
        &&& self.message_id == message_id
        &&& self.content == content
        &&& self.sender == sender
        &&& self.timestamp == now
        &&& self.status == MessageStatus::Sending
        &&& self.message_type == MessageType::Text
        &&& self.chat_id@ == chat_id_text(sender@, receiver)
    }

    /// What a notice of the system under a given id looks like.
    pub open spec fn is_system(self, content: String, message_id: String, now: u64) -> bool {
        &&& self.message_id == message_id
        &&& self.content == content
        &&& self.sender@ == "system"@
        &&& self.timestamp == now
        &&& self.status == MessageStatus::Sent
        &&& self.message_type == MessageType::System
        &&& self.chat_id@ == "SYSTEM"@
    }

    /// A text message under a given id, written at `now` and on its way.
    pub fn text_with_id(
        content: String,
        sender: String,
        receiver: &str,
        message_id: String,
        now: u64,
    ) -> (r: Message)
        ensures
            r.is_text(content, sender, receiver@, message_id, now),
    {
        let chat_id = chat_id(sender.as_str(), receiver);
        Message {
            message_id,
            content,
            sender,
            timestamp: now,
            status: MessageStatus::Sending,
            message_type: MessageType::Text,
            chat_id,
        }
    }

    /// A text message under a fresh id, written at `now` and on its way.
    pub fn new_text(content: String, sender: String, receiver: String, now: u64) -> (r: Message)
        ensures
            r.is_text(content, sender, receiver@, r.message_id, now),
            r.message_id@.len() == 36,
    {
        Self::text_with_id(content, sender, receiver.as_str(), fresh_id(), now)
    }

    /// A notice of the system under a given id, written at `now`.
    pub fn system_with_id(content: String, message_id: String, now: u64) -> (r: Message)
        ensures
            r.is_system(content, message_id, now),
    {
        Message {
            message_id,
            content,
            sender: String::from_str("system"),
            timestamp: now,
            status: MessageStatus::Sent,
            message_type: MessageType::System,
            chat_id: String::from_str("SYSTEM"),
        }
    }

    /// A notice of the system under a fresh id, written at `now`.
    pub fn new_system(content: String, now: u64) -> (r: Message)
        ensures
            r.is_system(content, r.message_id, now),
            r.message_id@.len() == 36,
    {
        Self::system_with_id(content, fresh_id(), now)
    }

    /// The message that the server's record stands for: a text that was sent.
    pub fn from_message_data(data: MessageData) -> (r: Message)
        ensures
            r == (Message {
                message_id: data.message_id,
                content: data.content,
                sender: data.sender,
                timestamp: data.timestamp,
                status: MessageStatus::Sent,
                message_type: MessageType::Text,
                chat_id: data.chat_id,
            }),
    {
        Message {
            message_id: data.message_id,
            content: data.content,
            sender: data.sender,
            timestamp: data.timestamp,
            status: MessageStatus::Sent,
            message_type: MessageType::Text,
            chat_id: data.chat_id,
        }
    }
}

impl Conversation {
    /// A conversation with `other_user` in which nothing was said yet.
    pub fn new(current_user: &str, other_user: User) -> (r: Conversation)
        ensures
            r.chat_id@ == chat_id_text(current_user@, other_user.username@),
            r.other_user == other_user,
            r.last_message is None,
            r.unread_count == 0,
    {
        let chat_id = chat_id(current_user, other_user.username.as_str());
        Conversation { chat_id, other_user, last_message: None, unread_count: 0 }
    }
}

} // verus!
