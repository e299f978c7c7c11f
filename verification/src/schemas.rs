//! Wire-level records exchanged with the backend, held as plain values.
//!
//! Timestamps are integer ticks (the backend's epoch time scaled to whole
//! units); everything else is text, numbers and lists. Each type carries a
//! mathematical view so that contracts can speak about its contents.

use vstd::prelude::*;
use crate::helpers::types::{ChatId, UserId};

verus! {

/// Form data of a registration request.
pub struct RegisterData {
    pub username: String,
    pub password: String,
}

/// Body of a token-refresh request.
pub struct RefreshTokenData {
    pub refresh_token: String,
}

/// A user as the server reports it.
pub struct User {
    pub id: String,
    pub username: String,
}

/// Mathematical contents of a [`User`].
pub struct UserView {
    pub id: Seq<char>,
    pub username: Seq<char>,
}

impl View for User {
    type V = UserView;

    open spec fn view(&self) -> UserView {
        UserView { id: self.id@, username: self.username@ }
    }
}

impl User {
    /// An equal copy.
    pub fn duplicate(&self) -> (r: Self)
        ensures
            r@ == self@,
    {
        User { id: self.id.clone(), username: self.username.clone() }
    }
}

/// A message as the server reports it, sender still an id.
pub struct MessageModel {
    pub chat_id: ChatId,
    pub sender_id: String,
    pub text: String,
    pub created_at: u64,
    pub is_read: bool,
}

/// Mathematical contents of a [`MessageModel`].
pub struct MessageModelView {
    pub chat_id: ChatId,
    pub sender_id: Seq<char>,
    pub text: Seq<char>,
    pub created_at: u64,
    pub is_read: bool,
}

impl View for MessageModel {
    type V = MessageModelView;

    open spec fn view(&self) -> MessageModelView {
        MessageModelView {
            chat_id: self.chat_id,
            sender_id: self.sender_id@,
            text: self.text@,
            created_at: self.created_at,
            is_read: self.is_read,
        }
    }
}

impl MessageModel {
    /// An equal copy.
    pub fn duplicate(&self) -> (r: Self)
        ensures
            r@ == self@,
    {
        MessageModel {
            chat_id: self.chat_id,
            sender_id: self.sender_id.clone(),
            text: self.text.clone(),
            created_at: self.created_at,
            is_read: self.is_read,
        }
    }
}

/// A chat as the server reports it: member ids and raw messages.
pub struct ChatModel {
    pub id: ChatId,
    pub name: Option<String>,
    pub member_ids: Vec<String>,
    pub messages: Vec<MessageModel>,
}

/// Mathematical contents of a [`ChatModel`].
pub struct ChatModelView {
    pub id: ChatId,
    pub name: Option<Seq<char>>,
    pub member_ids: Seq<Seq<char>>,
    pub messages: Seq<MessageModelView>,
}

impl View for ChatModel {
    type V = ChatModelView;

    open spec fn view(&self) -> ChatModelView {
        ChatModelView {
            id: self.id,
            name: match self.name {
                Some(n) => Some(n@),
                None => None,
            },
            member_ids: self.member_ids@.map_values(|s: String| s@),
            messages: self.messages@.map_values(|m: MessageModel| m@),
        }
    }
}

/// A chat the user asks the server to create.
pub struct NewChatModel {
    pub name: Option<String>,
    pub member_ids: Vec<String>,
    pub first_message: String,
}

/// A message the user sends over the real-time channel.
pub struct NewMessage {
    pub chat_id: ChatId,
    pub sender_id: String,
    pub text: String,
}

/// Users returned by a directory query.
pub struct UserSearchResults {
    pub users: Vec<User>,
}

/// Chats returned by the chat-list endpoint.
pub struct ChatSearchResults {
    pub chats: Vec<ChatModel>,
}

/// Body of a batch user lookup.
pub struct GetUsersByIdsRequest {
    pub user_ids: Vec<UserId>,
}

} // verus!
