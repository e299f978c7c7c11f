//! Display-ready chat entities: enriched messages and chats, and the recency
//! rank that orders the chat list.

pub mod builder;
pub mod manager;

use vstd::prelude::*;
use crate::helpers::types::ChatId;
use crate::schemas::{User, UserView};

verus! {

/// A message with its sender resolved to a username.
pub struct Message {
    pub chat_id: ChatId,
    pub sender_username: String,
    pub text: String,
    pub created_at: u64,
    pub is_read: bool,
}

/// Mathematical contents of a [`Message`].
pub struct MessageView {
    pub chat_id: ChatId,
    pub sender_username: Seq<char>,
    pub text: Seq<char>,
    pub created_at: u64,
    pub is_read: bool,
}

impl View for Message {
    type V = MessageView;

    open spec fn view(&self) -> MessageView {
        MessageView {
            chat_id: self.chat_id,
            sender_username: self.sender_username@,
            text: self.text@,
            created_at: self.created_at,
            is_read: self.is_read,
        }
    }
}

impl Message {
    /// The message's text.
    pub fn as_string(&self) -> (r: String)
        ensures
            r@ == self.text@,
    {
        self.text.clone()
    }

    /// An equal copy.
    pub fn duplicate(&self) -> (r: Self)
        ensures
            r@ == self@,
    {
        Message {
            chat_id: self.chat_id,
            sender_username: self.sender_username.clone(),
            text: self.text.clone(),
            created_at: self.created_at,
            is_read: self.is_read,
        }
    }
}

/// A display-ready chat. `internal_id` is its stable lookup key: the decimal
/// text of `id` once the chat exists on the server, else a synthetic key.
pub struct Chat {
    pub internal_id: String,
    pub id: Option<ChatId>,
    pub name: String,
    pub members: Vec<User>,
    pub last_message: Option<Message>,
    pub number_of_unread_messages: u32,
}

/// Mathematical contents of a [`Chat`].
pub struct ChatView {
    pub internal_id: Seq<char>,
    pub id: Option<ChatId>,
    pub name: Seq<char>,
    pub members: Seq<UserView>,
    pub last_message: Option<MessageView>,
    pub number_of_unread_messages: u32,
}

impl View for Chat {
    type V = ChatView;

    open spec fn view(&self) -> ChatView {
        ChatView {
            internal_id: self.internal_id@,
            id: self.id,
            name: self.name@,
            members: self.members@.map_values(|u: User| u@),
            last_message: match self.last_message {
                Some(m) => Some(m@),
                None => None,
            },
            number_of_unread_messages: self.number_of_unread_messages,
        }
    }
}

/// The recency rank that orders the chat list: the timestamp of the last
/// message, with message-less chats below every chat that has one.
pub open spec fn rank(c: ChatView) -> int {
    match c.last_message {
        Some(m) => m.created_at as int,
        None => -1,
    }
}

impl Chat {
    /// The chat's stable lookup key.
    pub fn internal_id(&self) -> (r: String)
        ensures
            r@ == self.internal_id@,
    {
        self.internal_id.clone()
    }

    /// An equal copy.
    pub fn duplicate(&self) -> (r: Self)
        ensures
            r@ == self@,
    {
        let mut members: Vec<User> = Vec::new();
        for i in 0..self.members.len()
            invariant
                members@.len() == i,
                forall|j: int| 0 <= j < i ==> (#[trigger] members@[j])@ == self.members@[j]@,
        {
            members.push(self.members[i].duplicate());
        }
        let last_message = match &self.last_message {
            Some(m) => Some(m.duplicate()),
            None => None,
        };
        let r = Chat {
            internal_id: self.internal_id.clone(),
            id: self.id,
            name: self.name.clone(),
            members,
            last_message,
            number_of_unread_messages: self.number_of_unread_messages,
        };
        proof {
            assert(r@.members =~= self@.members);
        }
        r
    }
}

/// A user found by a directory search.
pub struct SearchUser {
    pub username: String,
    pub user_id: String,
}

/// The result set of a directory search.
pub struct SearchUserResult {
    pub users: Vec<SearchUser>,
}

} // verus!
