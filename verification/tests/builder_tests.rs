//! The builder: enrichment of wire records, name resolution, the round trip
//! of member ids.

use chat_core::chat::builder::{ChatBuilder, UserProvider};
use chat_core::factory::get_chat_builder;
use chat_core::schemas::{ChatModel, MessageModel, User};

fn user(id: &str, name: &str) -> User {
    User { id: id.to_string(), username: name.to_string() }
}

fn record(chat_id: u32, sender: &str, text: &str, created_at: u64, is_read: bool) -> MessageModel {
    MessageModel {
        chat_id,
        sender_id: sender.to_string(),
        text: text.to_string(),
        created_at,
        is_read,
    }
}

fn builder_for(current: Option<User>, users: Vec<User>) -> ChatBuilder {
    get_chat_builder(users, current)
}

#[test]
fn build_chat_resolves_members_in_order() {
    let builder = builder_for(
        Some(user("me", "self")),
        vec![user("me", "self"), user("u2", "bob"), user("u3", "carol")],
    );
    let model = ChatModel {
        id: 7,
        name: Some("group".to_string()),
        member_ids: vec!["u3".to_string(), "me".to_string(), "u2".to_string()],
        messages: vec![],
    };
    let chat = builder.build_chat_from_model(model);
    assert_eq!(chat.internal_id, "7");
    assert_eq!(chat.id, Some(7));
    assert_eq!(chat.name, "group");
    let ids: Vec<&str> = chat.members.iter().map(|u| u.id.as_str()).collect();
    assert_eq!(ids, vec!["u3", "me", "u2"]);
    assert!(chat.last_message.is_none());
    assert_eq!(chat.number_of_unread_messages, 0);
}

#[test]
fn member_ids_round_trip_through_build() {
    let builder = builder_for(
        Some(user("me", "self")),
        vec![user("me", "self"), user("u2", "bob")],
    );
    let member_ids = vec!["me".to_string(), "u2".to_string()];
    let model = ChatModel {
        id: 1,
        name: None,
        member_ids: member_ids.clone(),
        messages: vec![],
    };
    let chat = builder.build_chat_from_model(model);
    let back: Vec<String> = chat.members.iter().map(|u| u.id.clone()).collect();
    assert_eq!(back, member_ids);
}

#[test]
fn unnamed_two_member_chat_takes_other_users_name() {
    let builder = builder_for(
        Some(user("me", "self")),
        vec![user("me", "self"), user("u2", "bob")],
    );
    let model = ChatModel {
        id: 2,
        name: None,
        member_ids: vec!["me".to_string(), "u2".to_string()],
        messages: vec![],
    };
    let chat = builder.build_chat_from_model(model);
    assert_eq!(chat.name, "bob");
}

#[test]
fn last_message_is_most_recent_and_unread_counted() {
    let builder = builder_for(
        Some(user("me", "self")),
        vec![user("me", "self"), user("u2", "bob")],
    );
    let model = ChatModel {
        id: 3,
        name: Some("c".to_string()),
        member_ids: vec!["me".to_string()],
        messages: vec![
            record(3, "u2", "first", 10, true),
            record(3, "me", "latest", 30, false),
            record(3, "u2", "middle", 20, false),
        ],
    };
    let chat = builder.build_chat_from_model(model);
    let last = chat.last_message.unwrap();
    assert_eq!(last.text, "latest");
    assert_eq!(last.sender_username, "self");
    assert_eq!(last.created_at, 30);
    assert_eq!(chat.number_of_unread_messages, 2);
}

#[test]
fn most_recent_tie_goes_to_the_later_record() {
    let builder = builder_for(None, vec![user("u2", "bob")]);
    let model = ChatModel {
        id: 4,
        name: Some("c".to_string()),
        member_ids: vec![],
        messages: vec![record(4, "u2", "early", 5, true), record(4, "u2", "late", 5, true)],
    };
    let chat = builder.build_chat_from_model(model);
    assert_eq!(chat.last_message.unwrap().text, "late");
}

#[test]
fn build_message_resolves_sender_username() {
    let builder = builder_for(None, vec![user("u2", "bob")]);
    let m = builder.build_message_from_model(record(1, "u2", "hi", 42, false));
    assert_eq!(m.sender_username, "bob");
    assert_eq!(m.text, "hi");
    assert_eq!(m.created_at, 42);
    assert!(!m.is_read);
}

#[test]
fn add_users_extends_the_directory() {
    let mut builder = builder_for(None, vec![user("u1", "alice")]);
    builder.add_users(vec![user("u2", "bob")]);
    let m = builder.build_message_from_model(record(1, "u2", "hi", 1, true));
    assert_eq!(m.sender_username, "bob");
    let m2 = builder.build_message_from_model(record(1, "u1", "yo", 2, true));
    assert_eq!(m2.sender_username, "alice");
}

#[test]
fn later_user_entry_replaces_earlier() {
    let provider = UserProvider::new(vec![user("u1", "old"), user("u1", "new")]);
    assert_eq!(provider.get_user("u1").username, "new");
}

#[test]
fn build_chats_from_models_keeps_batch_order() {
    let builder = builder_for(None, vec![user("a", "alice"), user("b", "bob")]);
    let chats = builder.build_chats_from_models(vec![
        ChatModel {
            id: 1,
            name: Some("x".to_string()),
            member_ids: vec!["a".to_string()],
            messages: vec![],
        },
        ChatModel {
            id: 2,
            name: Some("y".to_string()),
            member_ids: vec!["b".to_string()],
            messages: vec![],
        },
    ]);
    assert_eq!(chats.len(), 2);
    assert_eq!(chats[0].id, Some(1));
    assert_eq!(chats[1].id, Some(2));
}

#[test]
fn build_messages_from_models_keeps_batches() {
    let builder = builder_for(None, vec![user("a", "alice")]);
    let batches = builder.build_messages_from_models(vec![
        (1, vec![record(1, "a", "one", 1, true), record(1, "a", "two", 2, false)]),
        (2, vec![record(2, "a", "three", 3, true)]),
    ]);
    assert_eq!(batches.len(), 2);
    assert_eq!(batches[0].0, 1);
    assert_eq!(batches[0].1.len(), 2);
    assert_eq!(batches[0].1[1].text, "two");
    assert_eq!(batches[1].0, 2);
    assert_eq!(batches[1].1[0].sender_username, "alice");
}
