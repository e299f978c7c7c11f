//! The chat manager: ordering, unread tracking, the search overlay and the
//! loaded/selected pointers.

use chat_core::chat::manager::ChatManager;
use chat_core::chat::{Chat, Message};
use chat_core::helpers::digits::u32_to_dec_string;
use chat_core::schemas::User;

fn user(id: &str, name: &str) -> User {
    User { id: id.to_string(), username: name.to_string() }
}

fn message(chat_id: u32, text: &str, created_at: u64, is_read: bool) -> Message {
    Message {
        chat_id,
        sender_username: "alice".to_string(),
        text: text.to_string(),
        created_at,
        is_read,
    }
}

fn server_chat(id: u32, name: &str, last: Option<Message>) -> Chat {
    Chat {
        internal_id: u32_to_dec_string(id),
        id: Some(id),
        name: name.to_string(),
        members: vec![user("u1", "alice"), user("u2", "bob")],
        last_message: last,
        number_of_unread_messages: 0,
    }
}

fn timestamps(manager: &ChatManager) -> Vec<Option<u64>> {
    manager
        .get_active_chats()
        .items
        .iter()
        .map(|c| c.last_message.as_ref().map(|m| m.created_at))
        .collect()
}

#[test]
fn chat_list_sorted_descending_after_add_chats() {
    let mut manager = ChatManager::new();
    manager.add_chats(vec![
        server_chat(1, "one", Some(message(1, "a", 100, true))),
        server_chat(2, "two", Some(message(2, "b", 300, true))),
        server_chat(3, "three", Some(message(3, "c", 200, true))),
    ]);
    assert_eq!(timestamps(&manager), vec![Some(300), Some(200), Some(100)]);
}

#[test]
fn message_less_chats_sort_last() {
    let mut manager = ChatManager::new();
    manager.add_chats(vec![
        server_chat(1, "one", None),
        server_chat(2, "two", Some(message(2, "b", 50, true))),
        server_chat(3, "three", None),
    ]);
    assert_eq!(timestamps(&manager), vec![Some(50), None, None]);
}

#[test]
fn equal_timestamps_keep_insertion_order() {
    let mut manager = ChatManager::new();
    manager.add_chats(vec![
        server_chat(1, "one", Some(message(1, "a", 100, true))),
        server_chat(2, "two", Some(message(2, "b", 100, true))),
        server_chat(3, "three", Some(message(3, "c", 100, true))),
    ]);
    let ids: Vec<Option<u32>> =
        manager.get_active_chats().items.iter().map(|c| c.id).collect();
    assert_eq!(ids, vec![Some(1), Some(2), Some(3)]);
}

#[test]
fn index_lookup_matches_positions_after_mutations() {
    let mut manager = ChatManager::new();
    manager.add_chats(vec![
        server_chat(1, "one", Some(message(1, "a", 100, true))),
        server_chat(2, "two", Some(message(2, "b", 300, true))),
    ]);
    manager.add_chat(server_chat(3, "three", Some(message(3, "c", 200, true))));
    for chat_id in [1u32, 2, 3] {
        assert!(manager.has_chat(&chat_id));
        let key = u32_to_dec_string(chat_id);
        let found = manager.get_active_chats().get(&key);
        assert_eq!(found.id, Some(chat_id));
        assert_eq!(found.internal_id, key);
    }
}

#[test]
fn inbound_message_for_unloaded_chat_bumps_unread_and_moves_to_top() {
    let mut manager = ChatManager::new();
    manager.add_chats(vec![
        server_chat(1, "one", Some(message(1, "a", 100, true))),
        server_chat(2, "two", Some(message(2, "b", 300, true))),
    ]);
    manager.add_message(message(1, "hello", 400, false));
    let top = &manager.get_active_chats().items[0];
    assert_eq!(top.id, Some(1));
    assert_eq!(top.number_of_unread_messages, 1);
    assert_eq!(top.last_message.as_ref().unwrap().text, "hello");
    assert_eq!(manager.get_messages(1).len(), 1);
}

#[test]
fn inbound_message_for_loaded_chat_keeps_unread_zero_but_moves_to_top() {
    let mut manager = ChatManager::new();
    manager.add_chats(vec![
        server_chat(1, "one", Some(message(1, "a", 100, true))),
        server_chat(2, "two", Some(message(2, "b", 300, true))),
    ]);
    manager.load_chat(u32_to_dec_string(1));
    manager.add_message(message(1, "hello", 400, false));
    let top = &manager.get_active_chats().items[0];
    assert_eq!(top.id, Some(1));
    assert_eq!(top.number_of_unread_messages, 0);
}

#[test]
fn already_read_inbound_message_does_not_bump_unread() {
    let mut manager = ChatManager::new();
    manager.add_chat(server_chat(1, "one", None));
    manager.add_message(message(1, "hello", 10, true));
    assert_eq!(manager.get_active_chats().items[0].number_of_unread_messages, 0);
}

#[test]
fn load_chat_twice_is_idempotent() {
    let mut manager = ChatManager::new();
    manager.add_chats(vec![server_chat(1, "one", None)]);
    manager.add_message(message(1, "x", 5, false));
    let key = u32_to_dec_string(1);
    manager.load_chat(key.clone());
    assert_eq!(manager.get_active_chats().items[0].number_of_unread_messages, 0);
    assert_eq!(manager.get_loaded_chat().unwrap().id, Some(1));
    manager.load_chat(key.clone());
    assert_eq!(manager.get_active_chats().items[0].number_of_unread_messages, 0);
    assert_eq!(manager.get_loaded_chat().unwrap().id, Some(1));
    assert_eq!(manager.loaded_internal_chat_id.as_ref().unwrap(), &key);
}

#[test]
fn add_messages_bulk_load_counts_unread() {
    let mut manager = ChatManager::new();
    manager.add_chats(vec![server_chat(1, "one", None), server_chat(2, "two", None)]);
    manager.add_messages(vec![
        (1, vec![message(1, "a", 1, false), message(1, "b", 2, true), message(1, "c", 3, false)]),
        (2, vec![message(2, "d", 4, true)]),
    ]);
    let key1 = u32_to_dec_string(1);
    let key2 = u32_to_dec_string(2);
    assert_eq!(manager.get_active_chats().get(&key1).number_of_unread_messages, 2);
    assert_eq!(manager.get_active_chats().get(&key2).number_of_unread_messages, 0);
    assert_eq!(manager.get_messages(1).len(), 3);
    assert_eq!(manager.get_messages(2).len(), 1);
}

#[test]
fn search_overlay_is_separate_and_active_while_non_empty() {
    let mut manager = ChatManager::new();
    manager.add_chats(vec![server_chat(1, "one", Some(message(1, "a", 10, true)))]);
    let overlay = Chat {
        internal_id: "bob".to_string(),
        id: None,
        name: "bob".to_string(),
        members: vec![user("u9", "bob")],
        last_message: None,
        number_of_unread_messages: 0,
    };
    manager.set_search_results(vec![overlay]);
    assert_eq!(manager.get_active_chats().items.len(), 1);
    assert_eq!(manager.get_active_chats().items[0].internal_id, "bob");
    manager.clear_search_results();
    assert_eq!(manager.get_active_chats().items.len(), 1);
    assert_eq!(manager.get_active_chats().items[0].id, Some(1));
}

#[test]
fn selection_moves_and_wraps() {
    let mut manager = ChatManager::new();
    manager.add_chats(vec![
        server_chat(1, "one", Some(message(1, "a", 100, true))),
        server_chat(2, "two", Some(message(2, "b", 300, true))),
    ]);
    manager.select_next_chat();
    assert_eq!(manager.get_selected_chat().unwrap().id, Some(2));
    manager.select_next_chat();
    assert_eq!(manager.get_selected_chat().unwrap().id, Some(1));
    manager.select_next_chat();
    assert_eq!(manager.get_selected_chat().unwrap().id, Some(2));
    manager.select_previous_chat();
    assert_eq!(manager.get_selected_chat().unwrap().id, Some(1));
    manager.unselect_chat();
    assert!(manager.get_selected_chat().is_none());
}

#[test]
fn get_chat_by_name_finds_first_primary_match() {
    let mut manager = ChatManager::new();
    manager.add_chats(vec![
        server_chat(1, "bob", Some(message(1, "a", 100, true))),
        server_chat(2, "carol", Some(message(2, "b", 300, true))),
    ]);
    let found = manager.get_chat_by_name(&"bob".to_string()).unwrap();
    assert_eq!(found.id, Some(1));
    assert!(manager.get_chat_by_name(&"nobody".to_string()).is_none());
}

#[test]
fn read_all_resets_unread() {
    let mut manager = ChatManager::new();
    manager.add_chat(server_chat(1, "one", None));
    manager.add_message(message(1, "x", 5, false));
    manager.read_all(1);
    assert_eq!(manager.get_active_chats().items[0].number_of_unread_messages, 0);
}

#[test]
fn unread_counter_saturates_at_the_u32_ceiling() {
    let mut manager = ChatManager::new();
    let mut chat = server_chat(1, "one", None);
    chat.number_of_unread_messages = u32::MAX;
    manager.add_chat(chat);
    manager.add_message(message(1, "x", 1, false));
    assert_eq!(
        manager.get_active_chats().items[0].number_of_unread_messages,
        u32::MAX
    );
}

#[test]
fn adding_no_chats_changes_nothing() {
    let mut manager = ChatManager::new();
    manager.add_chats(vec![]);
    assert!(manager.get_active_chats().is_empty());
    assert!(!manager.has_chat(&1));
}

#[test]
fn chats_and_messages_copy_faithfully() {
    let chat = server_chat(5, "five", Some(message(5, "hi", 9, false)));
    let copy = chat.duplicate();
    assert_eq!(copy.internal_id, chat.internal_id);
    assert_eq!(copy.name, chat.name);
    assert_eq!(copy.members.len(), chat.members.len());
    assert_eq!(copy.last_message.as_ref().unwrap().text, "hi");
    assert_eq!(copy.last_message.as_ref().unwrap().as_string(), "hi");
    assert_eq!(chat.internal_id(), "5");
}
