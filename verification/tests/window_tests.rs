//! The windows and input entities: editing, masking, tab switching, and the
//! main window's key routing.

use chat_core::chat::manager::ChatManager;
use chat_core::helpers::digits::u32_to_dec_string;
use chat_core::helpers::input_to_string;
use chat_core::input::entities::search::SearchInputEntity;
use chat_core::input::{KeyCode, KeyEvent};
use chat_core::ui::states::{AuthActiveInput, AuthWindowState};
use chat_core::window::login::{LoginActiveInput, LoginTabs, LoginWindow};
use chat_core::window::main::{ActiveInputEntity, MainWindow};
use chat_core::helpers::hash_map::StatefulHashMap;

fn key(code: KeyCode) -> KeyEvent {
    KeyEvent { code, ctrl: false }
}

fn type_str(w: &mut LoginWindow, s: &str) {
    for c in s.chars() {
        w.process_input(key(KeyCode::Char(c)));
    }
}

#[test]
fn decimal_rendering_exact_values() {
    assert_eq!(u32_to_dec_string(0), "0");
    assert_eq!(u32_to_dec_string(7), "7");
    assert_eq!(u32_to_dec_string(105), "105");
    assert_eq!(u32_to_dec_string(4294967295), "4294967295");
}

#[test]
fn input_to_string_collects_characters() {
    assert_eq!(input_to_string(&vec!['h', 'e', 'y']), "hey");
    assert_eq!(input_to_string(&vec![]), "");
}

#[test]
fn login_window_masks_passwords() {
    let mut w = LoginWindow::new();
    w.process_input(key(KeyCode::Tab));
    assert!(matches!(w.active_input_field, LoginActiveInput::Password));
    type_str(&mut w, "abc");
    assert_eq!(input_to_string(&w.password_input), "***");
    assert_eq!(input_to_string(&w.actual_password_input), "abc");
    w.process_input(key(KeyCode::Backspace));
    assert_eq!(input_to_string(&w.password_input), "**");
    assert_eq!(input_to_string(&w.actual_password_input), "ab");
}

#[test]
fn login_window_tabs_switch_forms() {
    let mut w = LoginWindow::new();
    assert!(matches!(w.active_tab, LoginTabs::Login));
    w.process_input(key(KeyCode::Left));
    assert!(matches!(w.active_tab, LoginTabs::Register));
    assert!(matches!(w.active_input_field, LoginActiveInput::RegisterUsername));
    w.process_input(key(KeyCode::Right));
    assert!(matches!(w.active_tab, LoginTabs::Login));
    assert!(matches!(w.active_input_field, LoginActiveInput::Username));
}

#[test]
fn login_window_input_values_follow_the_tab() {
    let mut w = LoginWindow::new();
    type_str(&mut w, "alice");
    w.process_input(key(KeyCode::Tab));
    type_str(&mut w, "pw");
    let values = w.get_input_values();
    assert_eq!(input_to_string(&values.username), "alice");
    assert_eq!(input_to_string(&values.password), "pw");
    assert!(values.password_confirmation.is_none());

    w.process_input(key(KeyCode::Left));
    type_str(&mut w, "bob");
    w.process_input(key(KeyCode::Tab));
    type_str(&mut w, "secret12");
    w.process_input(key(KeyCode::Tab));
    type_str(&mut w, "secret12");
    let values = w.get_input_values();
    assert_eq!(input_to_string(&values.username), "bob");
    assert_eq!(input_to_string(&values.password), "secret12");
    assert_eq!(
        input_to_string(&values.password_confirmation.unwrap()),
        "secret12"
    );
}

#[test]
fn register_field_rotation_wraps() {
    let mut w = LoginWindow::new();
    w.process_input(key(KeyCode::Left));
    assert!(matches!(w.active_input_field, LoginActiveInput::RegisterUsername));
    w.process_input(key(KeyCode::Tab));
    assert!(matches!(w.active_input_field, LoginActiveInput::RegisterPassword));
    w.process_input(key(KeyCode::Tab));
    assert!(matches!(
        w.active_input_field,
        LoginActiveInput::RegisterPasswordConfirmation
    ));
    w.process_input(key(KeyCode::Tab));
    assert!(matches!(w.active_input_field, LoginActiveInput::RegisterUsername));
}

#[test]
fn search_entity_edits_at_the_cursor() {
    let mut s = SearchInputEntity::new();
    s.process_input(key(KeyCode::Char('a')));
    s.process_input(key(KeyCode::Char('c')));
    s.process_input(key(KeyCode::Left));
    s.process_input(key(KeyCode::Char('b')));
    assert_eq!(input_to_string(&s.input), "abc");
    assert_eq!(s.get_cursor_position(), 2);
    s.process_input(key(KeyCode::Backspace));
    assert_eq!(input_to_string(&s.input), "ac");
    s.process_input(key(KeyCode::Right));
    assert_eq!(s.get_cursor_position(), 2);
}

#[test]
fn auth_state_masks_and_switches_fields() {
    let mut a = AuthWindowState::new();
    a.enter_char('j');
    a.enter_char('o');
    assert!(matches!(a.active_input, AuthActiveInput::Username));
    a.switch_to_next_input();
    assert!(matches!(a.active_input, AuthActiveInput::Password));
    a.enter_char('x');
    a.enter_char('y');
    let values = a.get_input_values();
    assert_eq!(input_to_string(&values.username), "jo");
    assert_eq!(input_to_string(&values.password), "xy");
    assert_eq!(input_to_string(&a.password_input), "**");
    // deleting edits the visible mask only; the held password keeps its text
    a.delete_char();
    assert_eq!(input_to_string(&a.password_input), "*");
    assert_eq!(input_to_string(&a.get_input_values().password), "xy");
}

#[test]
fn main_window_routes_typing_to_search() {
    let manager = ChatManager::new();
    let mut w = MainWindow::new(manager);
    w.process_input(key(KeyCode::Char('h')));
    w.process_input(key(KeyCode::Char('i')));
    assert_eq!(w.get_active_input(), "hi");
    assert_eq!(w.get_cursor_position(), 2);
    w.process_input(key(KeyCode::Backspace));
    assert_eq!(w.get_active_input(), "h");
}

#[test]
fn arrow_down_enters_selection_mode() {
    let mut manager = ChatManager::new();
    manager.add_chat(chat_core::chat::Chat {
        internal_id: u32_to_dec_string(1),
        id: Some(1),
        name: "one".to_string(),
        members: vec![],
        last_message: None,
        number_of_unread_messages: 0,
    });
    let mut w = MainWindow::new(manager);
    w.process_input(key(KeyCode::Down));
    assert!(matches!(w.active_input_entity, ActiveInputEntity::SelectChat));
    assert_eq!(w.chat_manager.get_selected_chat().unwrap().id, Some(1));
}

#[test]
fn escape_backs_out_one_level_at_a_time() {
    let mut manager = ChatManager::new();
    manager.add_chat(chat_core::chat::Chat {
        internal_id: u32_to_dec_string(1),
        id: Some(1),
        name: "one".to_string(),
        members: vec![],
        last_message: None,
        number_of_unread_messages: 0,
    });
    let mut w = MainWindow::new(manager);
    w.process_input(key(KeyCode::Down));
    w.set_active_input_entity(ActiveInputEntity::EnterMessage);
    w.process_input(key(KeyCode::Char('x')));
    w.process_input(key(KeyCode::Esc));
    assert!(matches!(w.active_input_entity, ActiveInputEntity::SelectChat));
    assert!(w.message_input.is_empty());
    assert!(w.chat_manager.loaded_internal_chat_id.is_none());
    w.process_input(key(KeyCode::Esc));
    assert!(matches!(w.active_input_entity, ActiveInputEntity::SearchChats));
    assert!(w.chat_manager.get_selected_chat().is_none());
}

#[test]
fn pop_message_input_takes_and_clears() {
    let manager = ChatManager::new();
    let mut w = MainWindow::new(manager);
    w.set_active_input_entity(ActiveInputEntity::EnterMessage);
    w.process_input(key(KeyCode::Char('y')));
    w.process_input(key(KeyCode::Char('o')));
    let taken = w.pop_message_input();
    assert_eq!(input_to_string(&taken), "yo");
    assert!(w.message_input.is_empty());
    assert_eq!(w.get_cursor_position(), 0);
}

#[test]
fn stateful_hash_map_cursor_wraps() {
    let mut m: StatefulHashMap<u32, String> = StatefulHashMap::new();
    assert!(m.is_empty());
    m.next();
    assert!(m.selected.is_none());
    m.push(1, "a".to_string());
    m.push(2, "b".to_string());
    m.next();
    assert_eq!(m.selected, Some(0));
    m.next();
    assert_eq!(m.selected, Some(1));
    m.next();
    assert_eq!(m.selected, Some(0));
    m.previous();
    assert_eq!(m.selected, Some(1));
}
