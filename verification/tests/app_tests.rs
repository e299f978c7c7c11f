//! The application core: submit planning, login/register completion, the
//! open-chat decision, and search handling.

use chat_core::api::{BodySummary, Client, RequestParams, ResponseVerdict};
use chat_core::app::{
    extract_user_ids, load_records, search_chats_from_users, validate_register_input, App,
    OpenChatPlan, SubmitPlan, Windows,
};
use chat_core::auth::AuthTokens;
use chat_core::chat::manager::ChatManager;
use chat_core::chat::Chat;
use chat_core::factory::get_chat_builder;
use chat_core::helpers::digits::u32_to_dec_string;
use chat_core::input::{KeyCode, KeyEvent};
use chat_core::schemas::{ChatModel, MessageModel, User};
use chat_core::window::login::LoginInputValues;
use chat_core::window::main::ActiveInputEntity;

fn key(code: KeyCode) -> KeyEvent {
    KeyEvent { code, ctrl: false }
}

fn user(id: &str, name: &str) -> User {
    User { id: id.to_string(), username: name.to_string() }
}

fn record_message(chat_id: u32, sender: &str, text: &str, created_at: u64, is_read: bool) -> MessageModel {
    MessageModel {
        chat_id,
        sender_id: sender.to_string(),
        text: text.to_string(),
        created_at,
        is_read,
    }
}

fn values(u: &str, p: &str, conf: Option<&str>) -> LoginInputValues {
    LoginInputValues {
        username: u.chars().collect(),
        password: p.chars().collect(),
        password_confirmation: conf.map(|c| c.chars().collect()),
    }
}

fn fresh_app(client: Client) -> App {
    App::new(client, get_chat_builder(vec![], None), None, ChatManager::new())
}

fn auth_body(access: &str, refresh: &str, uid: &str) -> BodySummary {
    BodySummary {
        parse_ok: true,
        detail: Some("nope".to_string()),
        access_token: Some(access.to_string()),
        refresh_token: Some(refresh.to_string()),
        user_id: Some(uid.to_string()),
        error_messages: vec![],
    }
}

fn server_chat(id: u32, name: &str) -> Chat {
    Chat {
        internal_id: u32_to_dec_string(id),
        id: Some(id),
        name: name.to_string(),
        members: vec![user("me", "self"), user("u2", name)],
        last_message: None,
        number_of_unread_messages: 0,
    }
}

#[test]
fn register_validation_messages() {
    let r = validate_register_input(&values("bob", "longenough", Some("different")));
    assert_eq!(r.unwrap(), "Passwords do not match.\n");
    let r = validate_register_input(&values("bob", "short", Some("short")));
    assert_eq!(r.unwrap(), "Password must be at least 8 characters long.\n");
    let r = validate_register_input(&values("bo", "longenough", Some("longenough")));
    assert_eq!(r.unwrap(), "Username must be at least 3 characters long.\n");
    assert!(validate_register_input(&values("bob", "longenough", Some("longenough"))).is_none());
}

#[test]
fn submit_empty_login_form_is_rejected_inline() {
    let mut app = fresh_app(Client::new(None));
    let plan = app.plan_submit();
    assert!(matches!(plan, SubmitPlan::LoginRejected));
    assert_eq!(
        app.login_window.login_error_message,
        "Username and password are required."
    );
}

#[test]
fn submit_filled_login_form_plans_a_login() {
    let mut app = fresh_app(Client::new(None));
    for c in "alice".chars() {
        app.pass_input_to_active_entity(key(KeyCode::Char(c)));
    }
    app.pass_input_to_active_entity(key(KeyCode::Tab));
    for c in "pw".chars() {
        app.pass_input_to_active_entity(key(KeyCode::Char(c)));
    }
    match app.plan_submit() {
        SubmitPlan::LoginAttempt(u, p) => {
            assert_eq!(u, "alice");
            assert_eq!(p, "pw");
        },
        _ => panic!("expected a login attempt"),
    }
}

#[test]
fn login_scenario_opens_the_session_and_loads_a_sorted_list() {
    // valid credentials: the client receives a token pair and the user id
    let mut app = fresh_app(Client::new(None));
    app.finish_login("alice".to_string(), 200, &auth_body("a1", "r1", "user-1"));
    assert!(app.is_authenticated());
    assert!(matches!(app.active_window, Windows::Main));
    assert_eq!(app.user.as_ref().unwrap().id, "user-1");

    // the fetched records load through the directory: the chat list comes out
    // sorted by recency, with last messages, unread counts and buffers intact
    let records = vec![
        ChatModel {
            id: 1,
            name: Some("older".to_string()),
            member_ids: vec!["me".to_string(), "u2".to_string()],
            messages: vec![
                record_message(1, "u2", "first", 10, true),
                record_message(1, "u2", "second", 20, false),
            ],
        },
        ChatModel {
            id: 2,
            name: Some("newer".to_string()),
            member_ids: vec!["me".to_string(), "u3".to_string()],
            messages: vec![record_message(2, "u3", "latest", 30, true)],
        },
    ];
    app.chat_builder.add_users(vec![
        user("me", "self"),
        user("u2", "bob"),
        user("u3", "carol"),
    ]);
    load_records(&mut app.main_window.chat_manager, &app.chat_builder, records);

    let manager = &app.main_window.chat_manager;
    let order: Vec<Option<u32>> =
        manager.get_active_chats().items.iter().map(|c| c.id).collect();
    assert_eq!(order, vec![Some(2), Some(1)]);
    let top = &manager.get_active_chats().items[0];
    assert_eq!(top.last_message.as_ref().unwrap().text, "latest");
    assert_eq!(top.number_of_unread_messages, 0);
    let second = &manager.get_active_chats().items[1];
    assert_eq!(second.last_message.as_ref().unwrap().text, "second");
    assert_eq!(second.last_message.as_ref().unwrap().sender_username, "bob");
    assert_eq!(second.number_of_unread_messages, 1);
    assert_eq!(manager.get_messages(1).len(), 2);
    assert_eq!(manager.get_messages(2).len(), 1);
}

#[test]
fn created_chat_is_selected_loaded_and_read() {
    let client = Client::new(Some(AuthTokens::new("t", "r")));
    let mut app = App::new(
        client,
        get_chat_builder(vec![user("me", "self"), user("u2", "bob")], Some(user("me", "self"))),
        Some(user("me", "self")),
        ChatManager::new(),
    );
    let overlay = search_chats_from_users(vec![user("u2", "bob")], &user("me", "self"));
    app.main_window.chat_manager.set_search_results(overlay);

    let created = ChatModel {
        id: 9,
        name: None,
        member_ids: vec!["me".to_string(), "u2".to_string()],
        messages: vec![record_message(9, "me", "hi there", 50, false)],
    };
    app.apply_created_chat(created);

    let manager = &app.main_window.chat_manager;
    assert!(manager.get_active_chats().items[0].id == Some(9));
    assert_eq!(manager.get_active_chats().items[0].name, "bob");
    // the overlay is gone, the chat is selected, loaded and read
    assert_eq!(manager.get_selected_chat().unwrap().id, Some(9));
    assert_eq!(manager.loaded_internal_chat_id.as_deref(), Some("9"));
    assert_eq!(manager.get_active_chats().items[0].number_of_unread_messages, 0);
    assert_eq!(
        manager.get_active_chats().items[0].last_message.as_ref().unwrap().text,
        "hi there"
    );
    assert!(app.main_window.search_input.is_empty());
}

#[test]
fn inbound_message_is_enriched_and_applied() {
    let client = Client::new(Some(AuthTokens::new("t", "r")));
    let mut app = App::new(
        client,
        get_chat_builder(vec![user("me", "self"), user("u2", "bob")], Some(user("me", "self"))),
        Some(user("me", "self")),
        ChatManager::new(),
    );
    app.main_window.chat_manager.add_chat(server_chat(4, "bob"));
    app.apply_inbound_message(record_message(4, "u2", "ping", 77, false));
    let manager = &app.main_window.chat_manager;
    let top = &manager.get_active_chats().items[0];
    assert_eq!(top.id, Some(4));
    assert_eq!(top.number_of_unread_messages, 1);
    let last = top.last_message.as_ref().unwrap();
    assert_eq!(last.sender_username, "bob");
    assert_eq!(last.text, "ping");
    assert_eq!(manager.get_messages(4).len(), 1);
}

#[test]
fn failed_login_shows_the_servers_reason() {
    let mut app = fresh_app(Client::new(None));
    let mut body = auth_body("", "", "");
    body.access_token = None;
    body.refresh_token = None;
    body.user_id = None;
    body.detail = Some("bad credentials".to_string());
    app.finish_login("alice".to_string(), 403, &body);
    assert!(!app.is_authenticated());
    assert!(matches!(app.active_window, Windows::Login));
    assert_eq!(app.login_window.login_error_message, "Request error: bad credentials");
}

#[test]
fn expired_access_token_recovers_without_surfacing_an_error() {
    // access token expired, refresh token valid: one refresh, one resend
    let mut client = Client::new(Some(AuthTokens::new("expired", "good")));
    let mut rp = RequestParams::new("http://h/chats".to_string());
    let first = client.classify_response(&rp, 401, &BodySummary::unparsed());
    assert!(matches!(first, ResponseVerdict::NeedsRefresh));
    let posted = client.begin_refresh(&mut rp);
    assert_eq!(posted, "good");
    client
        .handle_refresh_response(200, &auth_body("fresh", "good2", "user-1"))
        .unwrap();
    let retried = client.classify_response(&rp, 200, &BodySummary::unparsed());
    assert!(matches!(retried, ResponseVerdict::Success));
    assert_eq!(client.auth_tokens.as_ref().unwrap().token, "fresh");
}

#[test]
fn opening_a_search_result_with_an_existing_chat_uses_its_real_key() {
    let client = Client::new(Some(AuthTokens::new("t", "r")));
    let mut app = fresh_app(client);
    app.main_window.chat_manager.add_chat(server_chat(7, "bob"));

    // the search overlay shows a prospective chat with a synthetic key
    let overlay = search_chats_from_users(vec![user("u2", "bob")], &user("me", "self"));
    assert_eq!(overlay[0].internal_id, "bob");
    assert!(overlay[0].id.is_none());
    app.main_window.chat_manager.set_search_results(overlay);

    let picked = app.main_window.chat_manager.get_active_chats().items[0].duplicate();
    let plan: OpenChatPlan = app.plan_open_chat(&picked);
    assert_eq!(plan.target_internal_id, "7");
    assert!(plan.specifically);
    assert_eq!(plan.mark_read, Some(7));
    assert_eq!(plan.select_after.as_deref(), Some("7"));

    app.apply_open_chat(plan);
    assert_eq!(
        app.main_window.chat_manager.loaded_internal_chat_id.as_deref(),
        Some("7")
    );
    assert!(matches!(
        app.main_window.active_input_entity,
        ActiveInputEntity::EnterMessage
    ));
    // the overlay is gone and the real chat is selected
    assert_eq!(app.main_window.chat_manager.get_active_chats().items[0].id, Some(7));
    assert_eq!(
        app.main_window.chat_manager.get_selected_chat().unwrap().id,
        Some(7)
    );
}

#[test]
fn opening_a_truly_new_search_result_keeps_the_synthetic_key() {
    let client = Client::new(Some(AuthTokens::new("t", "r")));
    let app = fresh_app(client);
    let overlay = search_chats_from_users(vec![user("u9", "dora")], &user("me", "self"));
    let plan = app.plan_open_chat(&overlay[0]);
    assert_eq!(plan.target_internal_id, "dora");
    assert!(!plan.specifically);
    assert!(plan.mark_read.is_none());
    assert!(plan.select_after.is_none());
}

#[test]
fn submitting_a_message_for_an_existing_chat_plans_a_send() {
    let client = Client::new(Some(AuthTokens::new("t", "r")));
    let mut app = App::new(
        client,
        get_chat_builder(vec![], None),
        Some(user("me", "self")),
        ChatManager::new(),
    );
    app.main_window.chat_manager.add_chat(server_chat(3, "bob"));
    app.main_window.chat_manager.select_chat(u32_to_dec_string(3));
    app.main_window.set_active_input_entity(ActiveInputEntity::EnterMessage);
    for c in "hello".chars() {
        app.pass_input_to_active_entity(key(KeyCode::Char(c)));
    }
    match app.plan_submit() {
        SubmitPlan::SendMessage(m) => {
            assert_eq!(m.chat_id, 3);
            assert_eq!(m.text, "hello");
            assert_eq!(m.sender_id, "me");
        },
        _ => panic!("expected a send"),
    }
    assert!(app.main_window.message_input.is_empty());
}

#[test]
fn submitting_a_message_for_a_prospective_chat_plans_a_create() {
    let client = Client::new(Some(AuthTokens::new("t", "r")));
    let mut app = App::new(
        client,
        get_chat_builder(vec![], None),
        Some(user("me", "self")),
        ChatManager::new(),
    );
    let overlay = search_chats_from_users(vec![user("u2", "bob")], &user("me", "self"));
    app.main_window.chat_manager.set_search_results(overlay);
    app.main_window.chat_manager.select_chat("bob".to_string());
    app.main_window.set_active_input_entity(ActiveInputEntity::EnterMessage);
    for c in "hi there".chars() {
        app.pass_input_to_active_entity(key(KeyCode::Char(c)));
    }
    match app.plan_submit() {
        SubmitPlan::CreateChat(nc) => {
            assert!(nc.name.is_none());
            assert_eq!(nc.member_ids, vec!["u2".to_string(), "me".to_string()]);
            assert_eq!(nc.first_message, "hi there");
        },
        _ => panic!("expected a create"),
    }
}

#[test]
fn empty_search_clears_and_nonempty_searches() {
    let client = Client::new(Some(AuthTokens::new("t", "r")));
    let mut app = App::new(client, get_chat_builder(vec![], None), None, ChatManager::new());
    assert!(matches!(app.plan_submit(), SubmitPlan::ClearSearch));
    for c in "bo".chars() {
        app.pass_input_to_active_entity(key(KeyCode::Char(c)));
    }
    match app.plan_submit() {
        SubmitPlan::Search(s) => assert_eq!(s, "bo"),
        _ => panic!("expected a search"),
    }
}

#[test]
fn extract_user_ids_deduplicates_member_ids() {
    let chats = vec![
        ChatModel {
            id: 1,
            name: None,
            member_ids: vec!["a".to_string(), "b".to_string()],
            messages: vec![],
        },
        ChatModel {
            id: 2,
            name: None,
            member_ids: vec!["b".to_string(), "c".to_string()],
            messages: vec![],
        },
    ];
    let ids = extract_user_ids(&chats);
    assert_eq!(ids, vec!["a".to_string(), "b".to_string(), "c".to_string()]);
}

#[test]
fn quit_flag_follows_requests() {
    let mut app = fresh_app(Client::new(None));
    assert!(!app.should_quit());
    app.quit();
    assert!(app.should_quit());
}
