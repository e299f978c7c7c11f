//! The plain value types around the session.

use chat_core::auth::AuthTokens;
use chat_core::chat::{SearchUser, SearchUserResult};
use chat_core::contact::Contact;
use chat_core::session::Session;

#[test]
fn auth_tokens_carry_both_halves() {
    let tokens = AuthTokens::new("access", "refresh");
    assert_eq!(tokens.token, "access");
    assert_eq!(tokens.refresh_token, "refresh");
}

#[test]
fn session_carries_both_halves() {
    let session = Session::new("access", "refresh");
    assert_eq!(session.token, "access");
    assert_eq!(session.refresh_token, "refresh");
}

#[test]
fn contact_and_search_results_hold_their_fields() {
    let contact = Contact { id: "u1".to_string(), name: "alice".to_string() };
    assert_eq!(contact.id, "u1");
    assert_eq!(contact.name, "alice");
    let results = SearchUserResult {
        users: vec![SearchUser { username: "bob".to_string(), user_id: "u2".to_string() }],
    };
    assert_eq!(results.users.len(), 1);
    assert_eq!(results.users[0].username, "bob");
}
