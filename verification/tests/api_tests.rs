//! The session client: the single-retry refresh protocol, response
//! interpretation, and the real-time channel decisions.

use chat_core::api::{
    classify_frame, join_lines, ApiError, BodySummary, Client, FrameStep, RequestParams,
    ResponseVerdict, WsConnectStep, WsFrame, WsHandshake,
};
use chat_core::auth::AuthTokens;

fn body_with_detail(detail: &str) -> BodySummary {
    BodySummary {
        parse_ok: true,
        detail: Some(detail.to_string()),
        access_token: None,
        refresh_token: None,
        user_id: None,
        error_messages: vec![],
    }
}

fn auth_body(access: &str, refresh: &str, uid: &str) -> BodySummary {
    BodySummary {
        parse_ok: true,
        detail: None,
        access_token: Some(access.to_string()),
        refresh_token: Some(refresh.to_string()),
        user_id: Some(uid.to_string()),
        error_messages: vec![],
    }
}

fn authed_client() -> Client {
    Client::new(Some(AuthTokens::new("tok", "ref")))
}

#[test]
fn a_401_with_budget_asks_for_one_refresh_and_only_one() {
    let mut client = authed_client();
    let mut rp = RequestParams::new("http://h/chats".to_string());

    // first physical request comes back 401: refresh is asked for
    let verdict = client.classify_response(&rp, 401, &BodySummary::unparsed());
    assert!(matches!(verdict, ResponseVerdict::NeedsRefresh));

    // starting the refresh spends the budget before anything is sent
    let refresh_token = client.begin_refresh(&mut rp);
    assert_eq!(refresh_token, "ref");
    assert!(!rp.can_reauthenticate);

    // the refresh succeeds and the token pair is replaced wholesale
    client
        .handle_refresh_response(200, &auth_body("tok2", "ref2", "u1"))
        .unwrap();
    assert_eq!(client.auth_tokens.as_ref().unwrap().token, "tok2");
    assert_eq!(client.auth_tokens.as_ref().unwrap().refresh_token, "ref2");

    // the retried request succeeds: the caller sees no error
    let verdict = client.classify_response(&rp, 200, &BodySummary::unparsed());
    assert!(matches!(verdict, ResponseVerdict::Success));

    // had the retry come back 401 again, no second refresh: unauthenticated
    let second = client.classify_response(&rp, 401, &BodySummary::unparsed());
    assert!(matches!(second, ResponseVerdict::FailedUnauthenticated));
}

#[test]
fn refresh_rejected_with_401_is_unauthenticated() {
    let mut client = authed_client();
    let r = client.handle_refresh_response(401, &body_with_detail("expired"));
    assert!(matches!(r, Err(ApiError::Unauthenticated)));
    assert_eq!(client.auth_tokens.as_ref().unwrap().token, "tok");
}

#[test]
fn refresh_other_failure_surfaces_the_reason() {
    let mut client = authed_client();
    let r = client.handle_refresh_response(500, &body_with_detail("boom"));
    match r {
        Err(ApiError::RequestError(m)) => assert_eq!(m, "boom"),
        _ => panic!("expected the server's reason"),
    }
}

#[test]
fn refresh_success_without_tokens_is_a_data_error() {
    let mut client = authed_client();
    let r = client.handle_refresh_response(200, &body_with_detail("irrelevant"));
    assert!(matches!(r, Err(ApiError::DataError(_))));
    let r2 = client.handle_refresh_response(200, &auth_body("", "r", "u"));
    assert!(matches!(r2, Err(ApiError::DataError(_))));
}

#[test]
fn non_401_failure_surfaces_detail_verbatim() {
    let client = authed_client();
    let rp = RequestParams::new("http://h/x".to_string());
    let verdict = client.classify_response(&rp, 404, &body_with_detail("no such chat"));
    match verdict {
        ResponseVerdict::Failed(ApiError::RequestError(m)) => assert_eq!(m, "no such chat"),
        _ => panic!("expected the server's reason"),
    }
}

#[test]
fn unreadable_failure_body_is_a_data_error() {
    let client = authed_client();
    let rp = RequestParams::new("http://h/x".to_string());
    let verdict = client.classify_response(&rp, 500, &BodySummary::unparsed());
    assert!(matches!(verdict, ResponseVerdict::Failed(ApiError::DataError(_))));
}

#[test]
fn unauthenticated_401_is_an_ordinary_failure() {
    let client = Client::new(None);
    let rp = RequestParams::new("http://h/x".to_string());
    let verdict = client.classify_response(&rp, 401, &body_with_detail("who are you"));
    match verdict {
        ResponseVerdict::Failed(ApiError::RequestError(m)) => assert_eq!(m, "who are you"),
        _ => panic!("expected the server's reason"),
    }
}

#[test]
fn login_success_stores_tokens_and_returns_user_id() {
    let mut client = Client::new(None);
    let uid = client.complete_login(200, &auth_body("a", "r", "user-9")).unwrap();
    assert_eq!(uid, "user-9");
    assert!(client.is_authenticated());
    assert_eq!(client.auth_tokens.as_ref().unwrap().token, "a");
}

#[test]
fn login_failure_keeps_token_state_and_reports_detail() {
    let mut client = authed_client();
    let r = client.complete_login(403, &body_with_detail("bad credentials"));
    match r {
        Err(ApiError::RequestError(m)) => assert_eq!(m, "bad credentials"),
        _ => panic!("expected the server's reason"),
    }
    assert_eq!(client.auth_tokens.as_ref().unwrap().token, "tok");
}

#[test]
fn register_validation_errors_join_one_per_line() {
    let mut client = Client::new(None);
    let body = BodySummary {
        parse_ok: true,
        detail: None,
        access_token: None,
        refresh_token: None,
        user_id: None,
        error_messages: vec!["name taken".to_string(), "password weak".to_string()],
    };
    let r = client.complete_register(422, &body);
    match r {
        Err(ApiError::RequestError(m)) => assert_eq!(m, "name taken\npassword weak"),
        _ => panic!("expected joined messages"),
    }
    assert!(!client.is_authenticated());
}

#[test]
fn join_lines_exact_values() {
    assert_eq!(join_lines(&vec![]), "");
    assert_eq!(join_lines(&vec!["a".to_string()]), "a");
    assert_eq!(
        join_lines(&vec!["a".to_string(), "b".to_string(), "c".to_string()]),
        "a\nb\nc"
    );
}

#[test]
fn error_display_texts() {
    assert_eq!(ApiError::Unauthenticated.as_string(), "Unauthenticated");
    assert_eq!(
        ApiError::RequestError("x".to_string()).as_string(),
        "Request error: x"
    );
    assert_eq!(ApiError::DataError("y".to_string()).as_string(), "Data error: y");
}

#[test]
fn prepared_request_encodes_the_query() {
    let client = authed_client();
    let mut rp = RequestParams::new("http://example.net/api/users".to_string());
    rp.query_params.push(("username".to_string(), "bo b".to_string()));
    let prepared = client.prepare_request(&rp).unwrap();
    assert_eq!(prepared.url, "http://example.net/api/users?username=bo+b");
    assert_eq!(prepared.authorization, "Bearer tok");
    assert!(prepared.body.is_none());
}

#[test]
fn invalid_request_target_is_rejected() {
    let client = authed_client();
    let rp = RequestParams::new("not a url".to_string());
    assert!(client.prepare_request(&rp).is_none());
}

#[test]
fn websocket_key_is_base64_of_sixteen_bytes() {
    let key = chat_core::helpers::generate_sec_websocket_key();
    // standard padded base64 of 16 bytes is always 24 characters
    assert_eq!(key.len(), 24);
    assert!(key.is_ascii());
}

#[test]
fn frames_are_sorted_by_kind() {
    match classify_frame(WsFrame::Text("{\"x\":1}".to_string())) {
        FrameStep::Deliver(t) => assert_eq!(t, "{\"x\":1}"),
        _ => panic!("text frames are delivered"),
    }
    assert!(matches!(classify_frame(WsFrame::Ping), FrameStep::Ignore));
    assert!(matches!(classify_frame(WsFrame::Pong), FrameStep::Ignore));
    assert!(matches!(classify_frame(WsFrame::Binary), FrameStep::ProtocolError));
    assert!(matches!(classify_frame(WsFrame::Close), FrameStep::ConnectionClosed));
}

#[test]
fn websocket_handshake_refreshes_once_then_gives_up() {
    let client = authed_client();
    let mut rp = RequestParams::new("ws".to_string());
    let step = client.ws_connect_step(&rp, &WsHandshake::Rejected(401));
    assert!(matches!(step, WsConnectStep::RefreshAndRetry));
    let _ = client.begin_refresh(&mut rp);
    let again = client.ws_connect_step(&rp, &WsHandshake::Rejected(401));
    assert!(matches!(again, WsConnectStep::Fatal));
    assert!(matches!(
        client.ws_connect_step(&rp, &WsHandshake::Established),
        WsConnectStep::Connected
    ));
    assert!(matches!(
        client.ws_connect_step(&rp, &WsHandshake::Failed("refused".to_string())),
        WsConnectStep::Fatal
    ));
}

#[test]
fn errors_copy_faithfully() {
    let e = ApiError::RequestError("oops".to_string());
    match e.duplicate() {
        ApiError::RequestError(m) => assert_eq!(m, "oops"),
        _ => panic!("the copy must keep the variant"),
    }
    assert!(matches!(ApiError::Unauthenticated.duplicate(), ApiError::Unauthenticated));
}
