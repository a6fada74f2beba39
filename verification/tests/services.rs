use vrc_yutils::auth::{
    authorization_state, basic_auth_header, choose_factor, cookie_token, credentials,
    friends_reply, required_auth, token_ready, token_value, user_url, verify_url, AuthResponse,
    Config, FriendsReply,
};
use vrc_yutils::init::{friends_url, make_location, FriendPager};
use vrc_yutils::notify::{
    after_send, notification_text, should_notify, udp_port, xsoverlay_ws_url, JoinType,
    SendStep,
};
use vrc_yutils::session::{
    classify, connect_failure, event_kind, pipeline_address, EventKind, Flow, Incoming, Next,
    Reconnect, WsError,
};

#[test]
fn basic_auth_of_typed_credentials() {
    let c = credentials(" user\n", "pass\r\n");
    assert_eq!(c, "user:pass");
    assert_eq!(basic_auth_header(&c), "Basic dXNlcjpwYXNz");
    assert_eq!(basic_auth_header("ab"), "Basic YWI");
    assert_eq!(basic_auth_header("alice:pw"), "Basic YWxpY2U6cHc");
    assert_eq!(basic_auth_header("a"), "Basic YQ");
    assert_eq!(basic_auth_header(""), "Basic ");
}

#[test]
fn token_from_cookie() {
    let cookie = cookie_token("auth=authcookie_123; Max-Age=604800; Path=/");
    assert_eq!(cookie, "auth=authcookie_123");
    assert_eq!(token_value(&cookie), Some("authcookie_123".to_string()));
    assert_eq!(token_value("noequals"), None);
}

#[test]
fn second_factor_choice() {
    let v = |xs: &[&str]| xs.iter().map(|s| s.to_string()).collect::<Vec<_>>();
    assert_eq!(choose_factor(&v(&["totp", "otp"])), "totp");
    assert_eq!(choose_factor(&v(&["emailOtp"])), "emailotp");
    assert_eq!(choose_factor(&v(&["sms", "totp"])), "totp");
    assert_eq!(choose_factor(&v(&[])), "otp");
    assert_eq!(
        verify_url("totp"),
        "https://api.vrchat.cloud/api/1/auth/twofactorauth/totp/verify"
    );
    match required_auth("auth=x; Path=/", &v(&["emailOtp"])) {
        AuthResponse::RequiredAuth { token, auth_type } => {
            assert_eq!(token, "auth=x");
            assert_eq!(auth_type, "emailotp");
        }
        AuthResponse::Success => panic!("expected a second factor"),
    }
}

#[test]
fn config_and_token_state() {
    let c = Config::placeholder();
    assert_eq!(c.token, "default");
    assert!(!token_ready(&c.token));
    assert!(!token_ready(""));
    assert!(token_ready("authcookie_1"));
    let c = Config { token: "old".to_string(), alt_url: Some("wss://example.com".to_string()) };
    let d = c.with_token("new".to_string());
    assert_eq!(d.token, "new");
    assert_eq!(d.alt_url.as_deref(), Some("wss://example.com"));
    assert_eq!(authorization_state(""), None);
    assert_eq!(authorization_state("default"), Some(false));
    assert_eq!(authorization_state("tok"), Some(true));
}

#[test]
fn friends_endpoint_replies() {
    assert_eq!(friends_reply(false, true, 0), FriendsReply::NotLocal);
    assert_eq!(friends_reply(true, true, 0), FriendsReply::Users);
    assert_eq!(friends_reply(true, false, 50), FriendsReply::Wait);
    assert_eq!(friends_reply(true, false, 51), FriendsReply::Unauthorized);
}

#[test]
fn pipeline_addresses() {
    let c = Config { token: "tok".to_string(), alt_url: None };
    assert_eq!(pipeline_address(&c), "wss://pipeline.vrchat.cloud/?tok");
    let c = Config {
        token: "tok".to_string(),
        alt_url: Some("wss://relay.example.org:443/path".to_string()),
    };
    assert_eq!(pipeline_address(&c), "wss://relay.example.org/?tok");
    let c = Config { token: "tok".to_string(), alt_url: Some("/only/a/path".to_string()) };
    assert_eq!(pipeline_address(&c), "wss://pipeline.vrchat.cloud/?tok");
}

#[test]
fn frames_are_classified() {
    match classify(Incoming::Text(r#"{"err":"authToken not found"}"#.to_string())) {
        Flow::Stop(WsError::Token) => {}
        _ => panic!("expected a token error"),
    }
    match classify(Incoming::Text(r#"{"err":"other"}"#.to_string())) {
        Flow::Stop(WsError::Unknown(m)) => assert_eq!(m, r#"{"err":"other"}"#),
        _ => panic!("expected an unknown error"),
    }
    match classify(Incoming::Text(r#"{"type":"friend-add"}"#.to_string())) {
        Flow::Process(m) => assert_eq!(m, r#"{"type":"friend-add"}"#),
        _ => panic!("expected an event"),
    }
    assert!(matches!(classify(Incoming::Close), Flow::Stop(WsError::Disconnected)));
    assert!(matches!(classify(Incoming::ProtocolError), Flow::Stop(WsError::Disconnected)));
    assert!(matches!(classify(Incoming::IoError("e".to_string())), Flow::Stop(WsError::IoErr(_))));
    assert!(matches!(classify(Incoming::Other), Flow::Skip));
    assert!(matches!(connect_failure(true, "x".to_string()), WsError::IoErr(_)));
    assert!(matches!(connect_failure(false, "x".to_string()), WsError::Unknown(_)));
}

#[test]
fn event_types() {
    assert_eq!(event_kind("friend-online"), EventKind::FriendLocation);
    assert_eq!(event_kind("friend-location"), EventKind::FriendLocation);
    assert_eq!(event_kind("friend-active"), EventKind::FriendActive);
    assert_eq!(event_kind("friend-add"), EventKind::FriendAdd);
    assert_eq!(event_kind("friend-offline"), EventKind::FriendOffline);
    assert_eq!(event_kind("friend-delete"), EventKind::FriendDelete);
    assert_eq!(event_kind("user-location"), EventKind::UserLocation);
    assert_eq!(event_kind("notification-v2-update"), EventKind::Notification);
    assert_eq!(event_kind("friend-update"), EventKind::Unknown);
}

#[test]
fn reconnect_policy() {
    let mut r = Reconnect::new();
    assert_eq!(r.on_end(&WsError::IoErr("e".to_string())), Next::Reconnect);
    for _ in 2..20 {
        assert_eq!(r.on_end(&WsError::IoErr("e".to_string())), Next::ReconnectAfterPause);
    }
    assert_eq!(r.io_errors, 19);
    assert_eq!(r.on_end(&WsError::Disconnected), Next::Reconnect);
    assert_eq!(r.io_errors, 0);
    for _ in 1..20 {
        r.on_end(&WsError::IoErr("e".to_string()));
    }
    assert_eq!(r.on_end(&WsError::IoErr("e".to_string())), Next::Stop);
    let mut r = Reconnect::new();
    assert_eq!(r.on_end(&WsError::Token), Next::Stop);
    assert_eq!(r.on_end(&WsError::Unknown("x".to_string())), Next::Stop);
}

#[test]
fn notifications() {
    assert!(should_notify(None, ""));
    assert!(should_notify(Some("wrld_1:1"), "wrld_1:1"));
    assert!(!should_notify(Some("wrld_1:1"), "wrld_2:2"));
    assert!(!should_notify(Some(""), ""));
    let (title, content) = notification_text("Alice", JoinType::PlayerJoined);
    assert_eq!(title, "PlayerJoined");
    assert_eq!(content, "Alice has joined.");
    let (title, content) = notification_text("Bob", JoinType::PlayerJoining);
    assert_eq!(title, "PlayerJoining");
    assert_eq!(content, "Bob is joining.");
    let (_, content) = notification_text("Eve", JoinType::PlayerLeft);
    assert_eq!(content, "Eve has left.");
    assert_eq!(udp_port(None), 42069);
    assert_eq!(udp_port(Some(9000)), 9000);
    assert_eq!(udp_port(Some(1234)), 1234);
    assert_eq!(xsoverlay_ws_url(None), "ws://localhost:42070/?client=vrc-yutils");
    assert_eq!(xsoverlay_ws_url(Some(8080)), "ws://localhost:8080/?client=vrc-yutils");
    assert_eq!(after_send(true, false), SendStep::Done);
    assert_eq!(after_send(false, false), SendStep::Reconnect);
    assert_eq!(after_send(false, true), SendStep::Fail);
}

#[test]
fn start_up_helpers() {
    assert_eq!(make_location("wrld_1", "123~private"), Some("wrld_1:123~private".to_string()));
    assert_eq!(make_location("", "1"), None);
    assert_eq!(make_location("wrld_1", ""), None);
    assert_eq!(
        friends_url(true, 100),
        "https://api.vrchat.cloud/api/1/auth/user/friends?offline=true&n=50&offset=100"
    );
    assert_eq!(
        friends_url(false, 0),
        "https://api.vrchat.cloud/api/1/auth/user/friends?offline=false&n=50&offset=0"
    );
    assert_eq!(user_url("usr_1"), "https://api.vrchat.cloud/api/1/users/usr_1");
    let pager = FriendPager::new();
    assert_eq!(pager.offset, 0);
    assert!(pager.finish().is_empty());
}
