use base64::engine::general_purpose::URL_SAFE_NO_PAD;
use base64::Engine;
use codex_oauth::{
    authorize_url, build_openai_payload, CodexAccount, cancel_oauth_flow, code_exchange_request, complete_code_exchange,
    complete_refresh, decode_jwt_payload_text, decode_token_exp_ms, extract_chatgpt_account_id,
    generate_base64url_token, generate_code_challenge, get_callback_port, handle_callback_request,
    is_token_expired, is_token_expired_at, listener_should_stop, needs_refresh,
    parse_token_response, plan_refresh, plan_refresh_at, prepare_oauth_url, require_refresh_token, prepare_session, redirect_uri, refresh_request,
    route_callback, token_exchange_result, CallbackRoute, CodexTokens, OAuthError, ReplyPage,
    SessionStore,
};

fn jwt_with_payload(payload: &str) -> String {
    format!(
        "{}.{}.{}",
        URL_SAFE_NO_PAD.encode(b"{\"alg\":\"none\"}"),
        URL_SAFE_NO_PAD.encode(payload.as_bytes()),
        "sig"
    )
}

fn jwt_with_exp(exp: i64) -> String {
    jwt_with_payload(&format!("{{\"exp\":{}}}", exp))
}

#[test]
fn callback_port_is_fixed() {
    assert_eq!(get_callback_port(), 1455);
}

#[test]
fn tokens_are_url_safe_and_fresh() {
    let a = generate_base64url_token();
    let b = generate_base64url_token();
    assert_eq!(a.len(), 43);
    assert!(a.chars().all(|c| c.is_ascii_alphanumeric() || c == '-' || c == '_'));
    assert_ne!(a, b);
}

#[test]
fn code_challenge_matches_known_vector() {
    let challenge = generate_code_challenge("dBjftJeZ4CVP-mB92K27uhbUJU1p1r_wW1gFWFOEjXk");
    assert_eq!(challenge, "E9Melhoa2OwvFrEMTJguCHaoeK1t8URWbuGJSstw-cM");
}

#[test]
fn code_challenge_is_deterministic_and_distinguishes() {
    let v1 = generate_base64url_token();
    let v2 = generate_base64url_token();
    assert_eq!(generate_code_challenge(&v1), generate_code_challenge(&v1));
    assert_ne!(generate_code_challenge(&v1), generate_code_challenge(&v2));
    assert_ne!(generate_code_challenge(&v1), v1);
}

#[test]
fn expiry_respects_margin() {
    let now = 1_700_000_000;
    assert!(is_token_expired_at(&jwt_with_exp(now + 59), now));
    assert!(is_token_expired_at(&jwt_with_exp(now), now));
    assert!(!is_token_expired_at(&jwt_with_exp(now + 60), now));
    assert!(!is_token_expired_at(&jwt_with_exp(now + 61), now));
    assert!(!is_token_expired_at(&jwt_with_exp(now + 3600), now));
}

#[test]
fn expiry_fails_closed_on_malformed_tokens() {
    let now = 1_700_000_000;
    let good = jwt_with_exp(now + 3600);
    assert!(is_token_expired_at("only.two", now));
    assert!(is_token_expired_at(&format!("{}.extra", good), now));
    assert!(is_token_expired_at("", now));
    assert!(is_token_expired_at("a.!!!.c", now));
    assert!(is_token_expired_at(&format!("a.{}.c", URL_SAFE_NO_PAD.encode([0xffu8, 0xfe])), now));
    assert!(is_token_expired_at(&jwt_with_payload("not json"), now));
    assert!(is_token_expired_at(&jwt_with_payload("{\"iat\":1}"), now));
    assert!(is_token_expired_at(&jwt_with_payload("{\"exp\":\"soon\"}"), now));
}

#[test]
fn expiry_against_the_clock() {
    assert!(is_token_expired(&jwt_with_exp(1)));
    assert!(!is_token_expired(&jwt_with_exp(i64::MAX)));
    assert!(is_token_expired("garbage"));
}

#[test]
fn payload_text_is_decoded() {
    let token = jwt_with_payload("{\"exp\":5}");
    assert_eq!(decode_jwt_payload_text(&token).as_deref(), Some("{\"exp\":5}"));
    assert_eq!(decode_jwt_payload_text("a.b"), None);
}

#[test]
fn exp_in_milliseconds() {
    assert_eq!(decode_token_exp_ms(&jwt_with_exp(1_700_000_000)), Some(1_700_000_000_000));
    assert_eq!(decode_token_exp_ms(&jwt_with_exp(i64::MAX)), None);
    assert_eq!(decode_token_exp_ms("x.y"), None);
}

#[test]
fn account_id_prefers_chatgpt_account_id() {
    let both = jwt_with_payload(
        "{\"https://api.openai.com/auth\":{\"chatgpt_account_id\":\"acc-1\",\"account_id\":\"acc-2\"}}",
    );
    assert_eq!(extract_chatgpt_account_id(&both).as_deref(), Some("acc-1"));
    let fallback = jwt_with_payload("{\"https://api.openai.com/auth\":{\"account_id\":\"acc-2\"}}");
    assert_eq!(extract_chatgpt_account_id(&fallback).as_deref(), Some("acc-2"));
    let none = jwt_with_payload("{\"sub\":\"x\"}");
    assert_eq!(extract_chatgpt_account_id(&none), None);
}

#[test]
fn second_begin_replaces_first() {
    let mut store: SessionStore<u32> = SessionStore::new();
    store.begin("v1".to_string(), "s1".to_string(), 1455, 1);
    store.begin("v2".to_string(), "s2".to_string(), 1456, 2);
    let cur = store.current().unwrap();
    assert_eq!(cur.code_verifier, "v2");
    assert_eq!(cur.state, "s2");
    assert_eq!(cur.port, 1456);
    assert!(store.is_current_state("s2"));
    assert!(!store.is_current_state("s1"));
    assert_eq!(store.take_completion_sender(), Some(2));
}

#[test]
fn completion_sender_taken_once() {
    let mut store: SessionStore<u32> = SessionStore::new();
    assert_eq!(store.take_completion_sender(), None);
    store.begin("v".to_string(), "s".to_string(), 1455, 7);
    assert_eq!(store.take_completion_sender(), Some(7));
    assert_eq!(store.take_completion_sender(), None);
    assert!(store.is_active());
}

#[test]
fn cancel_idle_is_noop() {
    let mut store: SessionStore<u32> = SessionStore::new();
    assert_eq!(cancel_oauth_flow(&mut store), 1455);
    assert!(!store.is_active());
    assert!(store.current().is_none());
}

#[test]
fn cancel_active_wakes_its_port() {
    let mut store: SessionStore<u32> = SessionStore::new();
    store.begin("v".to_string(), "s".to_string(), 2000, 1);
    assert_eq!(cancel_oauth_flow(&mut store), 2000);
    assert!(!store.is_active());
    store.clear();
    assert!(!store.is_active());
}

#[test]
fn routes_requests() {
    match route_callback("/auth/callback?code=ABC123&state=S", "S") {
        CallbackRoute::Authorized { code } => assert_eq!(code, "ABC123"),
        other => panic!("unexpected {:?}", other),
    }
    assert!(matches!(
        route_callback("/auth/callback?code=ABC123&state=WRONG", "S"),
        CallbackRoute::StateMismatch
    ));
    assert!(matches!(route_callback("/cancel", "S"), CallbackRoute::Cancel));
    assert!(matches!(route_callback("/favicon.ico", "S"), CallbackRoute::NotFound));
    assert!(matches!(route_callback("/auth/callback", "S"), CallbackRoute::StateMismatch));
    match route_callback("/auth/callback", "") {
        CallbackRoute::Authorized { code } => assert_eq!(code, ""),
        other => panic!("unexpected {:?}", other),
    }
}

#[test]
fn query_parsing_details() {
    match route_callback("/auth/callback?state=S&code=a=b&code=LAST", "S") {
        CallbackRoute::Authorized { code } => assert_eq!(code, "LAST"),
        other => panic!("unexpected {:?}", other),
    }
    match route_callback("/auth/callback?code=a=b&state=S", "S") {
        CallbackRoute::Authorized { code } => assert_eq!(code, "a=b"),
        other => panic!("unexpected {:?}", other),
    }
    match route_callback("/auth/callback?code=X&state=S?tail", "S") {
        CallbackRoute::Authorized { code } => assert_eq!(code, "X"),
        other => panic!("unexpected {:?}", other),
    }
    match route_callback("/auth/callback?state=S&code", "S") {
        CallbackRoute::Authorized { code } => assert_eq!(code, ""),
        other => panic!("unexpected {:?}", other),
    }
}

#[test]
fn end_to_end_callback() {
    let mut store: SessionStore<u32> = SessionStore::new();
    let url = prepare_session(&mut store, "verifier".to_string(), "S".to_string(), 1455, 9);
    assert!(url.contains("state=S"));

    let wrong = handle_callback_request(&mut store, "/auth/callback?code=ABC123&state=WRONG", "S");
    assert_eq!(wrong.status, 400);
    assert_eq!(wrong.page, ReplyPage::StateMismatch);
    assert!(!wrong.stop);
    assert!(wrong.delivery.is_none());
    assert!(store.is_current_state("S"));

    let missing = handle_callback_request(&mut store, "/other", "S");
    assert_eq!(missing.status, 404);
    assert!(!missing.stop);

    let ok = handle_callback_request(&mut store, "/auth/callback?code=ABC123&state=S", "S");
    assert_eq!(ok.status, 200);
    assert_eq!(ok.page, ReplyPage::Success);
    assert!(ok.stop);
    let (tx, code) = ok.delivery.unwrap();
    assert_eq!(tx, 9);
    assert_eq!(code, "ABC123");
    assert!(store.is_active());
    assert_eq!(store.take_completion_sender(), None);
}

#[test]
fn cancel_request_clears_store() {
    let mut store: SessionStore<u32> = SessionStore::new();
    store.begin("v".to_string(), "S".to_string(), 1455, 1);
    let r = handle_callback_request(&mut store, "/cancel", "S");
    assert_eq!(r.status, 200);
    assert_eq!(r.page, ReplyPage::Cancelled);
    assert!(r.stop);
    assert!(!store.is_active());
}

#[test]
fn listener_stops_when_replaced_or_late() {
    let mut store: SessionStore<u32> = SessionStore::new();
    assert!(listener_should_stop(&store, "S", 0));
    store.begin("v".to_string(), "S".to_string(), 1455, 1);
    assert!(!listener_should_stop(&store, "S", 0));
    assert!(!listener_should_stop(&store, "S", 300_000));
    assert!(listener_should_stop(&store, "S", 300_001));
    store.begin("v".to_string(), "T".to_string(), 1455, 2);
    assert!(listener_should_stop(&store, "S", 0));
}

#[test]
fn redirect_uri_for_port() {
    assert_eq!(redirect_uri(1455), "http://localhost:1455/auth/callback");
    assert_eq!(redirect_uri(0), "http://localhost:0/auth/callback");
    assert_eq!(redirect_uri(65535), "http://localhost:65535/auth/callback");
}

#[test]
fn authorize_url_layout() {
    let url = authorize_url("http://localhost:1455/auth/callback", "CH", "ST");
    assert_eq!(
        url,
        "https://auth.openai.com/oauth/authorize?response_type=code&client_id=app_EMoamEEZ73f0CkXaXp7hrann&redirect_uri=http://localhost:1455/auth/callback&scope=openid%20profile%20email%20offline_access&code_challenge=CH&code_challenge_method=S256&id_token_add_organizations=true&codex_cli_simplified_flow=true&state=ST&originator=codex_vscode"
    );
}

#[test]
fn prepare_stores_the_session_of_the_url() {
    let mut store: SessionStore<u32> = SessionStore::new();
    let url = prepare_oauth_url(&mut store, 1455, 3);
    let cur = store.current().unwrap();
    assert!(url.contains(&format!("&state={}&", cur.state)));
    assert!(url.contains(&format!(
        "code_challenge={}&",
        generate_code_challenge(&cur.code_verifier)
    )));
    assert_eq!(cur.port, 1455);
}

#[test]
fn exchange_request_needs_a_session() {
    let store: SessionStore<u32> = SessionStore::new();
    assert!(matches!(code_exchange_request(&store, "c"), Err(OAuthError::NoActiveSession)));
}

#[test]
fn exchange_request_form() {
    let mut store: SessionStore<u32> = SessionStore::new();
    store.begin("ver".to_string(), "S".to_string(), 1455, 1);
    let req = code_exchange_request(&store, "ABC").unwrap();
    assert_eq!(req.url, "https://auth.openai.com/oauth/token");
    let form: Vec<(&str, &str)> = req.form.iter().map(|(a, b)| (a.as_str(), b.as_str())).collect();
    assert_eq!(
        form,
        vec![
            ("grant_type", "authorization_code"),
            ("code", "ABC"),
            ("redirect_uri", "http://localhost:1455/auth/callback"),
            ("client_id", "app_EMoamEEZ73f0CkXaXp7hrann"),
            ("code_verifier", "ver"),
        ]
    );
}

#[test]
fn refresh_request_form() {
    let req = refresh_request("rt");
    assert_eq!(req.url, "https://auth.openai.com/oauth/token");
    let form: Vec<(&str, &str)> = req.form.iter().map(|(a, b)| (a.as_str(), b.as_str())).collect();
    assert_eq!(
        form,
        vec![
            ("grant_type", "refresh_token"),
            ("refresh_token", "rt"),
            ("client_id", "app_EMoamEEZ73f0CkXaXp7hrann"),
        ]
    );
}

#[test]
fn exchange_without_refresh_token() {
    let t = token_exchange_result(200, "{\"id_token\":\"a\",\"access_token\":\"b\"}").unwrap();
    assert_eq!(t.id_token, "a");
    assert_eq!(t.access_token, "b");
    assert_eq!(t.refresh_token, None);
}

#[test]
fn refresh_carries_prior_token_forward() {
    let t = complete_refresh("old-rt", 200, "{\"id_token\":\"a\",\"access_token\":\"b\"}").unwrap();
    assert_eq!(t.id_token, "a");
    assert_eq!(t.access_token, "b");
    assert_eq!(t.refresh_token.as_deref(), Some("old-rt"));
    let n = complete_refresh(
        "old-rt",
        200,
        "{\"id_token\":\"a\",\"access_token\":\"b\",\"refresh_token\":\"new-rt\"}",
    )
    .unwrap();
    assert_eq!(n.refresh_token.as_deref(), Some("new-rt"));
}

#[test]
fn rejected_exchange_leaves_session() {
    let mut store: SessionStore<u32> = SessionStore::new();
    store.begin("v".to_string(), "S".to_string(), 1455, 1);
    let body = "{\"error\":\"invalid_grant\"}";
    match complete_code_exchange(&mut store, 401, body) {
        Err(OAuthError::ExchangeRejected { status, body: b }) => {
            assert_eq!(status, 401);
            assert_eq!(b, body);
        }
        other => panic!("unexpected {:?}", other),
    }
    assert!(store.is_current_state("S"));
    assert_eq!(store.take_completion_sender(), Some(1));
}

#[test]
fn successful_exchange_clears_session() {
    let mut store: SessionStore<u32> = SessionStore::new();
    store.begin("v".to_string(), "S".to_string(), 1455, 1);
    let t = complete_code_exchange(
        &mut store,
        200,
        "{\"id_token\":\"i\",\"access_token\":\"a\",\"refresh_token\":\"r\"}",
    )
    .unwrap();
    assert_eq!(t.refresh_token.as_deref(), Some("r"));
    assert!(!store.is_active());
}

#[test]
fn malformed_responses() {
    assert!(matches!(
        parse_token_response("{\"access_token\":\"b\"}"),
        Err(OAuthError::MalformedTokenResponse)
    ));
    assert!(matches!(
        parse_token_response("{\"id_token\":\"a\"}"),
        Err(OAuthError::MalformedTokenResponse)
    ));
    assert!(matches!(
        token_exchange_result(200, "not json"),
        Err(OAuthError::MalformedTokenResponse)
    ));
    assert!(matches!(
        complete_refresh("rt", 500, "oops"),
        Err(OAuthError::ExchangeRejected { status: 500, .. })
    ));
    assert!(matches!(
        token_exchange_result(199, "{}"),
        Err(OAuthError::ExchangeRejected { status: 199, .. })
    ));
    assert!(token_exchange_result(299, "{\"id_token\":\"a\",\"access_token\":\"b\"}").is_ok());
}

#[test]
fn refresh_needed_only_near_expiry() {
    let now = 1_700_000_000;
    let fresh = CodexTokens {
        id_token: "i".to_string(),
        access_token: jwt_with_exp(now + 3600),
        refresh_token: Some("r".to_string()),
    };
    let stale = CodexTokens { access_token: jwt_with_exp(now + 10), ..fresh.clone() };
    assert!(!needs_refresh(&fresh, now));
    assert!(needs_refresh(&stale, now));
}

#[test]
fn opencode_entry_from_account() {
    let access = jwt_with_payload(
        "{\"exp\":1700000000,\"https://api.openai.com/auth\":{\"chatgpt_account_id\":\"acc-1\"}}",
    );
    let tokens = CodexTokens {
        id_token: "i".to_string(),
        access_token: access.clone(),
        refresh_token: Some("r".to_string()),
    };
    let from_token = build_openai_payload(&CodexAccount { account_id: None, tokens: tokens.clone() });
    assert_eq!(from_token.access, access);
    assert_eq!(from_token.refresh.as_deref(), Some("r"));
    assert_eq!(from_token.expires, Some(1_700_000_000_000));
    assert_eq!(from_token.account_id.as_deref(), Some("acc-1"));
    let own = build_openai_payload(&CodexAccount {
        account_id: Some("mine".to_string()),
        tokens: CodexTokens { refresh_token: None, access_token: "opaque".to_string(), ..tokens },
    });
    assert_eq!(own.account_id.as_deref(), Some("mine"));
    assert_eq!(own.refresh, None);
    assert_eq!(own.expires, None);
}

#[test]
fn missing_refresh_token_is_reported() {
    let with = CodexTokens {
        id_token: "i".to_string(),
        access_token: "a".to_string(),
        refresh_token: Some("r".to_string()),
    };
    assert_eq!(require_refresh_token(&with).unwrap(), "r");
    let without = CodexTokens { refresh_token: None, ..with };
    assert!(matches!(require_refresh_token(&without), Err(OAuthError::MissingRefreshToken)));
}

#[test]
fn refresh_plan() {
    let now = 1_700_000_000;
    let fresh = CodexTokens {
        id_token: "i".to_string(),
        access_token: jwt_with_exp(now + 3600),
        refresh_token: Some("r".to_string()),
    };
    assert!(matches!(plan_refresh_at(&fresh, now), Ok(None)));
    let stale = CodexTokens { access_token: jwt_with_exp(now), ..fresh.clone() };
    let req = plan_refresh_at(&stale, now).unwrap().unwrap();
    assert_eq!(req.form[1], ("refresh_token".to_string(), "r".to_string()));
    let stuck = CodexTokens { refresh_token: None, ..stale.clone() };
    assert!(matches!(plan_refresh_at(&stuck, now), Err(OAuthError::MissingRefreshToken)));
    assert!(matches!(plan_refresh(&stale), Ok(Some(_))));
    let later = CodexTokens { access_token: jwt_with_exp(i64::MAX), ..fresh };
    assert!(matches!(plan_refresh(&later), Ok(None)));
}
