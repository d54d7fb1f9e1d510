use oauth_login::flow::{
    after_exchange, begin_callback, build_authorize_url, complete_callback, initiate, Body,
    CallbackResponse, CallbackStep, ExchangeStep, LoginResponse, Params, ProviderError, UserInfo,
};
use oauth_login::store::UserStore;
use oauth_login::token::validate_state;

fn login_token(store: &mut UserStore, id: i32, name: &str) -> String {
    match complete_callback(store, Ok(UserInfo { id, name: name.to_string() })) {
        CallbackResponse::RedirectWithSession { token } => token,
        CallbackResponse::LoginFailedPage => panic!("the profile was fetched"),
    }
}

fn params(code: &str, state: &str) -> Params {
    Params { code: code.to_string(), state: state.to_string() }
}

#[test]
fn session_cookie_short_circuits_login() {
    let cookie = "existing-session".to_string();
    let r = initiate(
        Some(&cookie),
        &"cid".to_string(),
        &"https".to_string(),
        &"example.com".to_string(),
    );
    match r {
        LoginResponse::SessionPage { token } => assert_eq!(token, "existing-session"),
        LoginResponse::LoginPage { .. } => panic!("a held session must not restart the flow"),
    }
}

#[test]
fn empty_session_cookie_starts_the_flow() {
    let cookie = String::new();
    let r = initiate(
        Some(&cookie),
        &"cid".to_string(),
        &"https".to_string(),
        &"example.com".to_string(),
    );
    assert!(matches!(r, LoginResponse::LoginPage { .. }));
}

#[test]
fn initiate_binds_state_to_authorization_url() {
    let r = initiate(None, &"cid".to_string(), &"http".to_string(), &"localhost:8080".to_string());
    match r {
        LoginResponse::LoginPage { login_url, state_cookie } => {
            assert_eq!(state_cookie.len(), 36);
            let expected = format!(
                "https://github.com/login/oauth/authorize?client_id=cid&redirect_uri=http://localhost:8080/login/github/callback&state={}",
                state_cookie
            );
            assert_eq!(login_url, expected);
        },
        LoginResponse::SessionPage { .. } => panic!("no session cookie was presented"),
    }
}

#[test]
fn authorize_url_is_built_exactly() {
    let url = build_authorize_url(
        &"id1".to_string(),
        &"https".to_string(),
        &"host.example".to_string(),
        &"st".to_string(),
    );
    assert_eq!(
        url,
        "https://github.com/login/oauth/authorize?client_id=id1&redirect_uri=https://host.example/login/github/callback&state=st"
    );
}

#[test]
fn matching_state_releases_the_code() {
    let p = params("abc", "s1");
    let cookie = "s1".to_string();
    match begin_callback(&p, Some(&cookie)) {
        CallbackStep::Exchange { code } => assert_eq!(code, "abc"),
        CallbackStep::RejectState => panic!("matching state must pass the guard"),
    }
}

#[test]
fn mismatched_state_is_rejected() {
    let p = params("abc", "s1");
    let cookie = "s2".to_string();
    assert!(matches!(begin_callback(&p, Some(&cookie)), CallbackStep::RejectState));
}

#[test]
fn missing_state_cookie_is_rejected() {
    let p = params("abc", "s1");
    assert!(matches!(begin_callback(&p, None), CallbackStep::RejectState));
}

#[test]
fn validate_state_compares_exactly() {
    let s1 = "s1".to_string();
    let s1b = "s1".to_string();
    let s2 = "s2".to_string();
    assert!(validate_state(Some(&s1), &s1b));
    assert!(!validate_state(Some(&s2), &s1));
    assert!(!validate_state(None, &s1));
}

#[test]
fn exchange_success_releases_access_token() {
    let r = after_exchange(Ok(Body { access_token: "tok1".to_string() }));
    match r {
        ExchangeStep::FetchProfile { access_token } => assert_eq!(access_token, "tok1"),
        ExchangeStep::RetryLoginPage => panic!("a token was returned"),
    }
}

#[test]
fn exchange_transport_failure_falls_back_to_login_page() {
    let r = after_exchange(Err(ProviderError::Transport));
    assert!(matches!(r, ExchangeStep::RetryLoginPage));
}

#[test]
fn exchange_malformed_body_falls_back_to_login_page() {
    let r = after_exchange(Err(ProviderError::Malformed));
    assert!(matches!(r, ExchangeStep::RetryLoginPage));
}

#[test]
fn profile_failure_renders_login_failed_page() {
    let mut store = UserStore::new();
    let r = complete_callback(&mut store, Err(ProviderError::Malformed));
    assert!(matches!(r, CallbackResponse::LoginFailedPage));
    assert_eq!(store.users.len(), 0);
}

#[test]
fn first_login_creates_user_and_issues_its_token() {
    let mut store = UserStore::new();
    let profile = UserInfo { id: 42, name: "alice".to_string() };
    let r = complete_callback(&mut store, Ok(profile));
    let token = match r {
        CallbackResponse::RedirectWithSession { token } => token,
        CallbackResponse::LoginFailedPage => panic!("the profile was fetched"),
    };
    assert_eq!(store.users.len(), 1);
    assert_eq!(store.users[0].user_id, "42");
    assert_eq!(store.users[0].platform, "github");
    assert_eq!(store.users[0].name, "alice");
    assert_eq!(store.users[0].token, token);
    assert_eq!(token.len(), 36);
}

#[test]
fn second_login_reuses_the_stored_token() {
    let mut store = UserStore::new();
    let first = match complete_callback(&mut store, Ok(UserInfo { id: 42, name: "alice".to_string() }))
    {
        CallbackResponse::RedirectWithSession { token } => token,
        CallbackResponse::LoginFailedPage => panic!("the profile was fetched"),
    };
    let second = match complete_callback(
        &mut store,
        Ok(UserInfo { id: 42, name: "alice".to_string() }),
    ) {
        CallbackResponse::RedirectWithSession { token } => token,
        CallbackResponse::LoginFailedPage => panic!("the profile was fetched"),
    };
    assert_eq!(first, second);
    assert_eq!(store.users.len(), 1);
}

#[test]
fn full_callback_scenario_for_a_new_user() {
    let mut store = UserStore::new();
    let p = params("abc", "s1");
    let cookie = "s1".to_string();

    let code = match begin_callback(&p, Some(&cookie)) {
        CallbackStep::Exchange { code } => code,
        CallbackStep::RejectState => panic!("state matches"),
    };
    assert_eq!(code, "abc");

    let access_token = match after_exchange(Ok(Body { access_token: "tok1".to_string() })) {
        ExchangeStep::FetchProfile { access_token } => access_token,
        ExchangeStep::RetryLoginPage => panic!("the exchange succeeded"),
    };
    assert_eq!(access_token, "tok1");

    let r = complete_callback(&mut store, Ok(UserInfo { id: 42, name: "alice".to_string() }));
    let token = match r {
        CallbackResponse::RedirectWithSession { token } => token,
        CallbackResponse::LoginFailedPage => panic!("the profile was fetched"),
    };
    assert_eq!(store.users.len(), 1);
    assert_eq!(store.users[0].user_id, "42");
    assert_eq!(store.users[0].platform, "github");
    assert_eq!(store.users[0].name, "alice");
    assert_eq!(token, store.users[0].token);
    assert_eq!(token.len(), 36);
}

#[test]
fn absent_state_scenario_makes_no_outbound_call() {
    let p = params("abc", "s1");
    let step = begin_callback(&p, None);
    assert!(matches!(step, CallbackStep::RejectState));
}

#[test]
fn provider_ids_are_stored_in_decimal() {
    let mut store = UserStore::new();
    login_token(&mut store, 0, "zero");
    login_token(&mut store, 42, "alice");
    login_token(&mut store, -7, "neg");
    login_token(&mut store, 2147483647, "max");
    login_token(&mut store, -2147483648, "min");
    let ids: Vec<&str> = store.users.iter().map(|u| u.user_id.as_str()).collect();
    assert_eq!(ids, vec!["0", "42", "-7", "2147483647", "-2147483648"]);
}

#[test]
fn issued_tokens_are_fresh_uuids() {
    let mut store = UserStore::new();
    let t = login_token(&mut store, 1, "a");
    let u = login_token(&mut store, 2, "b");
    assert_eq!(t.len(), 36);
    assert_eq!(u.len(), 36);
    assert_ne!(t, u);
}
