use moonenv::api_util::{
    build_browser_address, build_code_uri, build_poll_uri, build_refresh_uri, is_success,
    treat_api_err, ApiResponse,
};
use moonenv::auth_handler::{
    fetch_login_result, get_access_token, get_expires_at, login_handler, refresh_token,
    DeviceAuthFlow, LoginAction, LoginEvent, LoginState, OAuthRefreshTokenResult,
    OAuthSetOfTokenResult, OAuthTokenResult, PollOutcome, TokenPlan, POLL_INTERVAL_MILLIS,
};
use moonenv::cli_struct::OrgActionAuthArgs;
use moonenv::clock::Timestamp;
use moonenv::error::MoonenvError;
use moonenv::moonenv_config::{IndividualConfig, MoonenvConfig};

const GRANT: &str = "urn:ietf:params:oauth:grant-type:device_code";

fn configured_store() -> MoonenvConfig {
    let mut store = MoonenvConfig::default();
    store.change_config(IndividualConfig {
        url: Some("https://api.acme.test".to_string()),
        org: "acme".to_string(),
        device_code: None,
        access_token: None,
        access_token_expires_at: None,
        refresh_token: None,
        client_id: Some("client-9".to_string()),
    });
    store
}

fn logged_in_store(expires_at: Option<Timestamp>) -> MoonenvConfig {
    let mut store = MoonenvConfig::default();
    store.change_config(IndividualConfig {
        url: Some("https://api.acme.test".to_string()),
        org: "acme".to_string(),
        device_code: Some("dev-1".to_string()),
        access_token: Some("old-token".to_string()),
        access_token_expires_at: expires_at,
        refresh_token: Some("refresh-1".to_string()),
        client_id: Some("client-9".to_string()),
    });
    store
}

fn http<T>(status: u16, text: &str, payload: Result<T, String>) -> ApiResponse<T> {
    ApiResponse::Http { status, text: text.to_string(), payload }
}

fn no_tokens() -> Result<OAuthTokenResult, String> {
    Err("missing field `idToken`".to_string())
}

fn tokens(id: &str, refresh: &str, expires_in: u16) -> OAuthTokenResult {
    OAuthTokenResult {
        id_token: id.to_string(),
        refresh_token: refresh.to_string(),
        expires_in,
    }
}

fn codes() -> OAuthSetOfTokenResult {
    OAuthSetOfTokenResult {
        authorization_uri: "login.acme.test/device?code=ABCD".to_string(),
        device_code: "dev-42".to_string(),
    }
}

fn start(store: &MoonenvConfig, org: Option<&str>) -> Result<DeviceAuthFlow, MoonenvError> {
    login_handler(store, OrgActionAuthArgs { org: org.map(|o| o.to_string()) })
}

fn polling_flow(store: &mut MoonenvConfig) -> DeviceAuthFlow {
    let now = Timestamp::new(1_000, 0);
    let flow = start(store, Some("acme")).unwrap();
    let flow = flow.advance(LoginEvent::CodeResponse(http(200, "{}", Ok(codes()))), store, now);
    flow.advance(LoginEvent::BrowserResult(Ok(())), store, now)
}

#[test]
fn status_classes() {
    assert!(is_success(200));
    assert!(is_success(202));
    assert!(is_success(299));
    assert!(!is_success(199));
    assert!(!is_success(300));
    assert!(!is_success(410));
    assert!(!is_success(0));
    assert!(!is_success(u16::MAX));
}

#[test]
fn uris_are_spelled_out() {
    assert_eq!(build_code_uri("https://h", "cid"), "https://h/auth/token?client_id=cid");
    assert_eq!(
        build_poll_uri("https://h", "cid", "dc"),
        format!("https://h/auth/token?client_id=cid&device_code=dc&grant_type={}", GRANT)
    );
    assert_eq!(
        build_refresh_uri("https://h", "dc"),
        "https://h/auth/refresh-token?device_code=dc"
    );
    assert_eq!(build_browser_address("acme.test/go"), "https://acme.test/go");
    assert_eq!(build_code_uri("", ""), "/auth/token?client_id=");
}

#[test]
fn treat_api_err_tells_replies_apart() {
    assert_eq!(treat_api_err(http(200, "body", Ok(7u8))), Ok(7u8));
    assert_eq!(treat_api_err(http(204, "body", Ok(8u8))), Ok(8u8));
    assert_eq!(
        treat_api_err(http(404, "not here", Ok(7u8))),
        Err(MoonenvError::Request { status: 404, text: "not here".to_string() })
    );
    assert_eq!(
        treat_api_err(http::<u8>(500, "boom", Err("eof".to_string()))),
        Err(MoonenvError::Request { status: 500, text: "boom".to_string() })
    );
    assert_eq!(
        treat_api_err(http::<u8>(302, "moved", Err("eof".to_string()))),
        Err(MoonenvError::Request { status: 302, text: "moved".to_string() })
    );
    assert_eq!(
        treat_api_err(http::<u8>(200, "{", Err("eof".to_string()))),
        Err(MoonenvError::Transport { reason: "eof".to_string() })
    );
    assert_eq!(
        treat_api_err::<u8>(ApiResponse::Transport { reason: "refused".to_string() }),
        Err(MoonenvError::Transport { reason: "refused".to_string() })
    );
}

#[test]
fn one_poll_is_read_by_status_and_body() {
    assert_eq!(
        fetch_login_result(http(200, "", Ok(tokens("a", "b", 1)))),
        PollOutcome::Granted(tokens("a", "b", 1))
    );
    assert_eq!(
        fetch_login_result(http(201, "", Ok(tokens("a", "b", 1)))),
        PollOutcome::Granted(tokens("a", "b", 1))
    );
    assert_eq!(fetch_login_result(http(202, "", Ok(tokens("a", "b", 1)))), PollOutcome::Pending);
    assert_eq!(fetch_login_result(http(202, "", no_tokens())), PollOutcome::Pending);
    assert_eq!(fetch_login_result(http(410, "", no_tokens())), PollOutcome::Expired);
    assert_eq!(fetch_login_result(http(410, "", Ok(tokens("a", "b", 1)))), PollOutcome::Expired);
    assert_eq!(fetch_login_result(http(400, "", no_tokens())), PollOutcome::Pending);
    assert_eq!(fetch_login_result(http(500, "", no_tokens())), PollOutcome::Pending);
    assert_eq!(fetch_login_result(http(302, "", no_tokens())), PollOutcome::Pending);
    assert_eq!(
        fetch_login_result(http(200, "", Err("bad json".to_string()))),
        PollOutcome::Failed(MoonenvError::Transport { reason: "bad json".to_string() })
    );
    assert_eq!(
        fetch_login_result(ApiResponse::Transport { reason: "reset".to_string() }),
        PollOutcome::Failed(MoonenvError::Transport { reason: "reset".to_string() })
    );
}

#[test]
fn login_starts_with_the_request_for_a_code() {
    let store = configured_store();
    let flow = start(&store, Some("acme")).unwrap();
    assert_eq!(flow.org, "acme");
    assert_eq!(flow.url, "https://api.acme.test");
    assert_eq!(flow.client_id, "client-9");
    assert_eq!(flow.state, LoginState::Init);
    assert!(!flow.is_finished());
    assert_eq!(
        flow.next_action(),
        LoginAction::RequestCode {
            uri: "https://api.acme.test/auth/token?client_id=client-9".to_string()
        }
    );
    assert_eq!(flow.into_result(), None);
}

#[test]
fn login_uses_the_default_org_when_none_is_named() {
    let mut store = configured_store();
    store.set_config_name_as_default("acme".to_string());
    let flow = start(&store, None).unwrap();
    assert_eq!(flow.org, "acme");
}

#[test]
fn login_cannot_start_without_org_profile_url_or_client_id() {
    let bare = MoonenvConfig::new(None, Vec::new());
    assert_eq!(start(&bare, None), Err(MoonenvError::MissingOrg));
    let store = configured_store();
    assert_eq!(start(&store, Some("nobody")), Err(MoonenvError::ProfileNotFound));
    assert_eq!(start(&store, None), Err(MoonenvError::ClientIdNotConfigured));
    let mut store = MoonenvConfig::default();
    store.change_config(IndividualConfig {
        url: None,
        org: "acme".to_string(),
        device_code: None,
        access_token: None,
        access_token_expires_at: None,
        refresh_token: None,
        client_id: None,
    });
    assert_eq!(start(&store, Some("acme")), Err(MoonenvError::UrlNotConfigured));
}

#[test]
fn a_refused_code_request_fails_the_login_with_status_and_body() {
    let mut store = configured_store();
    let before = store.clone();
    let flow = start(&store, Some("acme")).unwrap();
    let flow = flow.advance(
        LoginEvent::CodeResponse(http(401, "unknown client", Err("eof".to_string()))),
        &mut store,
        Timestamp::new(5, 0),
    );
    assert!(flow.is_finished());
    assert_eq!(flow.next_action(), LoginAction::Stop);
    assert_eq!(store, before);
    assert_eq!(
        flow.into_result(),
        Some(Err(MoonenvError::Request { status: 401, text: "unknown client".to_string() }))
    );
}

#[test]
fn a_code_request_that_does_not_complete_fails_the_login() {
    let mut store = configured_store();
    let flow = start(&store, Some("acme")).unwrap();
    let flow = flow.advance(
        LoginEvent::CodeResponse(ApiResponse::Transport { reason: "no route".to_string() }),
        &mut store,
        Timestamp::new(5, 0),
    );
    assert_eq!(
        flow.into_result(),
        Some(Err(MoonenvError::Transport { reason: "no route".to_string() }))
    );
}

#[test]
fn an_issued_code_opens_the_browser() {
    let mut store = configured_store();
    let flow = start(&store, Some("acme")).unwrap();
    let flow = flow.advance(
        LoginEvent::CodeResponse(http(200, "{}", Ok(codes()))),
        &mut store,
        Timestamp::new(5, 0),
    );
    assert_eq!(
        flow.state,
        LoginState::CodeIssued {
            authorization_uri: "login.acme.test/device?code=ABCD".to_string(),
            device_code: "dev-42".to_string(),
        }
    );
    assert_eq!(
        flow.next_action(),
        LoginAction::OpenBrowser { address: "https://login.acme.test/device?code=ABCD".to_string() }
    );
}

#[test]
fn a_browser_that_does_not_open_is_reported_and_polling_goes_on() {
    let mut store = configured_store();
    let now = Timestamp::new(5, 0);
    let flow = start(&store, Some("acme")).unwrap();
    let flow = flow.advance(LoginEvent::CodeResponse(http(200, "{}", Ok(codes()))), &mut store, now);
    let flow = flow.advance(LoginEvent::BrowserResult(Err("no display".to_string())), &mut store, now);
    assert!(!flow.is_finished());
    let uri = format!(
        "https://api.acme.test/auth/token?client_id=client-9&device_code=dev-42&grant_type={}",
        GRANT
    );
    assert_eq!(
        flow.next_action(),
        LoginAction::Poll {
            wait_millis: 3100,
            uri: uri.clone(),
            notice: Some("no display".to_string())
        }
    );
    let flow = flow.advance(LoginEvent::PollResponse(http(202, "", no_tokens())), &mut store, now);
    assert_eq!(flow.next_action(), LoginAction::Poll { wait_millis: 3100, uri, notice: None });
}

#[test]
fn polling_202_202_200_authenticates_with_the_third_reply() {
    let mut store = configured_store();
    let mut flow = polling_flow(&mut store);
    let replies = vec![
        http(202, "", no_tokens()),
        http(202, "", no_tokens()),
        http(200, "", Ok(tokens("id-3", "refresh-3", 3600))),
    ];
    let now = Timestamp::new(1_700_000_000, 42);
    let mut requests = 0;
    let mut waited = 0;
    for reply in replies {
        match flow.next_action() {
            LoginAction::Poll { wait_millis, uri, notice } => {
                assert_eq!(wait_millis, POLL_INTERVAL_MILLIS);
                assert_eq!(wait_millis, 3100);
                assert_eq!(
                    uri,
                    format!(
                        "https://api.acme.test/auth/token?client_id=client-9&device_code=dev-42&grant_type={}",
                        GRANT
                    )
                );
                assert_eq!(notice, None);
                requests += 1;
                waited += wait_millis;
            }
            other => panic!("expected a poll, got {:?}", other),
        }
        flow = flow.advance(LoginEvent::PollResponse(reply), &mut store, now);
    }
    assert_eq!(requests, 3);
    assert_eq!(waited, 9300);
    assert_eq!(flow.state, LoginState::Authenticated);
    assert!(flow.is_finished());
    assert_eq!(flow.next_action(), LoginAction::Persist);
    assert_eq!(flow.into_result(), Some(Ok(())));
    assert_eq!(
        store.get_config("acme"),
        Ok(IndividualConfig {
            url: Some("https://api.acme.test".to_string()),
            org: "acme".to_string(),
            device_code: Some("dev-42".to_string()),
            access_token: Some("id-3".to_string()),
            access_token_expires_at: Some(Timestamp::new(1_700_003_600, 42)),
            refresh_token: Some("refresh-3".to_string()),
            client_id: Some("client-9".to_string()),
        })
    );
    assert_eq!(store.profiles.len(), 2);
}

#[test]
fn polling_202_202_200_takes_the_token_of_the_third_reply_whatever_the_first_two_hold() {
    let mut store = configured_store();
    let mut flow = polling_flow(&mut store);
    let replies = vec![
        http(202, "", Ok(tokens("id-1", "refresh-1", 10))),
        http(202, "", Ok(tokens("id-2", "refresh-2", 20))),
        http(200, "", Ok(tokens("id-3", "refresh-3", 30))),
    ];
    let mut requests = 0;
    for reply in replies {
        assert!(matches!(flow.next_action(), LoginAction::Poll { wait_millis: 3100, .. }));
        requests += 1;
        flow = flow.advance(LoginEvent::PollResponse(reply), &mut store, Timestamp::new(50, 0));
    }
    assert_eq!(requests, 3);
    assert_eq!(flow.state, LoginState::Authenticated);
    let profile = store.get_config("acme").unwrap();
    assert_eq!(profile.access_token, Some("id-3".to_string()));
    assert_eq!(profile.refresh_token, Some("refresh-3".to_string()));
    assert_eq!(profile.access_token_expires_at, Some(Timestamp::new(80, 0)));
}

#[test]
fn login_by_a_default_that_names_no_profile_fails() {
    let mut store = configured_store();
    store.set_config_name_as_default("ghost".to_string());
    assert_eq!(start(&store, None), Err(MoonenvError::ProfileNotFound));
}

#[test]
fn polling_202_410_ends_with_session_expired() {
    let mut store = configured_store();
    let mut flow = polling_flow(&mut store);
    let before = store.clone();
    let replies = vec![http(202, "", no_tokens()), http(410, "gone", no_tokens())];
    let mut requests = 0;
    for reply in replies {
        assert!(matches!(flow.next_action(), LoginAction::Poll { .. }));
        requests += 1;
        flow = flow.advance(LoginEvent::PollResponse(reply), &mut store, Timestamp::new(9, 0));
    }
    assert_eq!(requests, 2);
    assert_eq!(flow.state, LoginState::Expired);
    assert_eq!(flow.next_action(), LoginAction::Stop);
    assert_eq!(flow.into_result(), Some(Err(MoonenvError::SessionExpired)));
    assert_eq!(store, before);
}

#[test]
fn errors_other_than_410_keep_the_login_polling() {
    let mut store = configured_store();
    let mut flow = polling_flow(&mut store);
    for status in [400u16, 401, 404, 429, 500, 503, 301, 100] {
        flow = flow.advance(
            LoginEvent::PollResponse(http(status, "later", no_tokens())),
            &mut store,
            Timestamp::new(9, 0),
        );
        assert!(matches!(flow.state, LoginState::Polling { .. }));
        assert!(matches!(flow.next_action(), LoginAction::Poll { wait_millis: 3100, .. }));
    }
}

#[test]
fn a_poll_that_does_not_complete_fails_the_login() {
    let mut store = configured_store();
    let flow = polling_flow(&mut store);
    let flow = flow.advance(
        LoginEvent::PollResponse(ApiResponse::Transport { reason: "reset by peer".to_string() }),
        &mut store,
        Timestamp::new(9, 0),
    );
    assert_eq!(
        flow.into_result(),
        Some(Err(MoonenvError::Transport { reason: "reset by peer".to_string() }))
    );
    let mut store = configured_store();
    let flow = polling_flow(&mut store);
    let flow = flow.advance(
        LoginEvent::PollResponse(http(200, "<html>", Err("expected value".to_string()))),
        &mut store,
        Timestamp::new(9, 0),
    );
    assert_eq!(
        flow.into_result(),
        Some(Err(MoonenvError::Transport { reason: "expected value".to_string() }))
    );
}

#[test]
fn a_grant_for_a_profile_that_is_gone_fails_the_login() {
    let mut store = configured_store();
    let flow = polling_flow(&mut store);
    let mut other = MoonenvConfig::default();
    let flow = flow.advance(
        LoginEvent::PollResponse(http(200, "", Ok(tokens("id", "re", 60)))),
        &mut other,
        Timestamp::new(9, 0),
    );
    assert_eq!(flow.into_result(), Some(Err(MoonenvError::ProfileNotFound)));
    assert_eq!(other, MoonenvConfig::default());
}

#[test]
fn events_out_of_turn_change_nothing() {
    let mut store = configured_store();
    let before = store.clone();
    let now = Timestamp::new(9, 0);
    let flow = start(&store, Some("acme")).unwrap();
    let flow = flow.advance(
        LoginEvent::PollResponse(http(200, "", Ok(tokens("id", "re", 60)))),
        &mut store,
        now,
    );
    assert_eq!(flow.state, LoginState::Init);
    let flow = flow.advance(LoginEvent::BrowserResult(Ok(())), &mut store, now);
    assert_eq!(flow.state, LoginState::Init);
    assert_eq!(store, before);
    let flow = polling_flow(&mut store);
    let flow = flow.advance(LoginEvent::PollResponse(http(410, "", no_tokens())), &mut store, now);
    let flow = flow.advance(
        LoginEvent::PollResponse(http(200, "", Ok(tokens("id", "re", 60)))),
        &mut store,
        now,
    );
    assert_eq!(flow.state, LoginState::Expired);
    assert_eq!(store, before);
}

#[test]
fn expires_at_is_now_plus_the_granted_life() {
    assert_eq!(get_expires_at(Timestamp::new(100, 7), 3600), Timestamp::new(3700, 7));
    assert_eq!(get_expires_at(Timestamp::new(100, 7), 0), Timestamp::new(100, 7));
    assert_eq!(
        get_expires_at(Timestamp::new(u64::MAX - 65_535, 1), u16::MAX),
        Timestamp::new(u64::MAX, 1)
    );
}

#[test]
fn an_unexpired_token_is_returned_without_a_refresh() {
    let store = logged_in_store(Some(Timestamp::new(2_000, 0)));
    assert_eq!(
        get_access_token(&store, "acme", Timestamp::new(1_999, 999_999_999)),
        Ok(TokenPlan::Cached { token: "old-token".to_string() })
    );
    assert_eq!(
        get_access_token(&store, "acme", Timestamp::new(2_000, 0)),
        Ok(TokenPlan::Cached { token: "old-token".to_string() })
    );
}

#[test]
fn an_expired_token_is_refreshed_once() {
    let mut store = logged_in_store(Some(Timestamp::new(2_000, 0)));
    let now = Timestamp::new(2_000, 1);
    let plan = get_access_token(&store, "acme", now);
    assert_eq!(
        plan,
        Ok(TokenPlan::Refresh {
            uri: "https://api.acme.test/auth/refresh-token?device_code=dev-1".to_string(),
            bearer: "refresh-1".to_string(),
        })
    );
    let reply = http(
        200,
        "{}",
        Ok(OAuthRefreshTokenResult { id_token: "new-token".to_string(), expires_in: 900 }),
    );
    assert_eq!(refresh_token(&mut store, "acme", reply, now), Ok("new-token".to_string()));
    let profile = store.get_config("acme").unwrap();
    assert_eq!(profile.access_token, Some("new-token".to_string()));
    assert_eq!(profile.access_token_expires_at, Some(Timestamp::new(2_900, 1)));
    assert_eq!(profile.refresh_token, Some("refresh-1".to_string()));
    assert_eq!(profile.device_code, Some("dev-1".to_string()));
    assert_eq!(store.profiles.len(), 2);
    assert_eq!(
        get_access_token(&store, "acme", now),
        Ok(TokenPlan::Cached { token: "new-token".to_string() })
    );
}

#[test]
fn a_token_without_expiry_or_no_token_at_all_is_refreshed() {
    let store = logged_in_store(None);
    assert!(matches!(
        get_access_token(&store, "acme", Timestamp::new(0, 0)),
        Ok(TokenPlan::Refresh { .. })
    ));
    let mut store = logged_in_store(Some(Timestamp::new(5_000, 0)));
    let mut profile = store.get_config("acme").unwrap();
    profile.access_token = None;
    store.change_config(profile);
    assert!(matches!(
        get_access_token(&store, "acme", Timestamp::new(0, 0)),
        Ok(TokenPlan::Refresh { .. })
    ));
}

#[test]
fn a_refresh_without_credentials_is_refused_before_any_request() {
    let mut store = logged_in_store(Some(Timestamp::new(10, 0)));
    let now = Timestamp::new(11, 0);
    let mut profile = store.get_config("acme").unwrap();
    profile.refresh_token = None;
    store.change_config(profile);
    assert_eq!(get_access_token(&store, "acme", now), Err(MoonenvError::MissingRefreshToken));

    let mut profile = store.get_config("acme").unwrap();
    profile.refresh_token = Some("refresh-1".to_string());
    profile.device_code = None;
    store.change_config(profile);
    assert_eq!(get_access_token(&store, "acme", now), Err(MoonenvError::MissingDeviceCode));

    let mut profile = store.get_config("acme").unwrap();
    profile.device_code = Some("dev-1".to_string());
    profile.url = None;
    store.change_config(profile);
    assert_eq!(get_access_token(&store, "acme", now), Err(MoonenvError::UrlNotConfigured));

    assert_eq!(get_access_token(&store, "nobody", now), Err(MoonenvError::ProfileNotFound));
    let seed = MoonenvConfig::default();
    assert_eq!(get_access_token(&seed, "moonenv", now), Err(MoonenvError::MissingRefreshToken));
}

#[test]
fn a_refused_refresh_leaves_the_store_alone() {
    let mut store = logged_in_store(Some(Timestamp::new(10, 0)));
    let before = store.clone();
    let now = Timestamp::new(11, 0);
    assert_eq!(
        refresh_token(&mut store, "acme", http(403, "revoked", Err("eof".to_string())), now),
        Err(MoonenvError::Request { status: 403, text: "revoked".to_string() })
    );
    assert_eq!(store, before);
    assert_eq!(
        refresh_token(
            &mut store,
            "acme",
            ApiResponse::Transport { reason: "timeout".to_string() },
            now
        ),
        Err(MoonenvError::Transport { reason: "timeout".to_string() })
    );
    assert_eq!(store, before);
    assert_eq!(
        refresh_token(
            &mut store,
            "nobody",
            http(200, "", Ok(OAuthRefreshTokenResult { id_token: "t".to_string(), expires_in: 1 })),
            now
        ),
        Err(MoonenvError::ProfileNotFound)
    );
    assert_eq!(store, before);
}

fn refresh_reply(id: &str, expires_in: u16) -> ApiResponse<OAuthRefreshTokenResult> {
    http(200, "{}", Ok(OAuthRefreshTokenResult { id_token: id.to_string(), expires_in }))
}

#[test]
fn a_refresh_without_refresh_token_is_refused_whatever_the_reply() {
    let mut store = logged_in_store(Some(Timestamp::new(10, 0)));
    let mut profile = store.get_config("acme").unwrap();
    profile.refresh_token = None;
    store.change_config(profile);
    let before = store.clone();
    let now = Timestamp::new(11, 0);
    assert_eq!(
        refresh_token(&mut store, "acme", refresh_reply("new-token", 900), now),
        Err(MoonenvError::MissingRefreshToken)
    );
    assert_eq!(store, before);
    assert_eq!(
        refresh_token(&mut store, "acme", http(500, "boom", Err("eof".to_string())), now),
        Err(MoonenvError::MissingRefreshToken)
    );
    assert_eq!(
        refresh_token(
            &mut store,
            "acme",
            ApiResponse::Transport { reason: "down".to_string() },
            now
        ),
        Err(MoonenvError::MissingRefreshToken)
    );
    assert_eq!(store, before);
    assert_eq!(
        MoonenvError::MissingRefreshToken.message(),
        "No refresh token found. Try to login first"
    );
}

#[test]
fn a_refresh_without_device_code_or_url_is_refused_in_that_order() {
    let now = Timestamp::new(11, 0);
    let mut store = logged_in_store(Some(Timestamp::new(10, 0)));
    let mut profile = store.get_config("acme").unwrap();
    profile.device_code = None;
    store.change_config(profile);
    let before = store.clone();
    assert_eq!(
        refresh_token(&mut store, "acme", refresh_reply("new-token", 900), now),
        Err(MoonenvError::MissingDeviceCode)
    );
    assert_eq!(store, before);

    let mut profile = store.get_config("acme").unwrap();
    profile.url = None;
    store.change_config(profile);
    let before = store.clone();
    assert_eq!(
        refresh_token(&mut store, "acme", refresh_reply("new-token", 900), now),
        Err(MoonenvError::MissingDeviceCode)
    );
    assert_eq!(store, before);

    let mut profile = store.get_config("acme").unwrap();
    profile.refresh_token = None;
    store.change_config(profile);
    assert_eq!(
        refresh_token(&mut store, "acme", refresh_reply("new-token", 900), now),
        Err(MoonenvError::MissingRefreshToken)
    );

    let mut profile = store.get_config("acme").unwrap();
    profile.refresh_token = Some("refresh-1".to_string());
    profile.device_code = Some("dev-1".to_string());
    store.change_config(profile);
    let before = store.clone();
    assert_eq!(
        refresh_token(&mut store, "acme", refresh_reply("new-token", 900), now),
        Err(MoonenvError::UrlNotConfigured)
    );
    assert_eq!(store, before);
}

#[test]
fn a_store_whose_only_profile_has_no_refresh_token_refuses_the_refresh() {
    let mut store = MoonenvConfig::new(
        Some("acme".to_string()),
        vec![IndividualConfig {
            url: Some("u".to_string()),
            org: "acme".to_string(),
            device_code: Some("dc".to_string()),
            access_token: Some("old".to_string()),
            access_token_expires_at: Some(Timestamp::new(500, 0)),
            refresh_token: None,
            client_id: Some("c".to_string()),
        }],
    );
    let before = store.clone();
    let now = Timestamp::new(501, 0);
    assert_eq!(get_access_token(&store, "acme", now), Err(MoonenvError::MissingRefreshToken));
    assert_eq!(
        refresh_token(&mut store, "acme", refresh_reply("t", 60), now),
        Err(MoonenvError::MissingRefreshToken)
    );
    assert_eq!(store, before);
    let profile = store.get_config("acme").unwrap();
    assert_eq!(profile.access_token, Some("old".to_string()));
    assert_eq!(profile.access_token_expires_at, Some(Timestamp::new(500, 0)));
}

#[test]
fn a_refresh_with_a_life_of_zero_expires_at_now() {
    let mut store = logged_in_store(Some(Timestamp::new(10, 0)));
    let now = Timestamp::new(11, 5);
    assert_eq!(
        refresh_token(&mut store, "acme", refresh_reply("t0", 0), now),
        Ok("t0".to_string())
    );
    assert_eq!(
        store.get_config("acme").unwrap().access_token_expires_at,
        Some(Timestamp::new(11, 5))
    );
    assert_eq!(
        get_access_token(&store, "acme", now),
        Ok(TokenPlan::Cached { token: "t0".to_string() })
    );
}
