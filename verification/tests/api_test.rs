use velmora_desktop::api::{
    accept_login, game_url, http_client, judge_login, judge_page, judge_pulse, judge_sso, judge_status,
    login_failure, login_request, logout_request, manifest_request, page_request,
    probe_request, pulse_request, sso_client, sso_request, status_request, ApiRequest,
    HttpStatus, LoginRequest, LoginResponse, LoginVerdict, Method, Page, PageVerdict,
};
use velmora_desktop::error::AppError;
use velmora_desktop::session::AuthState;
use velmora_desktop::store::Edit;

fn status(code: u16) -> HttpStatus {
    HttpStatus::from_u16(code).unwrap()
}

fn signed_in() -> AuthState {
    AuthState { token: Some("jeton".to_string()) }
}

#[test]
fn clients_present_themselves() {
    let client = http_client("1.2.3");
    assert_eq!(client.user_agent, "VelmoraDesktop/1.2.3");
    assert_eq!(client.timeout_secs, 20);
    let client = sso_client("1.2.3");
    assert_eq!(client.user_agent, "VelmoraDesktop/1.2.3");
    assert_eq!(client.timeout_secs, 10);
}

#[test]
fn the_address_of_the_game() {
    assert_eq!(game_url(), "https://velmora.cc");
}

#[test]
fn login_request_carries_the_credentials() {
    assert_eq!(
        login_request("roi@velmora.cc", "secret"),
        ApiRequest {
            method: Method::Post,
            url: "https://velmora.cc/api/mobile/login".to_string(),
            bearer: None,
            accept_json: true,
            since: None,
            body: Some(LoginRequest {
                email: "roi@velmora.cc".to_string(),
                password: "secret".to_string(),
                device_name: "Velmora Desktop".to_string(),
            }),
        }
    );
}

#[test]
fn player_requests_carry_the_token() {
    let request = page_request(Page::Me, Some("jeton".to_string())).unwrap();
    assert_eq!(request.url, "https://velmora.cc/api/mobile/me");
    assert_eq!(request.bearer, Some("jeton".to_string()));
    assert_eq!(request.method, Method::Get);
    assert!(request.accept_json);
    let url = |page| page_request(page, Some("j".to_string())).unwrap().url;
    assert_eq!(url(Page::Dashboard), "https://velmora.cc/api/mobile/dashboard");
    assert_eq!(url(Page::LauncherFeed), "https://velmora.cc/api/mobile/launcher-feed");
    assert_eq!(url(Page::News), "https://velmora.cc/api/mobile/news");
    let request = sso_request("jeton".to_string());
    assert_eq!(request.url, "https://velmora.cc/api/mobile/sso/launcher-ticket");
    assert_eq!(request.method, Method::Post);
    assert_eq!(request.bearer, Some("jeton".to_string()));
    let request = logout_request(Some("jeton".to_string())).unwrap();
    assert_eq!(request.url, "https://velmora.cc/api/mobile/logout");
    assert_eq!(request.method, Method::Post);
    assert_eq!(request.bearer, Some("jeton".to_string()));
}

#[test]
fn without_a_token_there_is_nothing_to_ask() {
    assert_eq!(page_request(Page::News, None), Err(AppError::Unauthenticated));
    assert_eq!(logout_request(None), None);
    assert_eq!(pulse_request(None, &Some("2026".to_string())), None);
}

#[test]
fn public_requests_carry_no_token() {
    let request = status_request();
    assert_eq!(request.url, "https://velmora.cc/api/mobile/status");
    assert_eq!(request.bearer, None);
    assert!(request.accept_json);
    let request = probe_request();
    assert_eq!(request.url, "https://velmora.cc/api/mobile/status");
    assert!(!request.accept_json);
    let request = manifest_request();
    assert_eq!(request.url, "https://velmora.cc/api/mobile/asset-manifest");
    assert!(!request.accept_json);
    assert_eq!(request.bearer, None);
}

#[test]
fn pulse_request_asks_from_the_cursor_on() {
    let since = Some("2026-06-01T12:00:00Z".to_string());
    let request = pulse_request(Some("j".to_string()), &since).unwrap();
    assert_eq!(request.url, "https://velmora.cc/api/mobile/launcher-pulse");
    assert_eq!(request.since, since);
    assert_eq!(pulse_request(Some("j".to_string()), &None).unwrap().since, None);
}

#[test]
fn status_codes_have_a_range() {
    assert!(HttpStatus::from_u16(99).is_none());
    assert!(HttpStatus::from_u16(1000).is_none());
    assert_eq!(status(100).as_u16(), 100);
    assert_eq!(status(999).as_u16(), 999);
    assert!(!status(199).is_success());
    assert!(status(200).is_success());
    assert!(status(299).is_success());
    assert!(!status(300).is_success());
}

#[test]
fn status_texts_name_code_and_reason() {
    assert_eq!(status(404).text(), "404 Not Found");
    assert_eq!(status(200).text(), "200 OK");
    assert_eq!(status(599).text(), "599 <unknown status code>");
}

#[test]
fn a_refused_token_is_cleared() {
    let mut state = signed_in();
    match judge_page(&mut state, status(401)) {
        PageVerdict::Reject { error, plan } => {
            assert_eq!(error, AppError::Unauthenticated);
            let plan = plan.unwrap();
            assert_eq!(plan.edits, vec![Edit::Delete { key: "auth_token".to_string() }]);
        }
        PageVerdict::Accept => panic!("accepted"),
    }
    assert!(!state.is_logged_in(None));
}

#[test]
fn other_page_failures_keep_the_token() {
    let mut state = signed_in();
    assert_eq!(
        judge_page(&mut state, status(500)),
        PageVerdict::Reject {
            error: AppError::Unexpected("HTTP 500 Internal Server Error".to_string()),
            plan: None,
        }
    );
    assert!(state.is_logged_in(None));
    assert_eq!(judge_page(&mut state, status(204)), PageVerdict::Accept);
    assert!(state.is_logged_in(None));
}

#[test]
fn verdicts_on_the_other_answers() {
    assert_eq!(judge_status(status(200)), Ok(()));
    assert_eq!(
        judge_status(status(503)),
        Err(AppError::Unexpected("HTTP 503 Service Unavailable".to_string()))
    );
    assert_eq!(judge_sso(status(201)), Ok(()));
    assert_eq!(judge_sso(status(401)), Err(AppError::Unauthenticated));
    assert_eq!(
        judge_sso(status(404)),
        Err(AppError::Unexpected("SSO ticket HTTP 404 Not Found".to_string()))
    );
    assert_eq!(judge_pulse(status(200)), Ok(()));
    assert_eq!(
        judge_pulse(status(401)),
        Err(AppError::Unexpected("pulse HTTP 401 Unauthorized".to_string()))
    );
}

#[test]
fn login_answers() {
    assert_eq!(judge_login(status(200)), LoginVerdict::Accept);
    assert_eq!(
        judge_login(status(401)),
        LoginVerdict::Refuse(AppError::InvalidCredentials)
    );
    assert_eq!(
        judge_login(status(422)),
        LoginVerdict::Refuse(AppError::InvalidCredentials)
    );
    assert_eq!(judge_login(status(500)), LoginVerdict::Explain);
    assert_eq!(
        login_failure(status(502), Some("panne".to_string())),
        AppError::Unexpected("HTTP 502 Bad Gateway — panne".to_string())
    );
    assert_eq!(
        login_failure(status(502), None),
        AppError::Unexpected("HTTP 502 Bad Gateway — ".to_string())
    );
}

#[test]
fn a_login_that_succeeds_takes_the_token() {
    let mut state = AuthState::default();
    let user = serde_json::from_str::<serde_json::Value>(r#"{"name": "Aldric"}"#).unwrap();
    let response = LoginResponse { token: "neuf".to_string(), user: user.clone() };
    let (plan, payload) = accept_login(&mut state, response);
    assert_eq!(state.token, Some("neuf".to_string()));
    assert!(plan.strict);
    assert_eq!(plan.edits.len(), 1);
    assert_eq!(payload.data, user);
}
