//! The requests sent to the game server and what is made of its answers.

use vstd::prelude::*;
use vstd::string::*;
use crate::error::{failure, AppError, ErrorView};
use crate::session::{drop_token, keep_token, AuthState};
use crate::store::StorePlan;
use crate::text::{concat2, decimal, opt_text};

verus! {

/// Root of the server's interface for native clients.
pub const API_BASE: &'static str = "https://velmora.cc/api/mobile";

/// Address of the game itself.
pub const GAME_URL: &'static str = "https://velmora.cc";

/// Name under which this client opens its session.
pub const DEVICE_NAME: &'static str = "Velmora Desktop";

/// Seconds after which an ordinary request is given up.
pub const REQUEST_TIMEOUT_SECS: u64 = 20;

/// Seconds after which the request of a sign-on ticket is given up.
pub const SSO_TIMEOUT_SECS: u64 = 10;

/// The address of the game.
pub fn game_url() -> (url: String)
    ensures
        url@ == GAME_URL@,
{
    GAME_URL.to_owned()
}

// ---- HTTP client ----

/// How an HTTP client presents itself and how long it waits.
#[derive(Debug, PartialEq, Eq)]
pub struct ClientProfile {
    pub user_agent: String,
    pub timeout_secs: u64,
}

/// The client of every request but that of a sign-on ticket.
pub fn http_client(version: &str) -> (profile: ClientProfile)
    ensures
        profile.user_agent@ == "VelmoraDesktop/"@ + version@,
        profile.timeout_secs == REQUEST_TIMEOUT_SECS,
{
    ClientProfile {
        user_agent: concat2("VelmoraDesktop/", version),
        timeout_secs: REQUEST_TIMEOUT_SECS,
    }
}

/// The client of the request of a sign-on ticket.
pub fn sso_client(version: &str) -> (profile: ClientProfile)
    ensures
        profile.user_agent@ == "VelmoraDesktop/"@ + version@,
        profile.timeout_secs == SSO_TIMEOUT_SECS,
{
    ClientProfile {
        user_agent: concat2("VelmoraDesktop/", version),
        timeout_secs: SSO_TIMEOUT_SECS,
    }
}

// ---- Requests ----

/// The two methods that the server is called with.
#[derive(Debug, PartialEq, Eq, Clone, Copy, Structural)]
pub enum Method {
    Get,
    Post,
}

/// The body of a login request.
#[derive(Debug, PartialEq, Eq)]
pub struct LoginRequest {
    pub email: String,
    pub password: String,
    pub device_name: String,
}

/// Mathematical model of [`LoginRequest`].
pub struct LoginView {
    pub email: Seq<char>,
    pub password: Seq<char>,
    pub device_name: Seq<char>,
}

impl View for LoginRequest {
    type V = LoginView;

    open spec fn view(&self) -> LoginView {
        LoginView {
            email: self.email@,
            password: self.password@,
            device_name: self.device_name@,
        }
    }
}

/// A request, complete but for the client that sends it.
#[derive(Debug, PartialEq, Eq)]
pub struct ApiRequest {
    pub method: Method,
    pub url: String,
    /// Token sent in the `Authorization` header.
    pub bearer: Option<String>,
    /// Whether `Accept: application/json` is sent.
    pub accept_json: bool,
    /// Value of the query parameter `since`.
    pub since: Option<String>,
    /// Body sent as JSON.
    pub body: Option<LoginRequest>,
}

/// Mathematical model of [`ApiRequest`].
pub struct RequestView {
    pub method: Method,
    pub url: Seq<char>,
    pub bearer: Option<Seq<char>>,
    pub accept_json: bool,
    pub since: Option<Seq<char>>,
    pub body: Option<LoginView>,
}

impl View for ApiRequest {
    type V = RequestView;

    open spec fn view(&self) -> RequestView {
        RequestView {
            method: self.method,
            url: self.url@,
            bearer: opt_text(self.bearer),
            accept_json: self.accept_json,
            since: opt_text(self.since),
            body: match self.body {
                Some(login) => Some(login@),
                None => None,
            },
        }
    }
}

/// The request of an authenticated player: the token is sent, and JSON is asked for.
pub open spec fn authorized(method: Method, path: Seq<char>, token: Seq<char>) -> RequestView {
    RequestView {
        method,
        url: API_BASE@ + path,
        bearer: Some(token),
        accept_json: true,
        since: None,
        body: None,
    }
}

/// The request of anyone.
pub open spec fn public(path: Seq<char>, accept_json: bool) -> RequestView {
    RequestView {
        method: Method::Get,
        url: API_BASE@ + path,
        bearer: None,
        accept_json,
        since: None,
        body: None,
    }
}

fn authorized_request(method: Method, path: &str, token: String) -> (request: ApiRequest)
    ensures
        request@ == authorized(method, path@, token@),
{
    ApiRequest {
        method,
        url: concat2(API_BASE, path),
        bearer: Some(token),
        accept_json: true,
        since: None,
        body: None,
    }
}

fn public_request(path: &str, accept_json: bool) -> (request: ApiRequest)
    ensures
        request@ == public(path@, accept_json),
{
    ApiRequest {
        method: Method::Get,
        url: concat2(API_BASE, path),
        bearer: None,
        accept_json,
        since: None,
        body: None,
    }
}

/// The login request: it carries the credentials, and no token.
pub open spec fn sign_in(email: Seq<char>, password: Seq<char>) -> RequestView {
    RequestView {
        method: Method::Post,
        url: API_BASE@ + "/login"@,
        bearer: None,
        accept_json: true,
        since: None,
        body: Some(LoginView { email, password, device_name: DEVICE_NAME@ }),
    }
}

/// The login request.
pub fn login_request(email: &str, password: &str) -> (request: ApiRequest)
    ensures
        request@ == sign_in(email@, password@),
{
    ApiRequest {
        method: Method::Post,
        url: concat2(API_BASE, "/login"),
        bearer: None,
        accept_json: true,
        since: None,
        body: Some(
            LoginRequest {
                email: email.to_owned(),
                password: password.to_owned(),
                device_name: DEVICE_NAME.to_owned(),
            },
        ),
    }
}

/// The logout request: none, where no token is in force.
pub fn logout_request(token: Option<String>) -> (request: Option<ApiRequest>)
    ensures
        match token {
            Some(t) => request matches Some(r) && r@ == authorized(
                Method::Post,
                "/logout"@,
                t@,
            ),
            None => request is None,
        },
{
    match token {
        Some(t) => Some(authorized_request(Method::Post, "/logout", t)),
        None => None,
    }
}

/// What an authenticated player reads from the server.
#[derive(Debug, PartialEq, Eq, Clone, Copy, Structural)]
pub enum Page {
    Me,
    Dashboard,
    LauncherFeed,
    News,
}

impl Page {
    /// Path of the page under [`API_BASE`].
    pub open spec fn path_view(self) -> Seq<char> {
        match self {
            Page::Me => "/me"@,
            Page::Dashboard => "/dashboard"@,
            Page::LauncherFeed => "/launcher-feed"@,
            Page::News => "/news"@,
        }
    }

    /// Path of the page under [`API_BASE`].
    pub fn path(self) -> (path: &'static str)
        ensures
            path@ == self.path_view(),
    {
        match self {
            Page::Me => "/me",
            Page::Dashboard => "/dashboard",
            Page::LauncherFeed => "/launcher-feed",
            Page::News => "/news",
        }
    }
}

/// The request of a page: an error, where no token is in force.
pub fn page_request(page: Page, token: Option<String>) -> (request: Result<ApiRequest, AppError>)
    ensures
        match token {
            Some(t) => request matches Ok(r) && r@ == authorized(
                Method::Get,
                page.path_view(),
                t@,
            ),
            None => failure(request) == Some(ErrorView::Unauthenticated),
        },
{
    match token {
        Some(t) => Ok(authorized_request(Method::Get, page.path(), t)),
        None => Err(AppError::Unauthenticated),
    }
}

/// The request of the server's state, as the interface shows it.
pub fn status_request() -> (request: ApiRequest)
    ensures
        request@ == public("/status"@, true),
{
    public_request("/status", true)
}

/// The request that only finds out whether the server can be reached.
pub fn probe_request() -> (request: ApiRequest)
    ensures
        request@ == public("/status"@, false),
{
    public_request("/status", false)
}

/// The request of the asset manifest.
pub fn manifest_request() -> (request: ApiRequest)
    ensures
        request@ == public("/asset-manifest"@, false),
{
    public_request("/asset-manifest", false)
}

/// The request of a file at an address of its own.
pub open spec fn plain_get(url: Seq<char>) -> RequestView {
    RequestView {
        method: Method::Get,
        url,
        bearer: None,
        accept_json: false,
        since: None,
        body: None,
    }
}

/// The request of a file at an address of its own.
pub fn file_request(url: &str) -> (request: ApiRequest)
    ensures
        request@ == plain_get(url@),
{
    ApiRequest {
        method: Method::Get,
        url: url.to_owned(),
        bearer: None,
        accept_json: false,
        since: None,
        body: None,
    }
}

/// The request of a sign-on ticket.
pub fn sso_request(token: String) -> (request: ApiRequest)
    ensures
        request@ == authorized(Method::Post, "/sso/launcher-ticket"@, token@),
{
    authorized_request(Method::Post, "/sso/launcher-ticket", token)
}

/// The request of the pulse: what happened after `since`, where that is known.
pub open spec fn pulse_view(token: Seq<char>, since: Option<Seq<char>>) -> RequestView {
    RequestView { since, ..authorized(Method::Get, "/launcher-pulse"@, token) }
}

/// The request of the pulse: none, where no token is in force.
pub fn pulse_request(token: Option<String>, since: &Option<String>) -> (request: Option<ApiRequest>)
    ensures
        match token {
            Some(t) => request matches Some(r) && r@ == pulse_view(t@, opt_text(*since)),
            None => request is None,
        },
{
    match token {
        Some(t) => {
            let mut request = authorized_request(Method::Get, "/launcher-pulse", t);
            match since {
                Some(s) => {
                    request.since = Some(s.clone());
                },
                None => {},
            }
            Some(request)
        },
        None => None,
    }
}

// ---- Statuses ----

/// The usual reason of a status code, as `reqwest::StatusCode::canonical_reason` knows it.
pub uninterp spec fn canonical_reason(code: u16) -> Option<Seq<char>>;

/// The text of a status: its code and its usual reason.
pub open spec fn status_text(code: u16) -> Seq<char> {
    decimal(code as nat) + " "@ + match canonical_reason(code) {
        Some(reason) => reason,
        None => "<unknown status code>"@,
    }
}

/// Calls `reqwest::StatusCode::from_u16` and renders the status by its `Display`: the code in
/// decimal, a space, and the canonical reason, or a fixed text where there is none. Outside
/// 100 to 999 there is no status to render.
#[verifier::external_body]
fn render_status(code: u16) -> (text: String)
    requires
        100 <= code < 1000,
    ensures
        text@ == decimal(code as nat) + " "@ + match canonical_reason(code) {
            Some(reason) => reason,
            None => "<unknown status code>"@,
        },
{
    reqwest::StatusCode::from_u16(code).unwrap().to_string()
}

/// An HTTP status code, from 100 to 999.
#[derive(Debug, PartialEq, Eq, Clone, Copy)]
pub struct HttpStatus {
    code: u16,
}

impl HttpStatus {
    #[verifier::type_invariant]
    spec fn in_range(self) -> bool {
        100 <= self.code < 1000
    }

    /// The status code.
    pub closed spec fn code_view(self) -> u16 {
        self.code
    }

    /// The status of a code, if it is one.
    pub fn from_u16(code: u16) -> (status: Option<HttpStatus>)
        ensures
            match status {
                Some(s) => 100 <= code < 1000 && s.code_view() == code,
                None => !(100 <= code < 1000),
            },
    {
        if 100 <= code && code < 1000 {
            Some(HttpStatus { code })
        } else {
            None
        }
    }

    /// The status code.
    pub fn as_u16(&self) -> (code: u16)
        ensures
            code == self.code_view(),
            100 <= code < 1000,
    {
        proof {
            use_type_invariant(*self);
        }
        self.code
    }

    /// Whether the request succeeded.
    pub fn is_success(&self) -> (success: bool)
        ensures
            success == succeeded(self.code_view()),
    {
        200 <= self.code && self.code < 300
    }

    /// The status as error messages show it.
    pub fn text(&self) -> (text: String)
        ensures
            text@ == status_text(self.code_view()),
    {
        proof {
            use_type_invariant(*self);
        }
        render_status(self.code)
    }
}

/// Whether a status code stands for success.
pub open spec fn succeeded(code: u16) -> bool {
    200 <= code < 300
}

/// The status code of a refused token, and of refused credentials.
pub const UNAUTHORIZED: u16 = 401;

/// The other status code of refused credentials.
pub const UNPROCESSABLE_ENTITY: u16 = 422;

// ---- Answers ----

/// What to make of the answer to a page request, going by its status.
#[derive(Debug, PartialEq)]
pub enum PageVerdict {
    /// Decode the body: it is the page.
    Accept,
    /// Report the error; where there is a plan, carry it out first.
    Reject { error: AppError, plan: Option<StorePlan> },
}

/// The error of a status that is no success.
pub open spec fn unexpected(prefix: Seq<char>, code: u16) -> ErrorView {
    ErrorView::Unexpected(prefix + status_text(code))
}

fn unexpected_status(prefix: &str, status: HttpStatus) -> (error: AppError)
    ensures
        error@ == unexpected(prefix@, status.code_view()),
{
    AppError::Unexpected(concat2(prefix, status.text().as_str()))
}

/// The verdict on the answer to a page request. A token that the server no longer accepts is
/// cleared, and the player must log in again.
pub fn judge_page(state: &mut AuthState, status: HttpStatus) -> (verdict: PageVerdict)
    ensures
        if status.code_view() == UNAUTHORIZED {
            &&& final(state)@ is None
            &&& verdict matches PageVerdict::Reject { error, plan: Some(plan) } && error@
                == ErrorView::Unauthenticated && plan@ == drop_token()
        } else if !succeeded(status.code_view()) {
            &&& final(state)@ == old(state)@
            &&& verdict matches PageVerdict::Reject { error, plan: None } && error@ == unexpected(
                "HTTP "@,
                status.code_view(),
            )
        } else {
            &&& final(state)@ == old(state)@
            &&& verdict is Accept
        },
{
    if status.as_u16() == UNAUTHORIZED {
        let plan = state.clear_token();
        PageVerdict::Reject { error: AppError::Unauthenticated, plan: Some(plan) }
    } else if !status.is_success() {
        PageVerdict::Reject { error: unexpected_status("HTTP ", status), plan: None }
    } else {
        PageVerdict::Accept
    }
}

/// The verdict on the server's account of its own state.
pub fn judge_status(status: HttpStatus) -> (result: Result<(), AppError>)
    ensures
        failure(result) == if succeeded(status.code_view()) {
            None
        } else {
            Some(unexpected("HTTP "@, status.code_view()))
        },
{
    if !status.is_success() {
        Err(unexpected_status("HTTP ", status))
    } else {
        Ok(())
    }
}

/// The verdict on the answer to the request of a sign-on ticket.
pub fn judge_sso(status: HttpStatus) -> (result: Result<(), AppError>)
    ensures
        failure(result) == if status.code_view() == UNAUTHORIZED {
            Some(ErrorView::Unauthenticated)
        } else if !succeeded(status.code_view()) {
            Some(unexpected("SSO ticket HTTP "@, status.code_view()))
        } else {
            None
        },
{
    if status.as_u16() == UNAUTHORIZED {
        Err(AppError::Unauthenticated)
    } else if !status.is_success() {
        Err(unexpected_status("SSO ticket HTTP ", status))
    } else {
        Ok(())
    }
}

/// The verdict on the answer to a pulse request. A refused token is no special case here.
pub fn judge_pulse(status: HttpStatus) -> (result: Result<(), AppError>)
    ensures
        failure(result) == if succeeded(status.code_view()) {
            None
        } else {
            Some(unexpected("pulse HTTP "@, status.code_view()))
        },
{
    if !status.is_success() {
        Err(unexpected_status("pulse HTTP ", status))
    } else {
        Ok(())
    }
}

// ---- Login ----

/// What to make of the answer to a login request, going by its status.
#[derive(Debug, PartialEq, Eq)]
pub enum LoginVerdict {
    /// Decode the body.
    Accept,
    /// Report the error: the credentials were refused.
    Refuse(AppError),
    /// Read the body as text: it goes into the error (see [`login_failure`]).
    Explain,
}

/// The verdict on the answer to a login request.
pub fn judge_login(status: HttpStatus) -> (verdict: LoginVerdict)
    ensures
        if status.code_view() == UNPROCESSABLE_ENTITY || status.code_view() == UNAUTHORIZED {
            verdict matches LoginVerdict::Refuse(error) && error@ == ErrorView::InvalidCredentials
        } else if !succeeded(status.code_view()) {
            verdict is Explain
        } else {
            verdict is Accept
        },
{
    let code: u16 = status.as_u16();
    if code == UNPROCESSABLE_ENTITY || code == UNAUTHORIZED {
        LoginVerdict::Refuse(AppError::InvalidCredentials)
    } else if !status.is_success() {
        LoginVerdict::Explain
    } else {
        LoginVerdict::Accept
    }
}

/// The error of a login that failed for another reason than the credentials; `body` is
/// the text of the answer, if it could be read.
pub fn login_failure(status: HttpStatus, body: Option<String>) -> (error: AppError)
    ensures
        error@ == ErrorView::Unexpected(
            "HTTP "@ + status_text(status.code_view()) + " — "@ + match body {
                Some(text) => text@,
                None => Seq::<char>::empty(),
            },
        ),
{
    let mut detail = concat2("HTTP ", status.text().as_str());
    detail.append(" — ");
    match body {
        Some(text) => {
            detail.append(text.as_str());
        },
        None => {
            assert(detail@ + Seq::<char>::empty() =~= detail@);
        },
    }
    AppError::Unexpected(detail)
}

/// An account, as the server describes it.
#[derive(Debug)]
pub struct UserPayload {
    pub data: serde_json::Value,
}

/// The body of a login that succeeded.
#[derive(Debug)]
pub struct LoginResponse {
    pub token: String,
    pub user: serde_json::Value,
}

/// Takes the token of a login that succeeded, and hands out the account.
pub fn accept_login(state: &mut AuthState, response: LoginResponse) -> (taken: (
    StorePlan,
    UserPayload,
))
    ensures
        final(state)@ == Some(response.token@),
        taken.0@ == keep_token(response.token@),
        taken.1.data == response.user,
{
    let plan = state.save_token(response.token.as_str());
    (plan, UserPayload { data: response.user })
}

/// Every request of a player carries the token in force. A request of anyone carries none: nor
/// does that of a file at an address of its own, nor the login request.
pub proof fn player_requests_carry_the_token(
    method: Method,
    path: Seq<char>,
    token: Seq<char>,
    since: Option<Seq<char>>,
    accept_json: bool,
    url: Seq<char>,
    email: Seq<char>,
    password: Seq<char>,
)
    ensures
        authorized(method, path, token).bearer == Some(token),
        pulse_view(token, since).bearer == Some(token),
        public(path, accept_json).bearer is None,
        plain_get(url).bearer is None,
        sign_in(email, password).bearer is None,
{
}

/// Every request but that of a file goes to the server's interface for native clients, by the
/// method and with the query and body that its purpose calls for.
pub proof fn requests_are_made_out_in_full(
    method: Method,
    path: Seq<char>,
    token: Seq<char>,
    since: Option<Seq<char>>,
    accept_json: bool,
    url: Seq<char>,
    email: Seq<char>,
    password: Seq<char>,
)
    ensures
        authorized(method, path, token) == (RequestView {
            method,
            url: "https://velmora.cc/api/mobile"@ + path,
            bearer: Some(token),
            accept_json: true,
            since: None,
            body: None,
        }),
        public(path, accept_json) == (RequestView {
            method: Method::Get,
            url: "https://velmora.cc/api/mobile"@ + path,
            bearer: None,
            accept_json,
            since: None,
            body: None,
        }),
        pulse_view(token, since) == (RequestView {
            method: Method::Get,
            url: "https://velmora.cc/api/mobile"@ + "/launcher-pulse"@,
            bearer: Some(token),
            accept_json: true,
            since,
            body: None,
        }),
        sign_in(email, password) == (RequestView {
            method: Method::Post,
            url: "https://velmora.cc/api/mobile"@ + "/login"@,
            bearer: None,
            accept_json: true,
            since: None,
            body: Some(LoginView { email, password, device_name: "Velmora Desktop"@ }),
        }),
        plain_get(url) == (RequestView {
            method: Method::Get,
            url,
            bearer: None,
            accept_json: false,
            since: None,
            body: None,
        }),
{
}

/// Each page has an address of its own under the server's interface.
pub proof fn pages_have_their_own_paths(page: Page, other: Page)
    ensures
        page == Page::Me ==> page.path_view() == "/me"@,
        page == Page::Dashboard ==> page.path_view() == "/dashboard"@,
        page == Page::LauncherFeed ==> page.path_view() == "/launcher-feed"@,
        page == Page::News ==> page.path_view() == "/news"@,
        page.path_view() == other.path_view() <==> page == other,
{
    reveal_strlit("/me");
    reveal_strlit("/dashboard");
    reveal_strlit("/launcher-feed");
    reveal_strlit("/news");
    assert("/me"@.len() == 3);
    assert("/dashboard"@.len() == 10);
    assert("/launcher-feed"@.len() == 14);
    assert("/news"@.len() == 5);
}

/// The status codes of success are those that start with a two.
pub proof fn success_is_the_second_class(code: u16)
    ensures
        succeeded(code) <==> code / 100 == 2,
        !succeeded(UNAUTHORIZED) && UNAUTHORIZED == 401,
        !succeeded(UNPROCESSABLE_ENTITY) && UNPROCESSABLE_ENTITY == 422,
{
}

/// The error of a status starts with what was asked for, and goes on with the code in decimal,
/// a space, and its usual reason.
pub proof fn status_errors_show_the_code(prefix: Seq<char>, code: u16)
    ensures
        unexpected(prefix, code) == ErrorView::Unexpected(prefix + status_text(code)),
        canonical_reason(code) matches Some(reason) ==> status_text(code) == decimal(code as nat)
            + " "@ + reason,
        canonical_reason(code) is None ==> status_text(code) == decimal(code as nat) + " "@
            + "<unknown status code>"@,
{
}

/// The model of a request holds all that is sent.
pub proof fn models_hold_the_whole_request(request: ApiRequest)
    ensures
        request@.method == request.method,
        request@.url == request.url@,
        request.bearer is None ==> request@.bearer is None,
        request.bearer matches Some(token) ==> request@.bearer == Some(token@),
        request@.accept_json == request.accept_json,
        request.since is None ==> request@.since is None,
        request.since matches Some(moment) ==> request@.since == Some(moment@),
        request.body is None ==> request@.body is None,
        request.body matches Some(login) ==> request@.body == Some(
            LoginView {
                email: login.email@,
                password: login.password@,
                device_name: login.device_name@,
            },
        ),
{
}

/// Refused credentials are told apart from any other failure of a login: only the statuses 401
/// and 422 mean that the credentials were refused, and only a success is decoded.
pub proof fn logins_are_refused_for_their_credentials_alone(
    status: HttpStatus,
    verdict: LoginVerdict,
)
    requires
        call_ensures(judge_login, (status,), verdict),
    ensures
        verdict is Refuse <==> status.code_view() == 401 || status.code_view() == 422,
        verdict matches LoginVerdict::Refuse(error) ==> error@ == ErrorView::InvalidCredentials,
        verdict is Accept <==> status.code_view() / 100 == 2,
{
}

/// A page is handed out exactly on success. A refused token is forgotten, in memory at once and
/// on disk by the plan; any other status leaves the token alone, and is named in the error.
pub proof fn pages_forget_a_refused_token(
    state: &mut AuthState,
    status: HttpStatus,
    verdict: PageVerdict,
)
    requires
        call_ensures(judge_page, (state, status), verdict),
    ensures
        verdict is Accept <==> status.code_view() / 100 == 2,
        status.code_view() == 401 ==> final(state)@ is None && (verdict matches PageVerdict::Reject {
            error,
            plan: Some(plan),
        } && error@ == ErrorView::Unauthenticated && plan@ == drop_token()),
        status.code_view() != 401 ==> final(state)@ == old(state)@,
        status.code_view() != 401 && status.code_view() / 100 != 2 ==> (verdict matches
            PageVerdict::Reject { error, plan: None } && error@ == ErrorView::Unexpected(
            "HTTP "@ + status_text(status.code_view()),
        )),
{
}

/// The other answers are taken exactly on success. Only the request of a sign-on ticket tells a
/// refused token apart; every other failure names the status, and what was asked for.
pub proof fn answers_are_taken_on_success_alone(
    status: HttpStatus,
    state_verdict: Result<(), AppError>,
    sso_verdict: Result<(), AppError>,
    pulse_verdict: Result<(), AppError>,
)
    requires
        call_ensures(judge_status, (status,), state_verdict),
        call_ensures(judge_sso, (status,), sso_verdict),
        call_ensures(judge_pulse, (status,), pulse_verdict),
    ensures
        state_verdict is Ok <==> status.code_view() / 100 == 2,
        sso_verdict is Ok <==> status.code_view() / 100 == 2,
        pulse_verdict is Ok <==> status.code_view() / 100 == 2,
        state_verdict matches Err(e) ==> e@ == ErrorView::Unexpected(
            "HTTP "@ + status_text(status.code_view()),
        ),
        sso_verdict matches Err(e) ==> e@ == if status.code_view() == 401 {
            ErrorView::Unauthenticated
        } else {
            ErrorView::Unexpected("SSO ticket HTTP "@ + status_text(status.code_view()))
        },
        pulse_verdict matches Err(e) ==> e@ == ErrorView::Unexpected(
            "pulse HTTP "@ + status_text(status.code_view()),
        ),
{
}

/// A login that failed for another reason is reported with its status and the whole text of the
/// answer.
pub proof fn login_failures_quote_the_answer(status: HttpStatus, text: String, error: AppError)
    requires
        call_ensures(login_failure, (status, Some(text)), error),
    ensures
        error@ == ErrorView::Unexpected(
            "HTTP "@ + status_text(status.code_view()) + " — "@ + text@,
        ),
{
}

/// A login that succeeded puts its token in force, in memory and, once the plan is carried out,
/// on disk, and hands out the account as the server gave it.
pub proof fn logins_put_their_token_in_force(
    state: &mut AuthState,
    response: LoginResponse,
    taken: (StorePlan, UserPayload),
)
    requires
        call_ensures(accept_login, (state, response), taken),
    ensures
        final(state)@ == Some(response.token@),
        taken.0@ == keep_token(response.token@),
        taken.1.data == response.user,
{
}

/// The logout, the pages and the pulse are requested with the token, each at its own address;
/// without a token nothing is requested.
pub proof fn requests_need_a_token(
    token: Option<String>,
    since: Option<String>,
    page: Page,
    logout: Option<ApiRequest>,
    read: Result<ApiRequest, AppError>,
    pulse: Option<ApiRequest>,
)
    requires
        call_ensures(logout_request, (token,), logout),
        call_ensures(page_request, (page, token), read),
        call_ensures(pulse_request, (token, &since), pulse),
    ensures
        logout is Some <==> token is Some,
        read is Ok <==> token is Some,
        pulse is Some <==> token is Some,
        read matches Err(e) ==> e@ == ErrorView::Unauthenticated,
        logout matches Some(r) ==> r@.bearer == Some(token->0@) && r@.method == Method::Post
            && r@.url == "https://velmora.cc/api/mobile"@ + "/logout"@,
        read matches Ok(r) ==> r@.bearer == Some(token->0@) && r@.method == Method::Get && r@.url
            == "https://velmora.cc/api/mobile"@ + page.path_view(),
        pulse matches Some(r) ==> r@.bearer == Some(token->0@) && r@.method == Method::Get
            && r@.url == "https://velmora.cc/api/mobile"@ + "/launcher-pulse"@ && r@.since
            == opt_text(since),
{
}

/// The requests of anyone ask for the state of the server, its presence and the manifest, each
/// at its own address; the request of a ticket carries the token.
pub proof fn requests_have_their_own_addresses(
    token: String,
    url: &str,
    email: &str,
    password: &str,
    status: ApiRequest,
    probe: ApiRequest,
    manifest: ApiRequest,
    ticket: ApiRequest,
    file: ApiRequest,
    login: ApiRequest,
)
    requires
        call_ensures(status_request, (), status),
        call_ensures(probe_request, (), probe),
        call_ensures(manifest_request, (), manifest),
        call_ensures(sso_request, (token,), ticket),
        call_ensures(file_request, (url,), file),
        call_ensures(login_request, (email, password), login),
    ensures
        status@ == public("/status"@, true),
        probe@ == public("/status"@, false),
        manifest@ == public("/asset-manifest"@, false),
        ticket@ == authorized(Method::Post, "/sso/launcher-ticket"@, token@),
        file@ == plain_get(url@),
        login@ == sign_in(email@, password@),
{
}

/// Both clients present themselves alike, with the version of the launcher; the one for tickets
/// waits half as long.
pub proof fn clients_present_themselves_alike(
    version: &str,
    ordinary: ClientProfile,
    sso: ClientProfile,
)
    requires
        call_ensures(http_client, (version,), ordinary),
        call_ensures(sso_client, (version,), sso),
    ensures
        ordinary.user_agent@ == "VelmoraDesktop/"@ + version@,
        sso.user_agent@ == ordinary.user_agent@,
        ordinary.timeout_secs == 20,
        sso.timeout_secs == 10,
{
}

} // verus!
