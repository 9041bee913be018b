//! The device-code login as a state machine, and the decision whether a stored
//! access token can still be used.
//!
//! The caller does the outside work: it sends the request that
//! [`DeviceAuthFlow::next_action`] names, opens the browser, sleeps between
//! polls, and hands back what happened as a [`LoginEvent`].

use crate::api_util::{
    api_result, browser_address, build_browser_address, build_code_uri, build_poll_uri,
    build_refresh_uri, code_uri, is_success, poll_uri, refresh_uri, status_is_success,
    treat_api_err, ApiResponse, STATUS_ACCEPTED, STATUS_GONE,
};
use crate::cli_struct::OrgActionAuthArgs;
use crate::clock::Timestamp;
use crate::error::MoonenvError;
use crate::moonenv_config::{
    clone_text, law_upsert_then_get, outcome, text, MoonenvConfig, ProfileView, StoreView,
};
use vstd::prelude::*;

verus! {

/// The pause before each poll, in milliseconds.
pub const POLL_INTERVAL_MILLIS: u64 = 3100;

/// The server's answer to the request for a device code.
#[derive(Debug, PartialEq, Eq)]
pub struct OAuthSetOfTokenResult {
    /// The page, without scheme, on which the user grants the login.
    pub authorization_uri: String,
    /// The code that names the pending login.
    pub device_code: String,
}

/// The server's answer to a poll once the login was granted.
#[derive(Debug, PartialEq, Eq)]
pub struct OAuthTokenResult {
    /// The identity token; it serves as the access token.
    pub id_token: String,
    /// The token that buys new access tokens.
    pub refresh_token: String,
    /// The life of `id_token` in seconds.
    pub expires_in: u16,
}

/// The server's answer to a refresh.
#[derive(Debug, PartialEq, Eq)]
pub struct OAuthRefreshTokenResult {
    /// The new identity token; it serves as the access token.
    pub id_token: String,
    /// The life of `id_token` in seconds.
    pub expires_in: u16,
}

/// What one poll amounts to.
#[derive(Debug, PartialEq, Eq)]
pub enum PollOutcome {
    /// The login was granted.
    Granted(OAuthTokenResult),
    /// The server withdrew the pending login.
    Expired,
    /// Nothing yet: poll again.
    Pending,
    /// The poll itself failed.
    Failed(MoonenvError),
}

/// Status 202 means that the login is still pending, whatever the body holds.
/// Any other 2xx reply grants the login if its body decodes and fails the
/// poll if it does not. Status 410 withdraws the login; a request that did
/// not complete fails the poll; every other status means that the login is
/// still pending.
pub open spec fn poll_outcome(response: ApiResponse<OAuthTokenResult>) -> PollOutcome {
    match response {
        ApiResponse::Transport { reason } => PollOutcome::Failed(
            MoonenvError::Transport { reason },
        ),
        ApiResponse::Http { status, text, payload } => {
            if status == STATUS_ACCEPTED {
                PollOutcome::Pending
            } else if status_is_success(status) {
                match payload {
                    Ok(tokens) => PollOutcome::Granted(tokens),
                    Err(reason) => PollOutcome::Failed(MoonenvError::Transport { reason }),
                }
            } else if status == STATUS_GONE {
                PollOutcome::Expired
            } else {
                PollOutcome::Pending
            }
        },
    }
}

/// Reads one poll's response.
pub fn fetch_login_result(response: ApiResponse<OAuthTokenResult>) -> (r: PollOutcome)
    ensures
        r == poll_outcome(response),
{
    match response {
        ApiResponse::Transport { reason } => PollOutcome::Failed(
            MoonenvError::Transport { reason },
        ),
        ApiResponse::Http { status, text, payload } => {
            if status == STATUS_ACCEPTED {
                PollOutcome::Pending
            } else if is_success(status) {
                match payload {
                    Ok(tokens) => PollOutcome::Granted(tokens),
                    Err(reason) => PollOutcome::Failed(MoonenvError::Transport { reason }),
                }
            } else if status == STATUS_GONE {
                PollOutcome::Expired
            } else {
                PollOutcome::Pending
            }
        },
    }
}

/// Where a login stands.
#[derive(Debug, PartialEq, Eq)]
pub enum LoginState {
    /// Nothing was sent yet.
    Init,
    /// The server issued a device code; the browser is to be opened.
    CodeIssued { authorization_uri: String, device_code: String },
    /// The server is being polled. `notice` holds why the browser did not
    /// open, until the first poll was answered.
    Polling { device_code: String, notice: Option<String> },
    /// The tokens are in the store.
    Authenticated,
    /// The server withdrew the pending login.
    Expired,
    /// The login failed.
    Failed { error: MoonenvError },
}

/// A login state, with each string as its sequence of characters.
pub enum LoginStateView {
    Init,
    CodeIssued { authorization_uri: Seq<char>, device_code: Seq<char> },
    Polling { device_code: Seq<char>, notice: Option<Seq<char>> },
    Authenticated,
    Expired,
    Failed { error: MoonenvError },
}

impl View for LoginState {
    type V = LoginStateView;

    open spec fn view(&self) -> LoginStateView {
        match *self {
            LoginState::Init => LoginStateView::Init,
            LoginState::CodeIssued { authorization_uri, device_code } => LoginStateView::CodeIssued {
                authorization_uri: authorization_uri@,
                device_code: device_code@,
            },
            LoginState::Polling { device_code, notice } => LoginStateView::Polling {
                device_code: device_code@,
                notice: text(notice),
            },
            LoginState::Authenticated => LoginStateView::Authenticated,
            LoginState::Expired => LoginStateView::Expired,
            LoginState::Failed { error } => LoginStateView::Failed { error },
        }
    }
}

/// What the caller reports back to a login.
#[derive(Debug, PartialEq, Eq)]
pub enum LoginEvent {
    /// The answer to the request for a device code.
    CodeResponse(ApiResponse<OAuthSetOfTokenResult>),
    /// The browser was opened, or why it was not.
    BrowserResult(Result<(), String>),
    /// The answer to one poll.
    PollResponse(ApiResponse<OAuthTokenResult>),
}

/// What the caller has to do next for a login.
#[derive(Debug, PartialEq, Eq)]
pub enum LoginAction {
    /// Send a GET request to `uri` and report a `CodeResponse`.
    RequestCode { uri: String },
    /// Open the browser at `address` and report a `BrowserResult`.
    OpenBrowser { address: String },
    /// Show `notice` if there is one, wait `wait_millis`, send a GET request
    /// to `uri` and report a `PollResponse`.
    Poll { wait_millis: u64, uri: String, notice: Option<String> },
    /// Write the store back: the login succeeded.
    Persist,
    /// Stop: the login ended without success.
    Stop,
}

/// An action, with each string as its sequence of characters.
pub enum LoginActionView {
    RequestCode { uri: Seq<char> },
    OpenBrowser { address: Seq<char> },
    Poll { wait_millis: u64, uri: Seq<char>, notice: Option<Seq<char>> },
    Persist,
    Stop,
}

impl View for LoginAction {
    type V = LoginActionView;

    open spec fn view(&self) -> LoginActionView {
        match *self {
            LoginAction::RequestCode { uri } => LoginActionView::RequestCode { uri: uri@ },
            LoginAction::OpenBrowser { address } => LoginActionView::OpenBrowser {
                address: address@,
            },
            LoginAction::Poll { wait_millis, uri, notice } => LoginActionView::Poll {
                wait_millis,
                uri: uri@,
                notice: text(notice),
            },
            LoginAction::Persist => LoginActionView::Persist,
            LoginAction::Stop => LoginActionView::Stop,
        }
    }
}

/// One login: the organization it is for, what the requests need, and its state.
#[derive(Debug, PartialEq, Eq)]
pub struct DeviceAuthFlow {
    /// The organization that logs in.
    pub org: String,
    /// The URL of its server.
    pub url: String,
    /// Its client ID.
    pub client_id: String,
    /// Where the login stands.
    pub state: LoginState,
}

/// A login, with each string as its sequence of characters.
pub struct FlowView {
    pub org: Seq<char>,
    pub url: Seq<char>,
    pub client_id: Seq<char>,
    pub state: LoginStateView,
}

impl View for DeviceAuthFlow {
    type V = FlowView;

    open spec fn view(&self) -> FlowView {
        FlowView { org: self.org@, url: self.url@, client_id: self.client_id@, state: self.state@ }
    }
}

/// The profile `p` after a login with `device_code` was granted `tokens` at `now`.
pub open spec fn logged_in(
    p: ProfileView,
    device_code: Seq<char>,
    tokens: OAuthTokenResult,
    now: Timestamp,
) -> ProfileView {
    ProfileView {
        access_token: Some(tokens.id_token@),
        access_token_expires_at: Some(now.advanced(tokens.expires_in)),
        device_code: Some(device_code),
        refresh_token: Some(tokens.refresh_token@),
        ..p
    }
}

impl FlowView {
    /// The login has ended.
    pub open spec fn is_terminal(self) -> bool {
        self.state is Authenticated || self.state is Expired || self.state is Failed
    }

    /// `event` is a granted poll that this login is waiting for.
    pub open spec fn grants(self, event: LoginEvent) -> bool {
        &&& self.state is Polling
        &&& event matches LoginEvent::PollResponse(response)
        &&& poll_outcome(response) is Granted
    }

    /// The tokens that `event` grants.
    pub open spec fn granted(self, event: LoginEvent) -> OAuthTokenResult
        recommends
            self.grants(event),
    {
        poll_outcome(event->PollResponse_0)->Granted_0
    }

    /// The state after `event`, for a store that looked like `store` when the
    /// event came. An event that the state does not wait for changes nothing.
    pub open spec fn next_state(self, event: LoginEvent, store: StoreView) -> LoginStateView {
        match (self.state, event) {
            (LoginStateView::Init, LoginEvent::CodeResponse(response)) => match api_result(
                response,
            ) {
                Ok(codes) => LoginStateView::CodeIssued {
                    authorization_uri: codes.authorization_uri@,
                    device_code: codes.device_code@,
                },
                Err(error) => LoginStateView::Failed { error },
            },
            (
                LoginStateView::CodeIssued { authorization_uri, device_code },
                LoginEvent::BrowserResult(opened),
            ) => LoginStateView::Polling {
                device_code,
                notice: match opened {
                    Ok(_) => None,
                    Err(reason) => Some(reason@),
                },
            },
            (
                LoginStateView::Polling { device_code, notice },
                LoginEvent::PollResponse(response),
            ) => match poll_outcome(response) {
                PollOutcome::Granted(_) => if store.holds(self.org) {
                    LoginStateView::Authenticated
                } else {
                    LoginStateView::Failed { error: MoonenvError::ProfileNotFound }
                },
                PollOutcome::Expired => LoginStateView::Expired,
                PollOutcome::Pending => LoginStateView::Polling { device_code, notice: None },
                PollOutcome::Failed(error) => LoginStateView::Failed { error },
            },
            _ => self.state,
        }
    }

    /// The login after `event`.
    pub open spec fn step(self, event: LoginEvent, store: StoreView) -> FlowView {
        FlowView { state: self.next_state(event, store), ..self }
    }

    /// The store after `event` came at `now`: a granted poll writes the tokens
    /// into the organization's profile, and nothing else changes the store.
    pub open spec fn store_after(self, event: LoginEvent, store: StoreView, now: Timestamp) -> StoreView {
        if self.grants(event) && store.holds(self.org) {
            store.upsert(
                logged_in(
                    store.get(self.org)->Some_0,
                    self.state->Polling_device_code,
                    self.granted(event),
                    now,
                ),
            )
        } else {
            store
        }
    }

    /// What the caller has to do in this state.
    pub open spec fn pending(self) -> LoginActionView {
        match self.state {
            LoginStateView::Init => LoginActionView::RequestCode {
                uri: code_uri(self.url, self.client_id),
            },
            LoginStateView::CodeIssued { authorization_uri, device_code } => LoginActionView::OpenBrowser {
                address: browser_address(authorization_uri),
            },
            LoginStateView::Polling { device_code, notice } => LoginActionView::Poll {
                wait_millis: POLL_INTERVAL_MILLIS,
                uri: poll_uri(self.url, self.client_id, device_code),
                notice,
            },
            LoginStateView::Authenticated => LoginActionView::Persist,
            LoginStateView::Expired => LoginActionView::Stop,
            LoginStateView::Failed { error } => LoginActionView::Stop,
        }
    }

    /// How the login ended, if it has.
    pub open spec fn verdict(self) -> Option<Result<(), MoonenvError>> {
        match self.state {
            LoginStateView::Authenticated => Some(Ok(())),
            LoginStateView::Expired => Some(Err(MoonenvError::SessionExpired)),
            LoginStateView::Failed { error } => Some(Err(error)),
            _ => None,
        }
    }
}

/// The login that `login` starts on `store`: for the organization named, else
/// the default one, with the URL and the client ID of its profile.
pub open spec fn login_start(store: StoreView, explicit: Option<Seq<char>>) -> Result<
    FlowView,
    MoonenvError,
> {
    match store.resolve(explicit) {
        Err(e) => Err(e),
        Ok(org) => match store.url_of(org) {
            Err(e) => Err(e),
            Ok(url) => match store.client_id_of(org) {
                Err(e) => Err(e),
                Ok(client_id) => Ok(
                    FlowView { org, url, client_id, state: LoginStateView::Init },
                ),
            },
        },
    }
}

/// The view of a started login; an error stands for itself.
pub open spec fn flow_outcome(r: Result<DeviceAuthFlow, MoonenvError>) -> Result<
    FlowView,
    MoonenvError,
> {
    match r {
        Ok(flow) => Ok(flow@),
        Err(e) => Err(e),
    }
}

/// Starts a login. It fails with `MissingOrg` where no organization is named
/// and there is no default, with `ProfileNotFound` where the organization has
/// no profile, and with `UrlNotConfigured` or `ClientIdNotConfigured` where
/// the profile lacks the one or the other.
pub fn login_handler(store: &MoonenvConfig, value: OrgActionAuthArgs) -> (r: Result<
    DeviceAuthFlow,
    MoonenvError,
>)
    ensures
        flow_outcome(r) == login_start(store@, text(value.org)),
{
    let org = match store.get_org(value.org) {
        Ok(org) => org,
        Err(e) => {
            return Err(e);
        },
    };
    let url = match store.get_url(org.as_str()) {
        Ok(url) => url,
        Err(e) => {
            return Err(e);
        },
    };
    let client_id = match store.get_client_id(org.as_str()) {
        Ok(client_id) => client_id,
        Err(e) => {
            return Err(e);
        },
    };
    Ok(DeviceAuthFlow { org, url, client_id, state: LoginState::Init })
}

impl DeviceAuthFlow {
    /// Takes `event` in. A granted poll writes the tokens into `store`; the
    /// instant of expiry is `now` plus the life that the server granted.
    pub fn advance(self, event: LoginEvent, store: &mut MoonenvConfig, now: Timestamp) -> (next:
        DeviceAuthFlow)
        requires
            self@.grants(event) ==> now.can_advance(self@.granted(event).expires_in),
        ensures
            next@ == self@.step(event, old(store)@),
            final(store)@ == self@.store_after(event, old(store)@, now),
            old(store)@.wf() ==> final(store)@.wf(),
    {
        let DeviceAuthFlow { org, url, client_id, state } = self;
        let state = match (state, event) {
            (LoginState::Init, LoginEvent::CodeResponse(response)) => {
                match treat_api_err(response) {
                    Ok(codes) => LoginState::CodeIssued {
                        authorization_uri: codes.authorization_uri,
                        device_code: codes.device_code,
                    },
                    Err(error) => LoginState::Failed { error },
                }
            },
            (
                LoginState::CodeIssued { authorization_uri, device_code },
                LoginEvent::BrowserResult(opened),
            ) => {
                let notice = match opened {
                    Ok(_) => None,
                    Err(reason) => Some(reason),
                };
                LoginState::Polling { device_code, notice }
            },
            (LoginState::Polling { device_code, notice }, LoginEvent::PollResponse(response)) => {
                match fetch_login_result(response) {
                    PollOutcome::Granted(tokens) => {
                        match store.get_config(org.as_str()) {
                            Ok(mut config) => {
                                config.access_token = Some(tokens.id_token);
                                config.device_code = Some(device_code);
                                config.refresh_token = Some(tokens.refresh_token);
                                config.access_token_expires_at = Some(
                                    get_expires_at(now, tokens.expires_in),
                                );
                                store.change_config(config);
                                LoginState::Authenticated
                            },
                            Err(error) => LoginState::Failed { error },
                        }
                    },
                    PollOutcome::Expired => LoginState::Expired,
                    PollOutcome::Pending => LoginState::Polling { device_code, notice: None },
                    PollOutcome::Failed(error) => LoginState::Failed { error },
                }
            },
            (state, _) => state,
        };
        DeviceAuthFlow { org, url, client_id, state }
    }

    /// What the caller has to do now.
    pub fn next_action(&self) -> (action: LoginAction)
        ensures
            action@ == self@.pending(),
    {
        match &self.state {
            LoginState::Init => LoginAction::RequestCode {
                uri: build_code_uri(self.url.as_str(), self.client_id.as_str()),
            },
            LoginState::CodeIssued { authorization_uri, device_code } => LoginAction::OpenBrowser {
                address: build_browser_address(authorization_uri.as_str()),
            },
            LoginState::Polling { device_code, notice } => LoginAction::Poll {
                wait_millis: POLL_INTERVAL_MILLIS,
                uri: build_poll_uri(
                    self.url.as_str(),
                    self.client_id.as_str(),
                    device_code.as_str(),
                ),
                notice: clone_text(notice),
            },
            LoginState::Authenticated => LoginAction::Persist,
            LoginState::Expired => LoginAction::Stop,
            LoginState::Failed { error } => LoginAction::Stop,
        }
    }

    /// Whether the login has ended.
    pub fn is_finished(&self) -> (b: bool)
        ensures
            b == self@.is_terminal(),
    {
        match &self.state {
            LoginState::Authenticated => true,
            LoginState::Expired => true,
            LoginState::Failed { error } => true,
            _ => false,
        }
    }

    /// How the login ended: `Ok` after `Authenticated`, `SessionExpired` after
    /// `Expired`, the error that `Failed` holds; `None` while it is under way.
    pub fn into_result(self) -> (r: Option<Result<(), MoonenvError>>)
        ensures
            r == self@.verdict(),
    {
        match self.state {
            LoginState::Authenticated => Some(Ok(())),
            LoginState::Expired => Some(Err(MoonenvError::SessionExpired)),
            LoginState::Failed { error } => Some(Err(error)),
            _ => None,
        }
    }
}

/// How a command gets its access token.
#[derive(Debug, PartialEq, Eq)]
pub enum TokenPlan {
    /// The stored token is still good.
    Cached { token: String },
    /// A new token has to be bought: send a POST request to `uri`, with
    /// `bearer` as the bearer token, and hand the answer to `refresh_token`.
    Refresh { uri: String, bearer: String },
}

/// A plan, with each string as its sequence of characters.
pub enum TokenPlanView {
    Cached { token: Seq<char> },
    Refresh { uri: Seq<char>, bearer: Seq<char> },
}

impl View for TokenPlan {
    type V = TokenPlanView;

    open spec fn view(&self) -> TokenPlanView {
        match *self {
            TokenPlan::Cached { token } => TokenPlanView::Cached { token: token@ },
            TokenPlan::Refresh { uri, bearer } => TokenPlanView::Refresh {
                uri: uri@,
                bearer: bearer@,
            },
        }
    }
}

/// The view of a plan; an error stands for itself.
pub open spec fn plan_outcome(r: Result<TokenPlan, MoonenvError>) -> Result<
    TokenPlanView,
    MoonenvError,
> {
    match r {
        Ok(plan) => Ok(plan@),
        Err(e) => Err(e),
    }
}

/// The profile's token cannot be used at `now`: there is none, or no instant
/// of expiry is known for it, or that instant lies before `now`.
pub open spec fn needs_refresh(p: ProfileView, now: Timestamp) -> bool {
    ||| p.access_token is None
    ||| p.access_token_expires_at is None
    ||| p.access_token_expires_at->Some_0.precedes(now)
}

/// The request that refreshes the profile's token: to the refresh address of
/// its URL and device code, authenticated with its refresh token.
pub open spec fn refresh_request(p: ProfileView) -> Result<TokenPlanView, MoonenvError> {
    match p.refresh_token {
        None => Err(MoonenvError::MissingRefreshToken),
        Some(bearer) => match p.device_code {
            None => Err(MoonenvError::MissingDeviceCode),
            Some(device_code) => match p.url {
                None => Err(MoonenvError::UrlNotConfigured),
                Some(url) => Ok(
                    TokenPlanView::Refresh { uri: refresh_uri(url, device_code), bearer },
                ),
            },
        },
    }
}

/// How the organization `org` gets its access token at `now`.
pub open spec fn token_plan(store: StoreView, org: Seq<char>, now: Timestamp) -> Result<
    TokenPlanView,
    MoonenvError,
> {
    match store.get(org) {
        None => Err(MoonenvError::ProfileNotFound),
        Some(p) => if needs_refresh(p, now) {
            refresh_request(p)
        } else {
            Ok(TokenPlanView::Cached { token: p.access_token->Some_0 })
        },
    }
}

/// The tokens that a refresh for `org` is granted by `response`: those of a
/// 2xx reply that decodes, for a profile that has what a refresh takes.
pub open spec fn refresh_grant(
    store: StoreView,
    org: Seq<char>,
    response: ApiResponse<OAuthRefreshTokenResult>,
) -> Option<OAuthRefreshTokenResult> {
    match store.get(org) {
        None => None,
        Some(p) => match (refresh_request(p), api_result(response)) {
            (Ok(_), Ok(tokens)) => Some(tokens),
            _ => None,
        },
    }
}

/// The store and the token after the server answered a refresh for `org` with
/// `response` at `now`. A profile that lacks what a refresh takes refuses the
/// refresh, whatever the reply: `MissingRefreshToken`, else
/// `MissingDeviceCode`, else `UrlNotConfigured`. Only a 2xx reply that decodes
/// changes the store: the profile gets the new token and its instant of
/// expiry. Any other reply gives its error.
pub open spec fn refreshed(
    store: StoreView,
    org: Seq<char>,
    response: ApiResponse<OAuthRefreshTokenResult>,
    now: Timestamp,
) -> (StoreView, Result<Seq<char>, MoonenvError>) {
    match store.get(org) {
        None => (store, Err(MoonenvError::ProfileNotFound)),
        Some(p) => match refresh_request(p) {
            Err(e) => (store, Err(e)),
            Ok(_) => match api_result(response) {
                Err(e) => (store, Err(e)),
                Ok(tokens) => (
                    store.upsert(
                        p.with_token(tokens.id_token@, now.advanced(tokens.expires_in)),
                    ),
                    Ok(tokens.id_token@),
                ),
            },
        },
    }
}

/// Decides how `org` gets its access token at `now`: the stored one where it
/// has not expired, else by a refresh. It fails with `ProfileNotFound` where
/// `org` has no profile and, where a refresh is needed, with
/// `MissingRefreshToken`, `MissingDeviceCode` or `UrlNotConfigured` where the
/// profile lacks what the refresh takes.
pub fn get_access_token(store: &MoonenvConfig, org: &str, now: Timestamp) -> (r: Result<
    TokenPlan,
    MoonenvError,
>)
    ensures
        plan_outcome(r) == token_plan(store@, org@, now),
{
    let config = match store.get_config(org) {
        Ok(config) => config,
        Err(e) => {
            return Err(e);
        },
    };
    let expired = match &config.access_token_expires_at {
        Some(expires_at) => expires_at.is_before(&now),
        None => true,
    };
    if !expired {
        if let Some(token) = config.access_token {
            return Ok(TokenPlan::Cached { token });
        }
    }
    let bearer = match config.refresh_token {
        Some(bearer) => bearer,
        None => {
            return Err(MoonenvError::MissingRefreshToken);
        },
    };
    let device_code = match config.device_code {
        Some(device_code) => device_code,
        None => {
            return Err(MoonenvError::MissingDeviceCode);
        },
    };
    let url = match config.url {
        Some(url) => url,
        None => {
            return Err(MoonenvError::UrlNotConfigured);
        },
    };
    Ok(TokenPlan::Refresh { uri: build_refresh_uri(url.as_str(), device_code.as_str()), bearer })
}

/// Takes in the server's answer to a refresh for `org`. It fails with
/// `ProfileNotFound` where `org` has no profile, and refuses the refresh with
/// `MissingRefreshToken`, `MissingDeviceCode` or `UrlNotConfigured`, in this
/// order, where the profile lacks what a refresh takes. Else, on a 2xx reply
/// that decodes, the profile gets the new token and its instant of expiry,
/// `now` plus the life that the server granted, and the token is returned. On
/// any other reply the reply's error is returned. Whenever it fails the store
/// stays as it is.
pub fn refresh_token(
    store: &mut MoonenvConfig,
    org: &str,
    response: ApiResponse<OAuthRefreshTokenResult>,
    now: Timestamp,
) -> (r: Result<String, MoonenvError>)
    requires
        refresh_grant(old(store)@, org@, response) matches Some(tokens) ==> now.can_advance(
            tokens.expires_in,
        ),
    ensures
        (final(store)@, outcome(r)) == refreshed(old(store)@, org@, response, now),
        old(store)@.wf() ==> final(store)@.wf(),
{
    let mut config = match store.get_config(org) {
        Ok(config) => config,
        Err(e) => {
            return Err(e);
        },
    };
    if config.refresh_token.is_none() {
        return Err(MoonenvError::MissingRefreshToken);
    }
    if config.device_code.is_none() {
        return Err(MoonenvError::MissingDeviceCode);
    }
    if config.url.is_none() {
        return Err(MoonenvError::UrlNotConfigured);
    }
    let tokens = match treat_api_err(response) {
        Ok(tokens) => tokens,
        Err(e) => {
            return Err(e);
        },
    };
    config.access_token = Some(tokens.id_token.clone());
    config.access_token_expires_at = Some(get_expires_at(now, tokens.expires_in));
    store.change_config(config);
    Ok(tokens.id_token)
}

/// The instant at which a token that was issued at `now` for `expires_in`
/// seconds expires.
pub fn get_expires_at(now: Timestamp, expires_in: u16) -> (t: Timestamp)
    requires
        now.can_advance(expires_in),
    ensures
        t == now.advanced(expires_in),
        now.wf() ==> t.wf(),
{
    let extra: u64 = expires_in as u64;
    Timestamp { secs: now.secs + extra, nanos: now.nanos }
}

/// A token whose instant of expiry lies strictly after `now` is used as it
/// is: the plan is the stored token, and holds no request.
pub proof fn law_unexpired_token_is_used(
    store: StoreView,
    org: Seq<char>,
    now: Timestamp,
    token: Seq<char>,
    expires_at: Timestamp,
)
    requires
        store.get(org) matches Some(p) && p.access_token == Some(token)
            && p.access_token_expires_at == Some(expires_at),
        now.precedes(expires_at),
    ensures
        token_plan(store, org, now) == Ok::<TokenPlanView, MoonenvError>(
            TokenPlanView::Cached { token },
        ),
{
}

/// A token whose instant of expiry lies strictly before `now` is not used:
/// the plan is the one refresh request, and the server's answer to it, not
/// the stored token, is what the refresh returns.
pub proof fn law_expired_token_gives_the_new_token(
    store: StoreView,
    org: Seq<char>,
    now: Timestamp,
    p: ProfileView,
    response: ApiResponse<OAuthRefreshTokenResult>,
    tokens: OAuthRefreshTokenResult,
)
    requires
        store.get(org) == Some(p),
        p.access_token_expires_at matches Some(expires_at) && expires_at.precedes(now),
        p.refresh_token is Some,
        p.device_code is Some,
        p.url is Some,
        api_result(response) == Ok::<OAuthRefreshTokenResult, MoonenvError>(tokens),
    ensures
        token_plan(store, org, now) == Ok::<TokenPlanView, MoonenvError>(
            TokenPlanView::Refresh {
                uri: refresh_uri(p.url->Some_0, p.device_code->Some_0),
                bearer: p.refresh_token->Some_0,
            },
        ),
        refresh_grant(store, org, response) == Some(tokens),
        refreshed(store, org, response, now).1 == Ok::<Seq<char>, MoonenvError>(tokens.id_token@),
{
}

/// A token whose instant of expiry lies strictly before `now` is refreshed
/// once: the server's answer puts the new token and its instant of expiry
/// into the profile; that instant is `now` plus the granted life, which lies
/// after the old instant of expiry and not before `now`; and the plan at
/// `now` for the store so written is the new token, with no further request.
pub proof fn law_expired_token_is_refreshed_once(
    store: StoreView,
    org: Seq<char>,
    now: Timestamp,
    p: ProfileView,
    response: ApiResponse<OAuthRefreshTokenResult>,
    tokens: OAuthRefreshTokenResult,
)
    requires
        store.get(org) == Some(p),
        p.access_token_expires_at matches Some(expires_at) && expires_at.precedes(now),
        p.refresh_token is Some,
        p.device_code is Some,
        p.url is Some,
        api_result(response) == Ok::<OAuthRefreshTokenResult, MoonenvError>(tokens),
        now.can_advance(tokens.expires_in),
    ensures
        refreshed(store, org, response, now).0.get(org) == Some(
            p.with_token(tokens.id_token@, now.advanced(tokens.expires_in)),
        ),
        p.access_token_expires_at->Some_0.precedes(now.advanced(tokens.expires_in)),
        !now.advanced(tokens.expires_in).precedes(now),
        tokens.expires_in > 0 ==> now.precedes(now.advanced(tokens.expires_in)),
        token_plan(refreshed(store, org, response, now).0, org, now) == Ok::<
            TokenPlanView,
            MoonenvError,
        >(TokenPlanView::Cached { token: tokens.id_token@ }),
{
    assert(p.org == org) by {
        store.lemma_holds(org);
    }
    law_upsert_then_get(store, p.with_token(tokens.id_token@, now.advanced(tokens.expires_in)));
}

/// A refresh for a profile that lacks what a refresh takes is refused,
/// whatever the server answered, and leaves the store as it was: without a
/// refresh token with `MissingRefreshToken`; with one but without a device
/// code with `MissingDeviceCode`; with both but without a URL with
/// `UrlNotConfigured`.
pub proof fn law_refresh_without_credentials_is_refused(
    store: StoreView,
    org: Seq<char>,
    response: ApiResponse<OAuthRefreshTokenResult>,
    now: Timestamp,
)
    requires
        store.holds(org),
    ensures
        ({
            let p = store.get(org)->Some_0;
            let after = refreshed(store, org, response, now);
            &&& p.refresh_token is None ==> after == (
                store,
                Err::<Seq<char>, MoonenvError>(MoonenvError::MissingRefreshToken),
            )
            &&& p.refresh_token is Some && p.device_code is None ==> after == (
                store,
                Err::<Seq<char>, MoonenvError>(MoonenvError::MissingDeviceCode),
            )
            &&& p.refresh_token is Some && p.device_code is Some && p.url is None ==> after == (
                store,
                Err::<Seq<char>, MoonenvError>(MoonenvError::UrlNotConfigured),
            )
            &&& refresh_request(p) is Err ==> refresh_grant(store, org, response) is None
        }),
{
}

/// Without a refresh token there is no refresh: where the stored token cannot
/// be used and the profile has no refresh token, the plan is the error
/// `MissingRefreshToken`, and so holds no request.
pub proof fn law_refresh_needs_refresh_token(store: StoreView, org: Seq<char>, now: Timestamp)
    requires
        store.get(org) matches Some(p) && needs_refresh(p, now) && p.refresh_token is None,
    ensures
        token_plan(store, org, now) == Err::<TokenPlanView, MoonenvError>(
            MoonenvError::MissingRefreshToken,
        ),
{
}

/// While the server answers a poll with 202, or with a status that is
/// neither 2xx nor 410, the login keeps polling with the same request and
/// the store stays as it is. On 410 the login has expired. On a 2xx reply
/// other than 202 that decodes, for an organization that has a profile, it is
/// authenticated and the profile holds the tokens of that reply.
pub proof fn law_poll_step(
    flow: FlowView,
    store: StoreView,
    now: Timestamp,
    status: u16,
    body: String,
    payload: Result<OAuthTokenResult, String>,
)
    requires
        flow.state is Polling,
    ensures
        ({
            let event = LoginEvent::PollResponse(ApiResponse::Http { status, text: body, payload });
            let next = flow.step(event, store);
            let still_pending = status == STATUS_ACCEPTED || (!status_is_success(status) && status
                != STATUS_GONE);
            &&& still_pending ==> next.state is Polling && next.pending()->Poll_uri
                == flow.pending()->Poll_uri && next.pending()->Poll_wait_millis
                == POLL_INTERVAL_MILLIS && flow.store_after(event, store, now) == store
            &&& status == STATUS_GONE ==> next.state is Expired && next.verdict() == Some(
                Err::<(), MoonenvError>(MoonenvError::SessionExpired),
            ) && flow.store_after(event, store, now) == store
            &&& status_is_success(status) && status != STATUS_ACCEPTED && store.holds(flow.org)
                ==> (payload matches Ok(tokens) ==> next.state is Authenticated && flow.store_after(event, store, now).get(
                flow.org,
            ) == Some(
                logged_in(store.get(flow.org)->Some_0, flow.state->Polling_device_code, tokens, now),
            ))
        }),
{
    if status_is_success(status) && status != STATUS_ACCEPTED && store.holds(flow.org) {
        if let Ok(tokens) = payload {
            store.lemma_holds(flow.org);
            let written = logged_in(
                store.get(flow.org)->Some_0,
                flow.state->Polling_device_code,
                tokens,
                now,
            );
            assert(written.org == flow.org);
            law_upsert_then_get(store, written);
        }
    }
}

/// The login and the store after `events` came in, one after the other, each
/// at `now`.
pub open spec fn after_events(
    flow: FlowView,
    store: StoreView,
    events: Seq<LoginEvent>,
    now: Timestamp,
) -> (FlowView, StoreView)
    decreases events.len(),
{
    if events.len() == 0 {
        (flow, store)
    } else {
        let before = after_events(flow, store, events.drop_last(), now);
        (
            before.0.step(events.last(), before.1),
            before.0.store_after(events.last(), before.1, now),
        )
    }
}

/// `event` answers a poll and says that the login is still pending.
pub open spec fn is_pending_reply(event: LoginEvent) -> bool {
    event matches LoginEvent::PollResponse(response) && poll_outcome(response) is Pending
}

/// However many polls are answered with "still pending", the login goes on
/// polling for the same device code and the store stays as it is.
pub proof fn law_pending_replies_keep_polling(
    flow: FlowView,
    store: StoreView,
    replies: Seq<LoginEvent>,
    now: Timestamp,
)
    requires
        flow.state is Polling,
        forall|i: int| 0 <= i < replies.len() ==> is_pending_reply(#[trigger] replies[i]),
    ensures
        after_events(flow, store, replies, now).1 == store,
        after_events(flow, store, replies, now).0.state is Polling,
        after_events(flow, store, replies, now).0.pending()->Poll_uri == flow.pending()->Poll_uri,
        after_events(flow, store, replies, now).0.pending()->Poll_wait_millis
            == POLL_INTERVAL_MILLIS,
        after_events(flow, store, replies, now).0.org == flow.org,
        after_events(flow, store, replies, now).0.state->Polling_device_code
            == flow.state->Polling_device_code,
    decreases replies.len(),
{
    if replies.len() > 0 {
        let earlier = replies.drop_last();
        assert forall|i: int| 0 <= i < earlier.len() implies is_pending_reply(
            #[trigger] earlier[i],
        ) by {
            assert(earlier[i] == replies[i]);
        }
        law_pending_replies_keep_polling(flow, store, earlier, now);
        assert(is_pending_reply(replies[replies.len() - 1]));
    }
}

/// A login that polls, for an organization that has a profile, is
/// authenticated by the first reply that grants it, however many "still
/// pending" replies came before: the profile then holds the tokens of that
/// reply, the device code of the login, and `now` plus the granted life as
/// the instant of expiry.
pub proof fn law_polling_ends_with_the_grant(
    flow: FlowView,
    store: StoreView,
    replies: Seq<LoginEvent>,
    grant: LoginEvent,
    tokens: OAuthTokenResult,
    now: Timestamp,
)
    requires
        flow.state is Polling,
        store.holds(flow.org),
        forall|i: int| 0 <= i < replies.len() ==> is_pending_reply(#[trigger] replies[i]),
        grant matches LoginEvent::PollResponse(response) && poll_outcome(response)
            == PollOutcome::Granted(tokens),
    ensures
        after_events(flow, store, replies.push(grant), now).0.state is Authenticated,
        after_events(flow, store, replies.push(grant), now).0.verdict() == Some(
            Ok::<(), MoonenvError>(()),
        ),
        after_events(flow, store, replies.push(grant), now).1.get(flow.org) == Some(
            logged_in(store.get(flow.org)->Some_0, flow.state->Polling_device_code, tokens, now),
        ),
{
    let all = replies.push(grant);
    assert(all.drop_last() == replies);
    assert(all.last() == grant);
    law_pending_replies_keep_polling(flow, store, replies, now);
    store.lemma_holds(flow.org);
    let written = logged_in(
        store.get(flow.org)->Some_0,
        flow.state->Polling_device_code,
        tokens,
        now,
    );
    assert(written.org == flow.org);
    law_upsert_then_get(store, written);
}

/// A login that polls has expired with the first reply of status 410,
/// however many "still pending" replies came before, and the store is as it
/// was.
pub proof fn law_polling_ends_with_gone(
    flow: FlowView,
    store: StoreView,
    replies: Seq<LoginEvent>,
    gone: LoginEvent,
    now: Timestamp,
)
    requires
        flow.state is Polling,
        forall|i: int| 0 <= i < replies.len() ==> is_pending_reply(#[trigger] replies[i]),
        gone matches LoginEvent::PollResponse(response) && poll_outcome(response) is Expired,
    ensures
        after_events(flow, store, replies.push(gone), now).0.state is Expired,
        after_events(flow, store, replies.push(gone), now).0.verdict() == Some(
            Err::<(), MoonenvError>(MoonenvError::SessionExpired),
        ),
        after_events(flow, store, replies.push(gone), now).1 == store,
{
    let all = replies.push(gone);
    assert(all.drop_last() == replies);
    assert(all.last() == gone);
    law_pending_replies_keep_polling(flow, store, replies, now);
}

/// A login that has ended stays as it is, whatever is reported to it, and
/// leaves the store alone.
pub proof fn law_terminal_is_final(
    flow: FlowView,
    event: LoginEvent,
    store: StoreView,
    now: Timestamp,
)
    requires
        flow.is_terminal(),
    ensures
        flow.step(event, store) == flow,
        flow.store_after(event, store, now) == store,
{
}

} // verus!
