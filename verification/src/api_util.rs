//! What came back from the server, and how a reply is told apart from a failure.

use crate::error::MoonenvError;
use vstd::prelude::*;
use vstd::string::StringExecFns;

verus! {

/// The status with which the server says that a login is still pending.
pub const STATUS_ACCEPTED: u16 = 202;

/// The status with which the server withdraws a pending login.
pub const STATUS_GONE: u16 = 410;

/// The outcome of one HTTP request whose body is expected to decode to a `T`.
#[derive(Debug, PartialEq, Eq)]
pub enum ApiResponse<T> {
    /// The request did not complete, or its body could not be read.
    Transport { reason: String },
    /// The server answered.
    Http {
        /// The status code.
        status: u16,
        /// The body as text.
        text: String,
        /// The body decoded, or the reason why it does not decode.
        payload: Result<T, String>,
    },
}

/// A status in the 2xx range.
pub open spec fn status_is_success(status: u16) -> bool {
    200 <= status < 300
}

/// What a response amounts to for a caller that wants its payload: the payload
/// of a 2xx reply that decodes; `Request` with status and body for any other
/// status; `Transport` where the request failed or a 2xx body does not decode.
pub open spec fn api_result<T>(response: ApiResponse<T>) -> Result<T, MoonenvError> {
    match response {
        ApiResponse::Transport { reason } => Err(MoonenvError::Transport { reason }),
        ApiResponse::Http { status, text, payload } => {
            if !status_is_success(status) {
                Err(MoonenvError::Request { status, text })
            } else {
                match payload {
                    Ok(value) => Ok(value),
                    Err(reason) => Err(MoonenvError::Transport { reason }),
                }
            }
        },
    }
}

/// Whether `status` lies in the 2xx range.
pub fn is_success(status: u16) -> (b: bool)
    ensures
        b == status_is_success(status),
{
    200 <= status && status < 300
}

/// Turns a response into its payload or the error it stands for.
pub fn treat_api_err<T>(response: ApiResponse<T>) -> (r: Result<T, MoonenvError>)
    ensures
        r == api_result(response),
{
    match response {
        ApiResponse::Transport { reason } => Err(MoonenvError::Transport { reason }),
        ApiResponse::Http { status, text, payload } => {
            if !is_success(status) {
                Err(MoonenvError::Request { status, text })
            } else {
                match payload {
                    Ok(value) => Ok(value),
                    Err(reason) => Err(MoonenvError::Transport { reason }),
                }
            }
        },
    }
}

/// Where a device code is asked for.
pub open spec fn code_uri(url: Seq<char>, client_id: Seq<char>) -> Seq<char> {
    url + "/auth/token?client_id="@ + client_id
}

/// Where the tokens of a pending login are asked for.
pub open spec fn poll_uri(url: Seq<char>, client_id: Seq<char>, device_code: Seq<char>) -> Seq<
    char,
> {
    code_uri(url, client_id) + "&device_code="@ + device_code
        + "&grant_type=urn:ietf:params:oauth:grant-type:device_code"@
}

/// Where a new access token is asked for.
pub open spec fn refresh_uri(url: Seq<char>, device_code: Seq<char>) -> Seq<char> {
    url + "/auth/refresh-token?device_code="@ + device_code
}

/// The page on which the user grants the login.
pub open spec fn browser_address(authorization_uri: Seq<char>) -> Seq<char> {
    "https://"@ + authorization_uri
}

/// Where the environment file of a repository lives.
pub open spec fn repo_uri(
    url: Seq<char>,
    org: Seq<char>,
    repository: Seq<char>,
    env: Seq<char>,
) -> Seq<char> {
    url + "/orgs/"@ + org + "/repos/"@ + repository + "?env="@ + env
}

/// Builds `code_uri`.
pub fn build_code_uri(url: &str, client_id: &str) -> (uri: String)
    ensures
        uri@ == code_uri(url@, client_id@),
{
    let mut uri = url.to_owned();
    uri.append("/auth/token?client_id=");
    uri.append(client_id);
    uri
}

/// Builds `poll_uri`.
pub fn build_poll_uri(url: &str, client_id: &str, device_code: &str) -> (uri: String)
    ensures
        uri@ == poll_uri(url@, client_id@, device_code@),
{
    let mut uri = build_code_uri(url, client_id);
    uri.append("&device_code=");
    uri.append(device_code);
    uri.append("&grant_type=urn:ietf:params:oauth:grant-type:device_code");
    uri
}

/// Builds `refresh_uri`.
pub fn build_refresh_uri(url: &str, device_code: &str) -> (uri: String)
    ensures
        uri@ == refresh_uri(url@, device_code@),
{
    let mut uri = url.to_owned();
    uri.append("/auth/refresh-token?device_code=");
    uri.append(device_code);
    uri
}

/// Builds `browser_address`.
pub fn build_browser_address(authorization_uri: &str) -> (address: String)
    ensures
        address@ == browser_address(authorization_uri@),
{
    let mut address = "https://".to_owned();
    address.append(authorization_uri);
    address
}

/// Builds `repo_uri`.
pub fn build_repo_uri(url: &str, org: &str, repository: &str, env: &str) -> (uri: String)
    ensures
        uri@ == repo_uri(url@, org@, repository@, env@),
{
    let mut uri = url.to_owned();
    uri.append("/orgs/");
    uri.append(org);
    uri.append("/repos/");
    uri.append(repository);
    uri.append("?env=");
    uri.append(env);
    uri
}

} // verus!
