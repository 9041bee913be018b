//! What can go wrong in the library.

use vstd::prelude::*;
use vstd::string::StringExecFns;

verus! {

/// The failures that end a command.
#[derive(Debug, PartialEq, Eq)]
pub enum MoonenvError {
    /// No organization was named and the store has no default.
    MissingOrg,
    /// The store holds no profile of the organization asked for.
    ProfileNotFound,
    /// The path of the environment file is not valid Unicode.
    InvalidEnvPath,
    /// The profile has no URL.
    UrlNotConfigured,
    /// The profile has no client ID.
    ClientIdNotConfigured,
    /// A refresh was needed, but the profile has no refresh token.
    MissingRefreshToken,
    /// A refresh was needed, but the profile has no device code.
    MissingDeviceCode,
    /// The server gave up on the pending login.
    SessionExpired,
    /// The server answered outside the 2xx range.
    Request { status: u16, text: String },
    /// The request did not complete, or its body could not be read.
    Transport { reason: String },
}

/// The one character that stands for a digit.
pub open spec fn digit_text(d: nat) -> Seq<char> {
    if d == 0 {
        "0"@
    } else if d == 1 {
        "1"@
    } else if d == 2 {
        "2"@
    } else if d == 3 {
        "3"@
    } else if d == 4 {
        "4"@
    } else if d == 5 {
        "5"@
    } else if d == 6 {
        "6"@
    } else if d == 7 {
        "7"@
    } else if d == 8 {
        "8"@
    } else {
        "9"@
    }
}

/// A number in decimal, without leading zeros.
pub open spec fn decimal(n: nat) -> Seq<char>
    decreases n,
{
    if n < 10 {
        digit_text(n)
    } else {
        decimal(n / 10) + digit_text(n % 10)
    }
}

/// What an error tells the user.
pub open spec fn message_text(e: MoonenvError) -> Seq<char> {
    match e {
        MoonenvError::MissingOrg => "Org parameter is missing"@,
        MoonenvError::ProfileNotFound => "No profile found. Ensure a default profile is correctly set in the configuration."@,
        MoonenvError::InvalidEnvPath => "Invalid env path"@,
        MoonenvError::UrlNotConfigured => "URL not configured in the profile. Please set the URL to proceed."@,
        MoonenvError::ClientIdNotConfigured => "Client Id is not configured in the profile. Please set the client ID to proceed"@,
        MoonenvError::MissingRefreshToken => "No refresh token found. Try to login first"@,
        MoonenvError::MissingDeviceCode => "No device code found. Try to login first."@,
        MoonenvError::SessionExpired => "Session is expired. Try to login again!"@,
        MoonenvError::Request { status, text } => "Request failed with status "@ + decimal(
            status as nat,
        ) + ": "@ + text@,
        MoonenvError::Transport { reason } => reason@,
    }
}

fn digit_str(d: u16) -> (r: &'static str)
    requires
        d < 10,
    ensures
        r@ == digit_text(d as nat),
{
    if d == 0 {
        "0"
    } else if d == 1 {
        "1"
    } else if d == 2 {
        "2"
    } else if d == 3 {
        "3"
    } else if d == 4 {
        "4"
    } else if d == 5 {
        "5"
    } else if d == 6 {
        "6"
    } else if d == 7 {
        "7"
    } else if d == 8 {
        "8"
    } else {
        "9"
    }
}

/// Writes `n` in decimal.
pub fn decimal_string(n: u16) -> (r: String)
    ensures
        r@ == decimal(n as nat),
    decreases n,
{
    if n < 10 {
        digit_str(n).to_owned()
    } else {
        let mut r = decimal_string(n / 10);
        r.append(digit_str(n % 10));
        r
    }
}

impl MoonenvError {
    /// The error as the user reads it.
    pub fn message(&self) -> (r: String)
        ensures
            r@ == message_text(*self),
    {
        match self {
            MoonenvError::MissingOrg => "Org parameter is missing".to_owned(),
            MoonenvError::ProfileNotFound => "No profile found. Ensure a default profile is correctly set in the configuration.".to_owned(),
            MoonenvError::InvalidEnvPath => "Invalid env path".to_owned(),
            MoonenvError::UrlNotConfigured => "URL not configured in the profile. Please set the URL to proceed.".to_owned(),
            MoonenvError::ClientIdNotConfigured => "Client Id is not configured in the profile. Please set the client ID to proceed".to_owned(),
            MoonenvError::MissingRefreshToken => "No refresh token found. Try to login first".to_owned(),
            MoonenvError::MissingDeviceCode => "No device code found. Try to login first.".to_owned(),
            MoonenvError::SessionExpired => "Session is expired. Try to login again!".to_owned(),
            MoonenvError::Request { status, text } => {
                let mut r = "Request failed with status ".to_owned();
                let digits = decimal_string(*status);
                r.append(digits.as_str());
                r.append(": ");
                r.append(text.as_str());
                r
            },
            MoonenvError::Transport { reason } => reason.clone(),
        }
    }
}

} // verus!
