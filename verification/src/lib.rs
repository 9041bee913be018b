//! Credential profiles for a command-line API client: a store of named
//! profiles, the device-code login as a state machine, and the decision
//! whether a cached access token is still usable or has to be refreshed.
//!
//! The library never touches the network, the disk or the browser. It is handed
//! plain values (a loaded store, a server's reply, the current time) and says
//! what has to happen next. Of the outside world it reads the system clock and
//! nothing else.

pub mod api_util;
pub mod auth_handler;
pub mod cli_struct;
pub mod clock;
pub mod config_handler;
pub mod env_handler;
pub mod error;
pub mod moonenv_config;
