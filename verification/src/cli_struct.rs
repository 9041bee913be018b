//! The commands and their arguments, as plain values.

use vstd::prelude::*;

verus! {

/// One invocation of the program.
#[derive(Debug, PartialEq, Eq)]
pub struct App {
    pub command: Command,
}

/// What the program can be asked to do.
#[derive(Debug, PartialEq, Eq)]
pub enum Command {
    /// Fetch the environment file of a repository.
    Pull(RepoActionEnvArgs),
    /// Send the local environment file to a repository.
    Push(RepoActionEnvArgs),
    /// Change the configuration.
    Config(ConfigVariableOptions),
    /// Log in through the browser.
    Login(OrgActionAuthArgs),
}

/// The environment that a file belongs to.
#[derive(Clone, Copy, Debug, PartialEq, Eq, Structural)]
pub enum Environment {
    Dev,
    Qa,
    Prod,
}

/// The name under which the server knows an environment.
pub open spec fn environment_name(env: Environment) -> Seq<char> {
    match env {
        Environment::Dev => "Dev"@,
        Environment::Qa => "Qa"@,
        Environment::Prod => "Prod"@,
    }
}

impl Environment {
    /// The environment's name as it is written into a request.
    pub fn name(&self) -> (r: String)
        ensures
            r@ == environment_name(*self),
    {
        match self {
            Environment::Dev => "Dev".to_owned(),
            Environment::Qa => "Qa".to_owned(),
            Environment::Prod => "Prod".to_owned(),
        }
    }
}

/// The arguments of `pull` and `push`.
#[derive(Debug, PartialEq, Eq)]
pub struct RepoActionEnvArgs {
    /// The organization that owns the repository; the default profile's where absent.
    pub org: Option<String>,
    /// The path of the environment file; `None` where it is not valid Unicode.
    pub path: Option<String>,
    /// The repository within the organization.
    pub repository: String,
    /// The environment whose file is meant.
    pub env: Environment,
}

/// The arguments of `login`.
#[derive(Debug, PartialEq, Eq)]
pub struct OrgActionAuthArgs {
    /// The organization to log in to; the default profile's where absent.
    pub org: Option<String>,
}

/// The two ways to change the configuration.
#[derive(Debug, PartialEq, Eq)]
pub enum ConfigVariableOptions {
    /// Create a profile, or overwrite the one of the same name.
    Upsert(ConfigVariableUpsert),
    /// Choose the default profile.
    Default(ConfigVariableChangeDefault),
}

/// The arguments of `config upsert`.
#[derive(Debug, PartialEq, Eq)]
pub struct ConfigVariableUpsert {
    /// The profile's name.
    pub org: String,
    /// The full URL of the server.
    pub url: Option<String>,
    /// The client ID for authorization.
    pub client_id: Option<String>,
}

/// The arguments of `config default`.
#[derive(Debug, PartialEq, Eq)]
pub struct ConfigVariableChangeDefault {
    /// The name of the profile that becomes the default.
    pub name: String,
}

} // verus!
