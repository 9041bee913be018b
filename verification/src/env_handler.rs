//! What `pull`, `push` and `config` work out before and after their one
//! request: where it goes, what it carries, and what its answer holds.

use crate::api_util::{api_result, build_repo_uri, repo_uri, treat_api_err, ApiResponse};
use crate::cli_struct::{environment_name, ConfigVariableOptions, RepoActionEnvArgs};
use crate::error::MoonenvError;
use crate::moonenv_config::{text, IndividualConfig, MoonenvConfig, ProfileView, StoreView};
use base64::prelude::{Engine, BASE64_STANDARD};
use vstd::prelude::*;
use vstd::string::StringSliceAdditionalSpecFns;

verus! {

/// The server's answer to a push.
#[derive(Debug, PartialEq, Eq)]
pub struct PushResponse {
    pub message: String,
}

/// The server's answer to a pull: the file in base64.
#[derive(Debug, PartialEq, Eq)]
pub struct PullResponse {
    pub file: String,
}

/// What a pull needs: whose token authenticates it, where the request goes,
/// and where the file is written.
#[derive(Debug, PartialEq, Eq)]
pub struct PullRequest {
    pub path: String,
    pub org: String,
    pub url: String,
}

/// What a push needs: whose token authenticates it, where the request goes,
/// and the file's content in base64.
#[derive(Debug, PartialEq, Eq)]
pub struct PushRequest {
    pub org: String,
    pub url: String,
    pub b64_string: String,
}

/// The standard base64 text, with padding, of `bytes`.
pub uninterp spec fn base64_encoding(bytes: Seq<u8>) -> Seq<char>;

/// The bytes that the standard base64 text `encoded` stands for; `None` where
/// `encoded` is no such text.
pub uninterp spec fn base64_decoding(encoded: Seq<char>) -> Option<Seq<u8>>;

/// `base64::DecodeError`: why a text is not base64. Nothing of it is looked at.
#[verifier::external_type_specification]
#[verifier::external_body]
pub struct ExDecodeError(base64::DecodeError);

/// `Engine::encode` of `base64::prelude::BASE64_STANDARD`. The engine is a
/// constant without state, so the text depends on the bytes alone; what the
/// text is, is not stated.
#[verifier::external_body]
fn encode_base64(bytes: &[u8]) -> (encoded: String)
    ensures
        encoded@ == base64_encoding(bytes@),
{
    BASE64_STANDARD.encode(bytes)
}

/// `Engine::decode` of `base64::prelude::BASE64_STANDARD`. The engine is a
/// constant without state, so whether the call succeeds, and with which
/// bytes, depends on the text alone; which texts decode, and to what, is not
/// stated.
#[verifier::external_body]
fn decode_base64(encoded: &str) -> (decoded: Result<Vec<u8>, base64::DecodeError>)
    ensures
        match decoded {
            Ok(bytes) => base64_decoding(encoded@) == Some(bytes@),
            Err(_) => base64_decoding(encoded@) is None,
        },
{
    BASE64_STANDARD.decode(encoded)
}

/// The bytes of an optional vector.
pub open spec fn bytes_of(v: Option<Vec<u8>>) -> Option<Seq<u8>> {
    match v {
        Some(bytes) => Some(bytes@),
        None => None,
    }
}

/// The file that a pull's `response` holds: the error that the response
/// stands for; else the bytes that its base64 text decodes to, or `None`
/// where that text is not base64.
pub fn pulled_file(response: ApiResponse<PullResponse>) -> (r: Result<
    Option<Vec<u8>>,
    MoonenvError,
>)
    ensures
        match api_result(response) {
            Err(e) => r == Err::<Option<Vec<u8>>, MoonenvError>(e),
            Ok(pull) => r matches Ok(file) && bytes_of(file) == base64_decoding(pull.file@),
        },
{
    match treat_api_err(response) {
        Err(e) => Err(e),
        Ok(pull) => match decode_base64(pull.file.as_str()) {
            Ok(bytes) => Ok(Some(bytes)),
            Err(_) => Ok(None),
        },
    }
}

/// The path of the environment file, or `InvalidEnvPath`.
pub open spec fn env_path(path: Option<Seq<char>>) -> Result<Seq<char>, MoonenvError> {
    match path {
        Some(p) => Ok(p),
        None => Err(MoonenvError::InvalidEnvPath),
    }
}

/// Where the request for a repository's file goes: the repository's address
/// under the URL of the organization named, else of the default one.
pub open spec fn request_url(
    store: StoreView,
    explicit: Option<Seq<char>>,
    repository: Seq<char>,
    env: Seq<char>,
) -> Result<Seq<char>, MoonenvError> {
    match store.resolve(explicit) {
        Err(e) => Err(e),
        Ok(org) => match store.url_of(org) {
            Err(e) => Err(e),
            Ok(url) => Ok(repo_uri(url, org, repository, env)),
        },
    }
}

/// What a pull or a push is made with: path, organization and address, or
/// the first of the three that fails, in this order.
pub open spec fn transfer(
    store: StoreView,
    path: Option<Seq<char>>,
    explicit: Option<Seq<char>>,
    repository: Seq<char>,
    env: Seq<char>,
) -> Result<(Seq<char>, Seq<char>, Seq<char>), MoonenvError> {
    match env_path(path) {
        Err(e) => Err(e),
        Ok(p) => match store.resolve(explicit) {
            Err(e) => Err(e),
            Ok(org) => match request_url(store, explicit, repository, env) {
                Err(e) => Err(e),
                Ok(url) => Ok((p, org, url)),
            },
        },
    }
}

impl RepoActionEnvArgs {
    /// The same arguments.
    pub fn new(args: RepoActionEnvArgs) -> (r: Self)
        ensures
            r == args,
    {
        RepoActionEnvArgs {
            org: args.org,
            env: args.env,
            path: args.path,
            repository: args.repository,
        }
    }

    /// The path of the environment file; `InvalidEnvPath` where it is not
    /// valid Unicode.
    pub fn get_env_path(&self) -> (r: Result<String, MoonenvError>)
        ensures
            crate::moonenv_config::outcome(r) == env_path(text(self.path)),
    {
        match &self.path {
            Some(path) => Ok(path.clone()),
            None => Err(MoonenvError::InvalidEnvPath),
        }
    }

    /// The address of the repository's file for the environment asked for.
    pub fn get_request_url(&self, store: &MoonenvConfig) -> (r: Result<String, MoonenvError>)
        ensures
            crate::moonenv_config::outcome(r) == request_url(
                store@,
                text(self.org),
                self.repository@,
                environment_name(self.env),
            ),
    {
        let org = match store.get_org(crate::moonenv_config::clone_text(&self.org)) {
            Ok(org) => org,
            Err(e) => {
                return Err(e);
            },
        };
        let url = match store.get_url(org.as_str()) {
            Ok(url) => url,
            Err(e) => {
                return Err(e);
            },
        };
        let env = self.env.name();
        Ok(build_repo_uri(url.as_str(), org.as_str(), self.repository.as_str(), env.as_str()))
    }

    /// What a pull is made with.
    pub fn pull_handler(&self, store: &MoonenvConfig) -> (r: Result<PullRequest, MoonenvError>)
        ensures
            match r {
                Ok(request) => transfer(
                    store@,
                    text(self.path),
                    text(self.org),
                    self.repository@,
                    environment_name(self.env),
                ) == Ok::<(Seq<char>, Seq<char>, Seq<char>), MoonenvError>(
                    (request.path@, request.org@, request.url@),
                ),
                Err(e) => transfer(
                    store@,
                    text(self.path),
                    text(self.org),
                    self.repository@,
                    environment_name(self.env),
                ) == Err::<(Seq<char>, Seq<char>, Seq<char>), MoonenvError>(e),
            },
    {
        let path = match self.get_env_path() {
            Ok(path) => path,
            Err(e) => {
                return Err(e);
            },
        };
        let org = match store.get_org(crate::moonenv_config::clone_text(&self.org)) {
            Ok(org) => org,
            Err(e) => {
                return Err(e);
            },
        };
        let url = match self.get_request_url(store) {
            Ok(url) => url,
            Err(e) => {
                return Err(e);
            },
        };
        Ok(PullRequest { path, org, url })
    }

    /// What a push of the file's `content` is made with: the request carries
    /// the content's bytes in base64.
    pub fn push_handler(&self, store: &MoonenvConfig, content: &str) -> (r: Result<
        PushRequest,
        MoonenvError,
    >)
        ensures
            match r {
                Ok(request) => transfer(
                    store@,
                    text(self.path),
                    text(self.org),
                    self.repository@,
                    environment_name(self.env),
                ) matches Ok(t) && t.1 == request.org@ && t.2 == request.url@
                    && request.b64_string@ == base64_encoding(content.spec_bytes()),
                Err(e) => transfer(
                    store@,
                    text(self.path),
                    text(self.org),
                    self.repository@,
                    environment_name(self.env),
                ) == Err::<(Seq<char>, Seq<char>, Seq<char>), MoonenvError>(e),
            },
    {
        match self.pull_handler(store) {
            Err(e) => Err(e),
            Ok(request) => Ok(
                PushRequest {
                    org: request.org,
                    url: request.url,
                    b64_string: encode_base64(content.as_bytes()),
                },
            ),
        }
    }
}

/// The profile that `config upsert` writes: name, URL and client ID as given,
/// and nothing else.
pub open spec fn upsert_profile(
    org: Seq<char>,
    url: Option<Seq<char>>,
    client_id: Option<Seq<char>>,
) -> ProfileView {
    ProfileView {
        org,
        url,
        access_token: None,
        access_token_expires_at: None,
        device_code: None,
        refresh_token: None,
        client_id,
    }
}

/// The store after `option` was carried out.
pub open spec fn executed(store: StoreView, option: ConfigVariableOptions) -> StoreView {
    match option {
        ConfigVariableOptions::Default(value) => store.with_default(value.name@),
        ConfigVariableOptions::Upsert(value) => store.upsert(
            upsert_profile(value.org@, text(value.url), text(value.client_id)),
        ),
    }
}

impl ConfigVariableOptions {
    /// Carries `option` out on `store`.
    pub fn execute(option: ConfigVariableOptions, store: &mut MoonenvConfig)
        ensures
            final(store)@ == executed(old(store)@, option),
            old(store)@.wf() ==> final(store)@.wf(),
    {
        match option {
            ConfigVariableOptions::Default(value) => store.set_config_name_as_default(value.name),
            ConfigVariableOptions::Upsert(value) => store.change_config(
                IndividualConfig {
                    org: value.org,
                    url: value.url,
                    access_token: None,
                    access_token_expires_at: None,
                    device_code: None,
                    refresh_token: None,
                    client_id: value.client_id,
                },
            ),
        }
    }
}

} // verus!
