use moonenv::api_util::{build_repo_uri, ApiResponse};
use moonenv::cli_struct::{
    App, Command, ConfigVariableChangeDefault, ConfigVariableOptions, ConfigVariableUpsert,
    Environment, OrgActionAuthArgs, RepoActionEnvArgs,
};
use moonenv::env_handler::{pulled_file, PullRequest, PullResponse, PushRequest, PushResponse};
use moonenv::error::MoonenvError;
use moonenv::moonenv_config::{IndividualConfig, MoonenvConfig};

fn args(org: Option<&str>, path: Option<&str>, env: Environment) -> RepoActionEnvArgs {
    RepoActionEnvArgs {
        org: org.map(|o| o.to_string()),
        path: path.map(|p| p.to_string()),
        repository: "backend".to_string(),
        env,
    }
}

fn pulled(file: &str) -> ApiResponse<PullResponse> {
    ApiResponse::Http {
        status: 200,
        text: String::new(),
        payload: Ok(PullResponse { file: file.to_string() }),
    }
}

#[test]
fn environments_are_named_as_the_server_knows_them() {
    assert_eq!(Environment::Dev.name(), "Dev");
    assert_eq!(Environment::Qa.name(), "Qa");
    assert_eq!(Environment::Prod.name(), "Prod");
}

#[test]
fn repo_uri_is_spelled_out() {
    assert_eq!(
        build_repo_uri("https://h", "acme", "backend", "Qa"),
        "https://h/orgs/acme/repos/backend?env=Qa"
    );
}

#[test]
fn new_hands_the_arguments_on() {
    let a = RepoActionEnvArgs::new(args(Some("acme"), Some("./.env"), Environment::Prod));
    assert_eq!(a, args(Some("acme"), Some("./.env"), Environment::Prod));
}

#[test]
fn env_path_must_be_unicode() {
    assert_eq!(
        args(None, Some("./.env"), Environment::Dev).get_env_path(),
        Ok("./.env".to_string())
    );
    assert_eq!(
        args(None, None, Environment::Dev).get_env_path(),
        Err(MoonenvError::InvalidEnvPath)
    );
}

#[test]
fn request_url_is_built_from_the_resolved_profile() {
    let store = MoonenvConfig::default();
    assert_eq!(
        args(None, Some("./.env"), Environment::Dev).get_request_url(&store),
        Ok("www.moonenv.app/orgs/moonenv/repos/backend?env=Dev".to_string())
    );
    assert_eq!(
        args(Some("nobody"), Some("./.env"), Environment::Dev).get_request_url(&store),
        Err(MoonenvError::ProfileNotFound)
    );
    let bare = MoonenvConfig::new(None, Vec::new());
    assert_eq!(
        args(None, Some("./.env"), Environment::Dev).get_request_url(&bare),
        Err(MoonenvError::MissingOrg)
    );
}

#[test]
fn pull_is_prepared_from_path_org_and_url() {
    let store = MoonenvConfig::default();
    assert_eq!(
        args(None, Some("./.env"), Environment::Prod).pull_handler(&store),
        Ok(PullRequest {
            path: "./.env".to_string(),
            org: "moonenv".to_string(),
            url: "www.moonenv.app/orgs/moonenv/repos/backend?env=Prod".to_string(),
        })
    );
    assert_eq!(
        args(Some("nobody"), None, Environment::Prod).pull_handler(&store),
        Err(MoonenvError::InvalidEnvPath)
    );
    let mut store = MoonenvConfig::default();
    store.change_config(IndividualConfig {
        url: None,
        org: "acme".to_string(),
        device_code: None,
        access_token: None,
        access_token_expires_at: None,
        refresh_token: None,
        client_id: None,
    });
    assert_eq!(
        args(Some("acme"), Some("e"), Environment::Prod).pull_handler(&store),
        Err(MoonenvError::UrlNotConfigured)
    );
}

#[test]
fn push_carries_the_content_in_base64() {
    let store = MoonenvConfig::default();
    assert_eq!(
        args(None, Some("./.env"), Environment::Qa).push_handler(&store, "KEY=value\n"),
        Ok(PushRequest {
            org: "moonenv".to_string(),
            url: "www.moonenv.app/orgs/moonenv/repos/backend?env=Qa".to_string(),
            b64_string: "S0VZPXZhbHVlCg==".to_string(),
        })
    );
    let empty = args(None, Some("./.env"), Environment::Qa).push_handler(&store, "").unwrap();
    assert_eq!(empty.b64_string, "");
    assert_eq!(
        args(None, None, Environment::Qa).push_handler(&store, "x"),
        Err(MoonenvError::InvalidEnvPath)
    );
}

#[test]
fn pulled_file_is_decoded_from_base64() {
    assert_eq!(pulled_file(pulled("S0VZPXZhbHVlCg==")), Ok(Some(b"KEY=value\n".to_vec())));
    assert_eq!(pulled_file(pulled("")), Ok(Some(Vec::new())));
    assert_eq!(pulled_file(pulled("not base64!")), Ok(None));
    assert_eq!(pulled_file(pulled("S0VZPXZhbHVlCg")), Ok(None));
    assert_eq!(
        pulled_file(ApiResponse::Http {
            status: 403,
            text: "forbidden".to_string(),
            payload: Ok(PullResponse { file: "S0VZ".to_string() }),
        }),
        Err(MoonenvError::Request { status: 403, text: "forbidden".to_string() })
    );
    assert_eq!(
        pulled_file(ApiResponse::Transport { reason: "down".to_string() }),
        Err(MoonenvError::Transport { reason: "down".to_string() })
    );
}

#[test]
fn config_upsert_writes_name_url_and_client_id_only() {
    let mut store = MoonenvConfig::default();
    ConfigVariableOptions::execute(
        ConfigVariableOptions::Upsert(ConfigVariableUpsert {
            org: "acme".to_string(),
            url: Some("https://api.acme.test".to_string()),
            client_id: None,
        }),
        &mut store,
    );
    assert_eq!(store.profiles.len(), 2);
    assert_eq!(
        store.profiles[1],
        IndividualConfig {
            url: Some("https://api.acme.test".to_string()),
            org: "acme".to_string(),
            device_code: None,
            access_token: None,
            access_token_expires_at: None,
            refresh_token: None,
            client_id: None,
        }
    );
    ConfigVariableOptions::execute(
        ConfigVariableOptions::Upsert(ConfigVariableUpsert {
            org: "moonenv".to_string(),
            url: None,
            client_id: Some("c".to_string()),
        }),
        &mut store,
    );
    assert_eq!(store.profiles.len(), 2);
    assert_eq!(store.profiles[0].url, None);
    assert_eq!(store.profiles[0].client_id, Some("c".to_string()));
}

#[test]
fn config_default_sets_the_default() {
    let mut store = MoonenvConfig::default();
    ConfigVariableOptions::execute(
        ConfigVariableOptions::Default(ConfigVariableChangeDefault { name: "x".to_string() }),
        &mut store,
    );
    assert_eq!(store.default, Some("x".to_string()));
    assert_eq!(store.profiles, MoonenvConfig::default().profiles);
}

#[test]
fn commands_are_plain_values() {
    let app = App { command: Command::Login(OrgActionAuthArgs { org: None }) };
    assert_eq!(app, App { command: Command::Login(OrgActionAuthArgs { org: None }) });
    let push = PushResponse { message: "stored".to_string() };
    assert_eq!(push.message, "stored");
}
