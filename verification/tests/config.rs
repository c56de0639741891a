use axum_example::config::Config as S3Config;
use axum_example::file_config::{
    user_config_file_path, ConfigLocation, ConfigSearchError, Existence, FileConfig, SearchEvent,
    SearchStep, CONFIG_FILE_NAME,
};
use axum_example::schemas::{
    AuthErrorResponse, MessageResponse, RemoveItemResponse, VersionInfo,
};
use axum_example::types::{
    authorize, ApiKeyExtractor, AuthError, Config, Environment, LevelFilter, LogLevel,
    DEFAULT_API_KEY,
};
use axum_example::version::version_info;

fn info() -> VersionInfo {
    VersionInfo {
        name: "axum-example",
        version: "1.0.0",
        deploy_tag: "local",
        build_time: "2024-02-14_14:42:35",
        branch: "main",
        commit: "ee9ec80",
        rust_version: "rustc 1.76.0",
    }
}

#[test]
fn environment_reads_its_four_names() {
    assert_eq!(Environment::from_str("DEVELOPMENT").unwrap(), Environment::Development);
    assert_eq!(Environment::from_str("PRODUCTION").unwrap(), Environment::Production);
    assert_eq!(Environment::from_str("TEST").unwrap(), Environment::Test);
    assert_eq!(Environment::from_str("LOCAL").unwrap(), Environment::Local);
}

#[test]
fn environment_rejects_other_names() {
    for input in ["", "local", "Production", "TEST ", "STAGING"] {
        let error = Environment::from_str(input).unwrap_err();
        assert_eq!(error.input, input);
        assert_eq!(error.message(), format!("Invalid environment value: '{}'", input));
    }
}

#[test]
fn environment_writes_what_it_reads() {
    for env in [
        Environment::Production,
        Environment::Test,
        Environment::Development,
        Environment::Local,
    ] {
        assert_eq!(Environment::from_str(&env.to_string()).unwrap(), env);
    }
    assert_eq!(Environment::Production.to_string(), "PRODUCTION");
    assert_eq!(Environment::Test.to_string(), "TEST");
    assert_eq!(Environment::Development.to_string(), "DEVELOPMENT");
    assert_eq!(Environment::Local.to_string(), "LOCAL");
}

#[test]
fn environment_defaults_to_local() {
    assert_eq!(Environment::default(), Environment::Local);
    assert_eq!(Environment::from_env(None), Environment::Local);
    assert_eq!(Environment::from_env(Some("nonsense")), Environment::Local);
    assert_eq!(Environment::from_env(Some("PRODUCTION")), Environment::Production);
    assert_eq!(Environment::from_env(Some("TEST")), Environment::Test);
}

#[test]
fn config_defaults() {
    let config = Config::default();
    assert_eq!(config.api_key, "axum-api-key");
    assert_eq!(config.api_key, DEFAULT_API_KEY);
    assert_eq!(config.env, Environment::Local);
}

#[test]
fn config_from_environment_values() {
    let config = Config::new_from_env(None, None);
    assert_eq!(config.api_key, "axum-api-key");
    assert_eq!(config.env, Environment::Local);
    let config = Config::new_from_env(Some("secret".to_string()), Some("DEVELOPMENT"));
    assert_eq!(config.api_key, "secret");
    assert_eq!(config.env, Environment::Development);
    let config = Config::new("k".to_string(), Environment::Test);
    assert_eq!(config.api_key, "k");
    assert_eq!(config.env, Environment::Test);
}

#[test]
fn authorize_lets_only_the_configured_key_through() {
    assert!(authorize(Some("key"), "key").is_ok());
    assert!(matches!(authorize(None, "key"), Err(AuthError::Missing)));
    match authorize(Some("other"), "key") {
        Err(AuthError::Invalid(key)) => assert_eq!(key, "other"),
        _ => panic!("a wrong key must be reported as invalid"),
    }
    assert!(matches!(authorize(Some(""), "key"), Err(AuthError::Invalid(_))));
    assert!(matches!(authorize(Some("key "), "key"), Err(AuthError::Invalid(_))));
    assert!(authorize(Some(""), "").is_ok());
}

#[test]
fn auth_error_messages() {
    assert_eq!(AuthError::Missing.message(), "Missing api-key header");
    assert_eq!(AuthError::Invalid("abc".to_string()).message(), "Invalid API key: 'abc'");
}

#[test]
fn extractor_checks_config_then_key() {
    let config = Config::default();
    assert!(ApiKeyExtractor::from_request_parts(Some(&config), Some("axum-api-key")).is_ok());
    let response = ApiKeyExtractor::from_request_parts(None, Some("axum-api-key")).unwrap_err();
    assert_eq!(response.message, "Config extension missing from route");
    let response = ApiKeyExtractor::from_request_parts(Some(&config), None).unwrap_err();
    assert_eq!(response.message, "Missing api-key header");
    let response = ApiKeyExtractor::from_request_parts(Some(&config), Some("nope")).unwrap_err();
    assert_eq!(response.message, "Invalid API key: 'nope'");
    assert_eq!(response.status_code(), 401);
}

#[test]
fn log_level_maps_to_its_filter() {
    assert_eq!(LogLevel::Trace.to_filter(), LevelFilter::Trace);
    assert_eq!(LogLevel::Debug.to_filter(), LevelFilter::Debug);
    assert_eq!(LogLevel::Info.to_filter(), LevelFilter::Info);
    assert_eq!(LogLevel::Warn.to_filter(), LevelFilter::Warn);
    assert_eq!(LogLevel::Error.to_filter(), LevelFilter::Error);
    assert_eq!(LogLevel::default(), LogLevel::Info);
}

#[test]
fn message_constructors_keep_the_text() {
    assert_eq!(MessageResponse::new("a b".to_string()).message, "a b");
    assert_eq!(MessageResponse::new_from_str("a b").message, "a b");
    assert_eq!(AuthErrorResponse::new("c".to_string()).message, "c");
    assert_eq!(AuthErrorResponse::new_from_str("c").message, "c");
    match RemoveItemResponse::new_error("gone".to_string()) {
        RemoveItemResponse::Error(message) => assert_eq!(message.message, "gone"),
        RemoveItemResponse::Removed(_) => panic!("an error was asked for"),
    }
}

#[test]
fn version_texts() {
    let info = info();
    assert_eq!(version_info(&info), "axum-example 1.0.0 2024-02-14_14:42:35 main ee9ec80");
    assert_eq!(
        info.to_string_pretty(),
        "Version information:\n  name: axum-example\n  version: 1.0.0\n  build time: 2024-02-14_14:42:35\n  branch: main\n  commit: ee9ec80\n  rust version: rustc 1.76.0"
    );
    assert_eq!(
        info.to_string(),
        "Version information: name: axum-example, version: 1.0.0, build time: 2024-02-14_14:42:35, branch: main, commit: ee9ec80, rust version: rustc 1.76.0"
    );
}

#[test]
fn file_config_falls_back_to_default() {
    assert_eq!(
        FileConfig::get_config(None),
        FileConfig { periodic_db_log_enabled: false, periodic_db_log_interval: 0 }
    );
    let read = FileConfig { periodic_db_log_enabled: true, periodic_db_log_interval: 30 };
    assert_eq!(FileConfig::get_config(Some(read)), read);
    assert_eq!(FileConfig::default(), FileConfig::get_config(None));
    assert_eq!(S3Config::get_config(None), S3Config { enable_s3_backup: false });
    assert_eq!(
        S3Config::get_config(Some(S3Config { enable_s3_backup: true })),
        S3Config { enable_s3_backup: true }
    );
    assert_eq!(S3Config::default(), S3Config { enable_s3_backup: false });
    assert_eq!(CONFIG_FILE_NAME, "axum-example.toml");
}

#[test]
fn config_search_prefers_the_current_directory() {
    assert_eq!(user_config_file_path(SearchEvent::Started), SearchStep::ResolveCurrentDir);
    assert_eq!(user_config_file_path(SearchEvent::CurrentDir(true)), SearchStep::CheckLocalFile);
    assert_eq!(
        user_config_file_path(SearchEvent::LocalFile(Existence::Exists)),
        SearchStep::Found(ConfigLocation::CurrentDir)
    );
    assert_eq!(
        user_config_file_path(SearchEvent::LocalFile(Existence::Missing)),
        SearchStep::ResolveHomeDir
    );
    assert_eq!(user_config_file_path(SearchEvent::HomeDir(true)), SearchStep::CheckHomeFile);
    assert_eq!(
        user_config_file_path(SearchEvent::HomeFile(Existence::Exists)),
        SearchStep::Found(ConfigLocation::HomeConfigDir)
    );
}

#[test]
fn config_search_failures() {
    assert_eq!(
        user_config_file_path(SearchEvent::CurrentDir(false)),
        SearchStep::Failed(ConfigSearchError::CurrentDirUnknown)
    );
    assert_eq!(
        user_config_file_path(SearchEvent::LocalFile(Existence::Unknown)),
        SearchStep::Failed(ConfigSearchError::LocalCheckFailed)
    );
    assert_eq!(
        user_config_file_path(SearchEvent::HomeDir(false)),
        SearchStep::Failed(ConfigSearchError::HomeDirUnknown)
    );
    assert_eq!(
        user_config_file_path(SearchEvent::HomeFile(Existence::Unknown)),
        SearchStep::Failed(ConfigSearchError::HomeCheckFailed)
    );
    assert_eq!(
        user_config_file_path(SearchEvent::HomeFile(Existence::Missing)),
        SearchStep::Failed(ConfigSearchError::NotFound)
    );
    assert_eq!(
        ConfigSearchError::NotFound.message(),
        "Config file not found in current directory or home config directory"
    );
    assert_eq!(ConfigSearchError::CurrentDirUnknown.message(), "Failed to get current directory");
    assert_eq!(
        ConfigSearchError::LocalCheckFailed.message(),
        "Failed to check local config file existence"
    );
    assert_eq!(ConfigSearchError::HomeDirUnknown.message(), "Failed to find home directory");
    assert_eq!(
        ConfigSearchError::HomeCheckFailed.message(),
        "Failed to check home config file existence"
    );
}
