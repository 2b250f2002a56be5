use bonerjams_db::auth::{authorization_header, check_auth};
use bonerjams_db::cli::{config_path_or_default, invalid_command, invalid_subcommand};
use bonerjams_db::config::{Configuration, ConnType, DbMode, DbOpts, Transport, RPC};
use bonerjams_db::error::{Code, DbError};

#[test]
fn auth_rejects_missing_token() {
    let r = check_auth("Bearer some-secret-tokennnnnnn", None);
    let status = r.unwrap_err();
    assert_eq!(status.code, Code::Unauthenticated);
    assert_eq!(status.msg, "No valid auth token");
}

#[test]
fn auth_rejects_wrong_token() {
    let r = check_auth("Bearer some-secret-tokennnnnnn", Some(b"Bearer some-secret-token"));
    assert_eq!(r.unwrap_err().code, Code::Unauthenticated);
    let r = check_auth("Bearer some-secret-tokennnnnnn", Some(b""));
    assert!(r.is_err());
}

#[test]
fn auth_accepts_exact_token() {
    assert!(check_auth("Bearer some-secret-tokennnnnnn", Some(b"Bearer some-secret-tokennnnnnn")).is_ok());
}

#[test]
fn no_token_disables_auth() {
    assert!(check_auth("", None).is_ok());
    assert!(check_auth("", Some(b"anything")).is_ok());
}

#[test]
fn client_attaches_token_verbatim() {
    assert_eq!(authorization_header("Bearer abc"), Some("Bearer abc".to_string()));
    assert_eq!(authorization_header(""), None);
}

#[test]
fn server_and_client_urls() {
    let mut rpc = RPC::default();
    rpc.connection = ConnType::HTTP("127.0.0.1".to_string(), "8668".to_string());
    assert_eq!(rpc.server_url(), "127.0.0.1:8668");
    assert_eq!(rpc.client_url(), "http://127.0.0.1:8668");
    rpc.connection = ConnType::HTTPS("localhost".to_string(), "8668".to_string());
    assert_eq!(rpc.server_url(), "localhost:8668");
    assert_eq!(rpc.client_url(), "https://localhost:8668");
    rpc.connection = ConnType::UDS("/tmp/test_server.ipc".to_string());
    assert_eq!(rpc.server_url(), "/tmp/test_server.ipc");
    assert_eq!(rpc.client_url(), "unix:///tmp/test_server.ipc");
}

#[test]
fn auth_enabled_only_with_token() {
    let mut rpc = RPC::default();
    assert!(!rpc.auth_enabled());
    rpc.auth_token = "Bearer some-secret-tokennnnnnn".to_string();
    assert!(rpc.auth_enabled());
}

#[test]
fn default_options() {
    let opts = DbOpts::default();
    assert_eq!(opts.path, "test_infos.db");
    assert!(opts.mode.is_none());
    assert_eq!(opts.mode_or_default(), DbMode::Fast);
    let low = DbOpts { mode: Some(DbMode::LowSpace), ..DbOpts::default() };
    assert_eq!(low.mode_or_default(), DbMode::LowSpace);
    let conf = Configuration::default();
    assert!(conf.rpc.auth_token.is_empty());
    assert_eq!(DbMode::default(), DbMode::Fast);
}

#[test]
fn config_path_defaults_to_yaml() {
    assert_eq!(config_path_or_default(None), "config.yaml");
    assert_eq!(config_path_or_default(Some("other.json".to_string())), "other.json");
}

#[test]
fn invalid_command_messages() {
    match invalid_subcommand("config") {
        Err(DbError::CustomError(m)) => assert_eq!(m, "invalid command found for group config"),
        _ => panic!("expected an error"),
    }
    match invalid_command() {
        Err(DbError::CustomError(m)) => assert_eq!(m, "invalid command found"),
        _ => panic!("expected an error"),
    }
}

#[test]
fn transport_follows_connection() {
    let mut rpc = RPC::default();
    rpc.connection = ConnType::HTTPS("localhost".to_string(), "8668".to_string());
    assert!(matches!(rpc.transport(), Transport::Tls(a) if a == "localhost:8668"));
    rpc.connection = ConnType::HTTP("127.0.0.1".to_string(), "8668".to_string());
    assert!(matches!(rpc.transport(), Transport::Tcp(a) if a == "127.0.0.1:8668"));
    rpc.connection = ConnType::UDS("/tmp/test_server.ipc".to_string());
    assert!(matches!(rpc.transport(), Transport::Unix(p) if p == "/tmp/test_server.ipc"));
}
