use openclaw_miniflux_mcp::config::{Auth, Config};

#[test]
fn test_token_auth_valid() {
    let config = Config::new(
        "http://localhost:8080".into(),
        Some("mytoken".into()),
        None,
        None,
        false,
    );
    assert!(config.is_ok());
}

#[test]
fn test_userpass_auth_valid() {
    let config = Config::new(
        "http://localhost:8080".into(),
        None,
        Some("admin".into()),
        Some("pass".into()),
        false,
    );
    assert!(config.is_ok());
}

#[test]
fn test_no_auth_fails() {
    let config = Config::new("http://localhost:8080".into(), None, None, None, false);
    assert!(config.is_err());
}

#[test]
fn test_partial_userpass_fails() {
    let config = Config::new(
        "http://localhost:8080".into(),
        None,
        Some("admin".into()),
        None,
        false,
    );
    assert!(config.is_err());
}

#[test]
fn test_read_only_flag() {
    let config = Config::new(
        "http://localhost:8080".into(),
        Some("token".into()),
        None,
        None,
        true,
    )
    .unwrap();
    assert!(config.read_only);
}

#[test]
fn config_keeps_url_text_and_mode() {
    let config = Config::new(
        "http://localhost:8080".into(),
        Some("token".into()),
        None,
        None,
        false,
    )
    .unwrap();
    assert_eq!(config.url.as_str(), "http://localhost:8080");
    assert!(!config.read_only);
    match &config.auth {
        Auth::Token(t) => assert_eq!(t, "token"),
        Auth::UserPass { .. } => panic!("expected token credentials"),
    }
}

#[test]
fn config_userpass_credentials_are_kept() {
    let config = Config::new(
        "https://reader.example.org/".into(),
        None,
        Some("admin".into()),
        Some("pass".into()),
        false,
    )
    .unwrap();
    match &config.auth {
        Auth::UserPass { username, password } => {
            assert_eq!(username, "admin");
            assert_eq!(password, "pass");
        }
        Auth::Token(_) => panic!("expected user/pass credentials"),
    }
}

#[test]
fn config_refuses_token_with_userpass() {
    let config = Config::new(
        "http://localhost:8080".into(),
        Some("tok".into()),
        Some("admin".into()),
        Some("pass".into()),
        false,
    );
    assert_eq!(
        config.err().unwrap(),
        "Provide either --api-token or --username + --password, not both"
    );
}

#[test]
fn config_token_with_lone_username_uses_token() {
    let config = Config::new(
        "http://localhost:8080".into(),
        Some("tok".into()),
        Some("admin".into()),
        None,
        false,
    )
    .unwrap();
    match &config.auth {
        Auth::Token(t) => assert_eq!(t, "tok"),
        Auth::UserPass { .. } => panic!("expected token credentials"),
    }
}

#[test]
fn config_error_messages() {
    let missing = Config::new("http://localhost:8080".into(), None, None, None, false);
    assert_eq!(
        missing.err().unwrap(),
        "Authentication required: provide --api-token or --username + --password"
    );
    let only_password = Config::new(
        "http://localhost:8080".into(),
        None,
        None,
        Some("pass".into()),
        false,
    );
    assert_eq!(
        only_password.err().unwrap(),
        "Both --username and --password are required for user/pass auth"
    );
}

#[test]
fn config_invalid_url_is_refused_before_credentials() {
    let bad = Config::new("not a url".into(), None, None, None, false);
    assert_eq!(
        bad.err().unwrap(),
        "Invalid URL: relative URL without a base"
    );
    let bad_port = Config::new(
        "http://localhost:99999".into(),
        Some("t".into()),
        None,
        None,
        false,
    );
    assert_eq!(bad_port.err().unwrap(), "Invalid URL: invalid port number");
}

#[test]
fn config_builds_api_and_client() {
    let config = Config::new(
        "http://localhost:8080".into(),
        None,
        Some("admin".into()),
        Some("pass".into()),
        false,
    )
    .unwrap();
    let _api = config.create_api();
    let _client = Config::create_client().unwrap();
}
