use sendout::config::{EnvValue, ServiceConfig};
use sendout::error::Error;

#[test]
fn email_config() {
    let config = ServiceConfig {
        server_token: String::from("test-token"),
        from_email: "from@test.com".into(),
        base_url: "http://localhost:6666".into(),
        account_token: Some(String::from("test-account-token")),
    };

    assert_eq!(config.server_token, "test-token");
    assert_eq!(config.from_email, "from@test.com");
    assert_eq!(config.base_url, "http://localhost:6666");
}

#[test]
fn config_from_parts_with_all_variables() {
    let config = ServiceConfig::from_parts(
        EnvValue::Present("http://localhost:6666".into()),
        EnvValue::Present("test-token".into()),
        EnvValue::Present("from@test.com".into()),
        EnvValue::Present("test-account-token".into()),
    )
    .expect("configuration to build");

    assert_eq!(config.base_url, "http://localhost:6666");
    assert_eq!(config.server_token, "test-token");
    assert_eq!(config.from_email, "from@test.com");
    assert_eq!(config.account_token.as_deref(), Some("test-account-token"));
}

#[test]
fn config_account_token_may_be_absent() {
    let config = ServiceConfig::from_parts(
        EnvValue::Present("http://localhost:6666".into()),
        EnvValue::Present("test-token".into()),
        EnvValue::Present("from@test.com".into()),
        EnvValue::Missing,
    )
    .expect("configuration to build");

    assert_eq!(config.account_token, None);
}

#[test]
fn config_missing_base_url_is_reported_first() {
    let result = ServiceConfig::from_parts(
        EnvValue::Missing,
        EnvValue::Missing,
        EnvValue::Missing,
        EnvValue::Missing,
    );
    assert!(matches!(result, Err(Error::ConfigError(m)) if m == "SENDOUT_BASE_URL not set"));
}

#[test]
fn config_missing_server_token_is_reported() {
    let result = ServiceConfig::from_parts(
        EnvValue::Present("http://localhost:6666".into()),
        EnvValue::Missing,
        EnvValue::Present("from@test.com".into()),
        EnvValue::Missing,
    );
    assert!(matches!(result, Err(Error::ConfigError(m)) if m == "SENDOUT_SERVER_TOKEN not set"));
}

#[test]
fn config_missing_from_email_is_reported() {
    let result = ServiceConfig::from_parts(
        EnvValue::Present("http://localhost:6666".into()),
        EnvValue::Present("test-token".into()),
        EnvValue::NotUnicode,
        EnvValue::Missing,
    );
    assert!(matches!(result, Err(Error::ConfigError(m)) if m == "SENDOUT_FROM_EMAIL not set"));
}

#[test]
fn config_garbled_account_token_is_an_error() {
    let result = ServiceConfig::from_parts(
        EnvValue::Present("http://localhost:6666".into()),
        EnvValue::Present("test-token".into()),
        EnvValue::Present("from@test.com".into()),
        EnvValue::NotUnicode,
    );
    assert!(matches!(result, Err(Error::ConfigError(m)) if m == "SENDOUT_ACCOUNT_TOKEN not set"));
}
