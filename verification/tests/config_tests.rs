use servitor::config::{parse_allowlist, parse_auth_enabled, Config, ConfigError, DbusScope};

#[test]
fn scope_names_parse_case_insensitively() {
    assert_eq!(DbusScope::parse("session"), Ok(DbusScope::Session));
    assert_eq!(DbusScope::parse("SESSION"), Ok(DbusScope::Session));
    assert_eq!(DbusScope::parse("system"), Ok(DbusScope::System));
    assert_eq!(DbusScope::parse("System"), Ok(DbusScope::System));
    assert_eq!(DbusScope::parse("user"), Err(ConfigError::UnknownScope));
    assert_eq!(DbusScope::parse(""), Err(ConfigError::UnknownScope));
}

#[test]
fn auth_is_on_unless_the_flag_reads_false() {
    assert!(!parse_auth_enabled("false"));
    assert!(parse_auth_enabled("true"));
    assert!(parse_auth_enabled("False"));
    assert!(parse_auth_enabled("yes"));
    assert!(parse_auth_enabled(""));
}

#[test]
fn allowlist_splits_trims_and_drops_empties() {
    let al = parse_allowlist("nginx, sshd ,,  postgres  ");
    assert_eq!(al, vec!["nginx".to_string(), "sshd".to_string(), "postgres".to_string()]);
}

#[test]
fn allowlist_drops_duplicates() {
    let al = parse_allowlist("nginx,nginx, nginx");
    assert_eq!(al, vec!["nginx".to_string()]);
}

#[test]
fn allowlist_of_blanks_is_empty() {
    assert!(parse_allowlist("").is_empty());
    assert!(parse_allowlist(" , ,, ").is_empty());
}

#[test]
fn build_defaults() {
    let c = Config::build(None, None, Some("$argon2id$x".to_string()), None, None).unwrap();
    assert_eq!(c.bind_address, "127.0.0.1:8008");
    assert_eq!(c.auth_token, Some("$argon2id$x".to_string()));
    assert!(c.allowlist.is_none());
    assert_eq!(c.dbus_scope, DbusScope::Session);
}

#[test]
fn build_fails_without_token_when_auth_enabled() {
    assert!(matches!(
        Config::build(None, None, None, None, None),
        Err(ConfigError::MissingAuthToken)
    ));
    assert!(matches!(
        Config::build(None, Some("true".to_string()), None, None, None),
        Err(ConfigError::MissingAuthToken)
    ));
}

#[test]
fn build_with_auth_disabled_drops_the_token() {
    let c = Config::build(
        Some("0.0.0.0:9000".to_string()),
        Some("false".to_string()),
        Some("ignored".to_string()),
        None,
        None,
    )
    .unwrap();
    assert_eq!(c.bind_address, "0.0.0.0:9000");
    assert_eq!(c.auth_token, None);
}

#[test]
fn build_rejects_unknown_scope() {
    assert!(matches!(
        Config::build(
            None,
            Some("false".to_string()),
            None,
            None,
            Some("galactic".to_string()),
        ),
        Err(ConfigError::UnknownScope)
    ));
}

#[test]
fn build_parses_allowlist_and_scope() {
    let c = Config::build(
        None,
        Some("false".to_string()),
        None,
        Some("nginx , redis".to_string()),
        Some("system".to_string()),
    )
    .unwrap();
    assert_eq!(c.allowlist, Some(vec!["nginx".to_string(), "redis".to_string()]));
    assert_eq!(c.dbus_scope, DbusScope::System);
}

#[test]
fn missing_token_is_reported_before_bad_scope() {
    assert!(matches!(
        Config::build(None, None, None, None, Some("galactic".to_string())),
        Err(ConfigError::MissingAuthToken)
    ));
}

#[test]
fn config_error_messages() {
    assert_eq!(
        ConfigError::MissingAuthToken.message(),
        "Auth is enabled and no auth token was configured"
    );
    assert_eq!(ConfigError::UnknownScope.message(), "Unknown dbus scope");
    assert_eq!(ConfigError::InvalidCredential.message(), "Failed to read token hash");
}
