use proxy_detector::config::{parse_config, ConfigError};

#[test]
fn parse_config_scenario() {
    let body = r#"var x = {uuid:"abcdef0123456789", rip:"1.2.3.4"};"#;
    let cfg = parse_config(body).unwrap();
    assert_eq!(cfg.uuid, "abcdef0123456789");
    assert_eq!(cfg.rip, "1.2.3.4");
}

#[test]
fn parse_config_missing_uuid() {
    let body = r#"rip:"1.2.3.4""#;
    let err = parse_config(body).unwrap_err();
    assert_eq!(err, ConfigError::MissingUuid);
}

#[test]
fn parse_config_missing_exit_ip() {
    let body = r#"uuid:"abcdef0123456789""#;
    let err = parse_config(body).unwrap_err();
    assert_eq!(err, ConfigError::MissingExitIp);
}

#[test]
fn parse_config_rejects_short_token() {
    let body = r#"uuid:"abc" rip:"1.2.3.4""#;
    assert_eq!(parse_config(body).unwrap_err(), ConfigError::MissingUuid);
}

#[test]
fn parse_config_rejects_uppercase_hex() {
    let body = r#"uuid:"ABCDEF0123456789" rip:"1.2.3.4""#;
    assert_eq!(parse_config(body).unwrap_err(), ConfigError::MissingUuid);
}

#[test]
fn parse_config_takes_leftmost_matches() {
    let body = r#"uuid:"aaaaaaaaaaaaaaaa" uuid:"bbbbbbbbbbbbbbbb" rip:"9.9.9.9" rip:"8.8.8.8""#;
    let cfg = parse_config(body).unwrap();
    assert_eq!(cfg.uuid, "aaaaaaaaaaaaaaaa");
    assert_eq!(cfg.rip, "9.9.9.9");
}

#[test]
fn parse_config_empty_exit_ip_is_skipped() {
    // The first exit IP pattern is empty, so the match moves on to the
    // next occurrence.
    let body = r#"uuid:"abcdef0123456789" rip:"" rip:"7.7.7.7""#;
    let cfg = parse_config(body).unwrap();
    assert_eq!(cfg.rip, "7.7.7.7");
}

#[test]
fn parse_config_error_messages() {
    assert_eq!(
        ConfigError::MissingUuid.message(),
        "failed to extract UUID from session script"
    );
    assert_eq!(
        ConfigError::MissingExitIp.message(),
        "failed to extract exit IP from session script"
    );
}
