use smart_dataset::config::{
    explicit_credentials, parse_decimal, plan_client, resolve_region, ClientLimits,
    CredentialSource, DatasetOptions, EnvCredentials,
};
use smart_dataset::error::ConfigError;

fn env(id: Option<&str>, secret: Option<&str>, token: Option<&str>) -> EnvCredentials {
    EnvCredentials {
        access_key_id: id.map(|s| s.to_string()),
        secret_access_key: secret.map(|s| s.to_string()),
        session_token: token.map(|s| s.to_string()),
    }
}

fn explicit_options() -> DatasetOptions {
    DatasetOptions { region: Some("eu-west-2".to_string()), use_default_credentials: Some(false) }
}

#[test]
fn missing_access_key_id_is_a_config_error() {
    let r = plan_client(&explicit_options(), &ClientLimits::standard(), &env(None, Some("s"), None));
    assert_eq!(r.err(), Some(ConfigError::MissingAccessKeyId));
}

#[test]
fn missing_secret_is_a_config_error() {
    let r = plan_client(&explicit_options(), &ClientLimits::standard(), &env(Some("id"), None, None));
    assert_eq!(r.err(), Some(ConfigError::MissingSecretAccessKey));
}

#[test]
fn explicit_plan_carries_credentials_and_region() {
    let p = plan_client(&explicit_options(), &ClientLimits::standard(), &env(Some("id"), Some("s"), Some("t")))
        .ok()
        .unwrap();
    assert_eq!(p.region, "eu-west-2");
    assert_eq!(p.max_attempts, 5);
    assert_eq!(p.timeout_secs, 120);
    match p.credentials {
        CredentialSource::Explicit(c) => {
            assert_eq!(c.access_key_id, "id");
            assert_eq!(c.secret_access_key, "s");
            assert_eq!(c.session_token, "t");
        }
        CredentialSource::DefaultChain => panic!("expected explicit credentials"),
    }
}

#[test]
fn session_token_defaults_to_empty() {
    let c = explicit_credentials(&env(Some("id"), Some("s"), None)).ok().unwrap();
    assert_eq!(c.session_token, "");
}

#[test]
fn default_options_use_default_chain_and_region() {
    let p = plan_client(&DatasetOptions::unset(), &ClientLimits::standard(), &env(None, None, None))
        .ok()
        .unwrap();
    assert_eq!(p.region, "us-east-1");
    assert!(matches!(p.credentials, CredentialSource::DefaultChain));
}

#[test]
fn region_defaults_to_us_east_1() {
    assert_eq!(resolve_region(&None), "us-east-1");
    assert_eq!(resolve_region(&Some("ap-south-1".to_string())), "ap-south-1");
}

#[test]
fn standard_limits() {
    let l = ClientLimits::standard();
    assert_eq!(l.max_attempts, 5);
    assert_eq!(l.timeout_secs, 120);
}

#[test]
fn limits_from_settings() {
    let l = ClientLimits::from_settings(Some("3"), None).ok().unwrap();
    assert_eq!((l.max_attempts, l.timeout_secs), (3, 120));
    let l = ClientLimits::from_settings(None, Some("30")).ok().unwrap();
    assert_eq!((l.max_attempts, l.timeout_secs), (5, 30));
    assert_eq!(ClientLimits::from_settings(Some("x"), None).err(), Some(ConfigError::InvalidNumber));
    assert_eq!(ClientLimits::from_settings(Some("4294967296"), None).err(), Some(ConfigError::InvalidNumber));
    assert_eq!(ClientLimits::from_settings(None, Some("")).err(), Some(ConfigError::InvalidNumber));
    let l = ClientLimits::from_settings(Some("+2"), Some("+60")).ok().unwrap();
    assert_eq!((l.max_attempts, l.timeout_secs), (2, 60));
}

#[test]
fn parse_decimal_bounds() {
    assert_eq!(parse_decimal("0", 10), Some(0));
    assert_eq!(parse_decimal("120", u64::MAX), Some(120));
    assert_eq!(parse_decimal("18446744073709551615", u64::MAX), Some(u64::MAX));
    assert_eq!(parse_decimal("18446744073709551616", u64::MAX), None);
    assert_eq!(parse_decimal("11", 10), None);
    assert_eq!(parse_decimal("-1", 10), None);
    assert_eq!(parse_decimal("1 ", 10), None);
    assert_eq!(parse_decimal("", 10), None);
    assert_eq!(parse_decimal("+7", 10), Some(7));
    assert_eq!(parse_decimal("+", 10), None);
    assert_eq!(parse_decimal("++7", 10), None);
    assert_eq!(parse_decimal("-0", 10), None);
}
