use smart_dataset::address::BackendKind;
use smart_dataset::client::explicit_base;
use smart_dataset::config::{ClientLimits, DatasetOptions, EnvCredentials};
use smart_dataset::dataset::{Dataset, Target};
use smart_dataset::error::{ConfigError, StorageError};

fn no_env() -> EnvCredentials {
    EnvCredentials { access_key_id: None, secret_access_key: None, session_token: None }
}

#[test]
fn dispatch_local_path() {
    let d = Dataset::new("local/tmp/out.txt".to_string());
    assert_eq!(d.kind(), BackendKind::Local);
    assert_eq!(d.path(), "local/tmp/out.txt");
    assert!(matches!(d.target(), Ok(Target::Local(p)) if p == "local/tmp/out.txt"));
    assert!(matches!(d.connection_plan(&ClientLimits::standard(), &no_env()), Ok(None)));
}

#[test]
fn dispatch_remote_path() {
    // The bucket is the third `/`-separated segment, the key the rest.
    let d = Dataset::new("s3://ignored/bucket1/dir/file.txt".to_string());
    assert_eq!(d.kind(), BackendKind::Remote);
    assert!(!d.is_connected());
    assert_eq!(d.target().err(), Some(StorageError::NotConnected));
    let d = Dataset::new("s3://bucket1/dir/file.txt".to_string());
    assert_eq!(d.kind(), BackendKind::Remote);
}

#[test]
fn malformed_remote_dataset() {
    let d = Dataset::new("s3://bucket".to_string());
    assert_eq!(d.kind(), BackendKind::Remote);
    assert_eq!(d.target().err(), Some(StorageError::MalformedPath));
}

#[test]
fn remote_plan_without_credentials_fails() {
    let opts = DatasetOptions { region: None, use_default_credentials: Some(false) };
    let d = Dataset::with_options("s3://b/k".to_string(), opts);
    assert_eq!(
        d.connection_plan(&ClientLimits::standard(), &no_env()).err(),
        Some(StorageError::Config(ConfigError::MissingAccessKeyId))
    );
}

#[test]
fn remote_connect_with_explicit_credentials() {
    let opts = DatasetOptions { region: Some("us-west-1".to_string()), use_default_credentials: Some(false) };
    let mut d = Dataset::with_options("s3://ignored/bucket1/dir/file.txt".to_string(), opts);
    let env = EnvCredentials {
        access_key_id: Some("AKID".to_string()),
        secret_access_key: Some("SECRET".to_string()),
        session_token: None,
    };
    let plan = d.connection_plan(&ClientLimits::standard(), &env).ok().unwrap().unwrap();
    assert_eq!(plan.region, "us-west-1");
    let base = explicit_base(&plan).unwrap();
    d.connect(&plan, base);
    assert!(d.is_connected());
    assert!(d.client().is_some());
    match d.target() {
        Ok(Target::Remote(a)) => {
            assert_eq!(a.bucket, "ignored");
            assert_eq!(a.key, "bucket1/dir/file.txt");
        }
        _ => panic!("expected a remote target"),
    }
}

#[test]
fn remote_plan_without_secret_fails() {
    let opts = DatasetOptions { region: None, use_default_credentials: Some(false) };
    let d = Dataset::with_options("s3://b/k".to_string(), opts);
    let env = EnvCredentials { access_key_id: Some("AKID".to_string()), secret_access_key: None, session_token: None };
    assert_eq!(
        d.connection_plan(&ClientLimits::standard(), &env).err(),
        Some(StorageError::Config(ConfigError::MissingSecretAccessKey))
    );
}
