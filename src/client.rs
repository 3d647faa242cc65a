use vstd::prelude::*;

use crate::config::{ClientPlan, CredentialSource, StaticCredentials};

verus! {

/// The object-store client; opaque here.
#[verifier::external_type_specification]
#[verifier::external_body]
pub struct ExClient(aws_sdk_s3::Client);

/// A client configuration under construction; opaque here.
#[verifier::external_type_specification]
#[verifier::external_body]
pub struct ExConfigBuilder(aws_sdk_s3::config::Builder);

/// Relies on `aws_sdk_s3::config::Builder::new`, `region` and
/// `credentials_provider`, with `Region::new` and `Credentials::new` turning the
/// plain values into the library's types: a configuration with a fixed region
/// and a static credential set. The session token is passed as given.
#[verifier::external_body]
fn static_credentials_builder(region: &str, creds: &StaticCredentials) -> (r:
    aws_sdk_s3::config::Builder) {
    let credentials = aws_sdk_s3::Credentials::new(
        creds.access_key_id.clone(),
        creds.secret_access_key.clone(),
        Some(creds.session_token.clone()),
        None,
        "loaded-from-custom-env",
    );
    aws_sdk_s3::config::Builder::new().region(aws_sdk_s3::Region::new(region.to_string()))
        .credentials_provider(credentials)
}

/// Relies on `Builder::set_sleep_impl`, `timeout_config`, `retry_config` and
/// `build`, then `Client::from_conf`: a client whose requests time out after
/// `timeout_secs` seconds and are tried at most `max_attempts` times.
/// `from_conf` panics where retries or timeouts are set without a sleep
/// implementation, so the default one is set in the same step.
#[verifier::external_body]
fn client_with_limits(base: aws_sdk_s3::config::Builder, max_attempts: u32, timeout_secs: u64) -> (r:
    aws_sdk_s3::Client) {
    let mut conf = base;
    conf.set_sleep_impl(aws_smithy_async::rt::sleep::default_async_sleep());
    let timeout = aws_smithy_types::timeout::TimeoutConfig::builder().operation_timeout(
        std::time::Duration::from_secs(timeout_secs),
    ).build();
    let retry = aws_smithy_types::retry::RetryConfig::standard().with_max_attempts(max_attempts);
    aws_sdk_s3::Client::from_conf(conf.timeout_config(timeout).retry_config(retry).build())
}

/// The configuration that a plan with explicit credentials starts from; `None`
/// for the default chain, whose configuration is discovered asynchronously by
/// the caller.
pub fn explicit_base(plan: &ClientPlan) -> (r: Option<aws_sdk_s3::config::Builder>)
    ensures
        r is Some <==> plan.credentials is Explicit,
{
    match &plan.credentials {
        CredentialSource::Explicit(creds) => Some(
            static_credentials_builder(plan.region.as_str(), creds),
        ),
        CredentialSource::DefaultChain => None,
    }
}

/// A client from a base configuration, with the plan's timeout and attempt count.
pub fn build_client(plan: &ClientPlan, base: aws_sdk_s3::config::Builder) -> (r: aws_sdk_s3::Client) {
    client_with_limits(base, plan.max_attempts, plan.timeout_secs)
}

} // verus!
