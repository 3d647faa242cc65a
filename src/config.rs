use vstd::prelude::*;
use vstd::string::StrSliceExecFns;

use crate::error::ConfigError;

verus! {

/// Attempts per request when nothing else is configured.
pub const DEFAULT_MAX_ATTEMPTS: u32 = 5;

/// Operation timeout in seconds when nothing else is configured.
pub const DEFAULT_TIMEOUT_SECS: u64 = 120;

/// The region used when none is given.
pub open spec fn default_region() -> Seq<char> {
    seq!['u', 's', '-', 'e', 'a', 's', 't', '-', '1']
}

/// What a caller may set for a dataset's remote backend.
#[derive(Clone, Debug)]
pub struct DatasetOptions {
    pub region: Option<String>,
    pub use_default_credentials: Option<bool>,
}

impl DatasetOptions {
    /// No option set: default region and default credential discovery.
    pub fn unset() -> (r: DatasetOptions)
        ensures
            r.region is None,
            r.use_default_credentials is None,
    {
        DatasetOptions { region: None, use_default_credentials: None }
    }

    /// Whether credentials come from the ambient default chain (the default).
    pub open spec fn uses_default_credentials(&self) -> bool {
        match self.use_default_credentials {
            Some(b) => b,
            None => true,
        }
    }

    /// The region in effect.
    pub open spec fn region_spec(&self) -> Seq<char> {
        match self.region {
            Some(r) => r@,
            None => default_region(),
        }
    }
}

/// Retry and timeout policy handed to the object-store client.
#[derive(Clone, Copy, Debug, PartialEq, Eq, Structural)]
pub struct ClientLimits {
    /// Attempts per request; one means no retry.
    pub max_attempts: u32,
    pub timeout_secs: u64,
}

impl ClientLimits {
    /// Five attempts and a timeout of two minutes.
    pub fn standard() -> (r: ClientLimits)
        ensures
            r.max_attempts == DEFAULT_MAX_ATTEMPTS,
            r.timeout_secs == DEFAULT_TIMEOUT_SECS,
    {
        ClientLimits { max_attempts: DEFAULT_MAX_ATTEMPTS, timeout_secs: DEFAULT_TIMEOUT_SECS }
    }
}

/// The credential variables as found in the environment (`None`: not set).
#[derive(Clone, Debug)]
pub struct EnvCredentials {
    pub access_key_id: Option<String>,
    pub secret_access_key: Option<String>,
    pub session_token: Option<String>,
}

impl EnvCredentials {
    /// The session token in effect: empty where none is set.
    pub open spec fn token_spec(&self) -> Seq<char> {
        match self.session_token {
            Some(t) => t@,
            None => Seq::<char>::empty(),
        }
    }
}

/// An explicit credential set.
#[derive(Clone, Debug)]
pub struct StaticCredentials {
    pub access_key_id: String,
    pub secret_access_key: String,
    /// Empty where no session token is set.
    pub session_token: String,
}

/// Where the client's credentials come from.
#[derive(Clone, Debug)]
pub enum CredentialSource {
    /// The ambient discovery of the object-store library.
    DefaultChain,
    Explicit(StaticCredentials),
}

/// Everything a client is built from.
#[derive(Clone, Debug)]
pub struct ClientPlan {
    pub region: String,
    pub credentials: CredentialSource,
    pub max_attempts: u32,
    pub timeout_secs: u64,
}

/// The region in effect: the one given, else `us-east-1`.
pub fn resolve_region(region: &Option<String>) -> (r: String)
    ensures
        r@ == (match region {
            Some(s) => s@,
            None => default_region(),
        }),
{
    match region {
        Some(s) => s.clone(),
        None => {
            let r = String::from_str("us-east-1");
            proof {
                reveal_strlit("us-east-1");
                assert(r@ =~= default_region());
            }
            r
        },
    }
}

/// An explicit credential set from the environment: the access key id and the
/// secret are required, the session token defaults to empty.
pub fn explicit_credentials(env: &EnvCredentials) -> (r: Result<StaticCredentials, ConfigError>)
    ensures
        env.access_key_id is None ==> r == Err::<StaticCredentials, ConfigError>(
            ConfigError::MissingAccessKeyId,
        ),
        env.access_key_id is Some && env.secret_access_key is None ==> r == Err::<
            StaticCredentials,
            ConfigError,
        >(ConfigError::MissingSecretAccessKey),
        r is Ok <==> env.access_key_id is Some && env.secret_access_key is Some,
        r matches Ok(c) ==> c.access_key_id@ == env.access_key_id->Some_0@
            && c.secret_access_key@ == env.secret_access_key->Some_0@ && c.session_token@ == env.token_spec(),
{
    let access_key_id = match &env.access_key_id {
        Some(k) => k.clone(),
        None => return Err(ConfigError::MissingAccessKeyId),
    };
    let secret_access_key = match &env.secret_access_key {
        Some(k) => k.clone(),
        None => return Err(ConfigError::MissingSecretAccessKey),
    };
    let session_token = match &env.session_token {
        Some(t) => t.clone(),
        None => String::new(),
    };
    Ok(StaticCredentials { access_key_id, secret_access_key, session_token })
}

/// The plan for a client: region and limits as given, credentials from the
/// default chain unless explicit ones were asked for, which must then be set.
pub fn plan_client(options: &DatasetOptions, limits: &ClientLimits, env: &EnvCredentials) -> (r:
    Result<ClientPlan, ConfigError>)
    ensures
        options.uses_default_credentials() ==> r is Ok,
        !options.uses_default_credentials() ==> (r is Ok <==> env.access_key_id is Some
            && env.secret_access_key is Some),
        !options.uses_default_credentials() && env.access_key_id is None ==> r == Err::<
            ClientPlan,
            ConfigError,
        >(ConfigError::MissingAccessKeyId),
        !options.uses_default_credentials() && env.access_key_id is Some
            && env.secret_access_key is None ==> r == Err::<ClientPlan, ConfigError>(
            ConfigError::MissingSecretAccessKey,
        ),
        r matches Ok(p) ==> p.region@ == options.region_spec() && p.max_attempts
            == limits.max_attempts && p.timeout_secs == limits.timeout_secs && (
        options.uses_default_credentials() <==> p.credentials is DefaultChain),
        r matches Ok(p) ==> (p.credentials matches CredentialSource::Explicit(c) ==> (
        c.access_key_id@ == env.access_key_id->Some_0@ && c.secret_access_key@
            == env.secret_access_key->Some_0@ && c.session_token@ == env.token_spec())),
{
    let use_default = match options.use_default_credentials {
        Some(b) => b,
        None => true,
    };
    let credentials = if use_default {
        CredentialSource::DefaultChain
    } else {
        match explicit_credentials(env) {
            Ok(c) => CredentialSource::Explicit(c),
            Err(e) => return Err(e),
        }
    };
    Ok(
        ClientPlan {
            region: resolve_region(&options.region),
            credentials,
            max_attempts: limits.max_attempts,
            timeout_secs: limits.timeout_secs,
        },
    )
}

/// Whether every character of `s` is an ASCII decimal digit.
pub open spec fn all_digits(s: Seq<char>) -> bool {
    forall|i: int| 0 <= i < s.len() ==> '0' <= #[trigger] s[i] <= '9'
}

/// The number that the decimal digits `s` write.
pub open spec fn digits_value(s: Seq<char>) -> int
    decreases s.len(),
{
    if s.len() == 0 {
        0
    } else {
        digits_value(s.drop_last()) * 10 + (s.last() as int - '0' as int)
    }
}

proof fn lemma_digits_value_prefix(s: Seq<char>, j: int)
    requires
        all_digits(s),
        0 <= j <= s.len(),
    ensures
        0 <= digits_value(s.take(j)) <= digits_value(s),
    decreases s.len(),
{
    if j < s.len() {
        let t = s.drop_last();
        assert(t.take(j) =~= s.take(j));
        lemma_digits_value_prefix(t, j);
        assert('0' <= s[s.len() - 1] <= '9');
    } else {
        assert(s.take(j) =~= s);
        if s.len() > 0 {
            lemma_digits_value_prefix(s.drop_last(), 0);
            assert('0' <= s[s.len() - 1] <= '9');
        }
    }
}

/// The digits of an unsigned number: the text after a leading `+`, if any.
pub open spec fn unsigned_digits(s: Seq<char>) -> Seq<char> {
    if s.len() > 0 && s[0] == '+' {
        s.drop_first()
    } else {
        s
    }
}

/// Whether `s` writes an unsigned decimal number no greater than `max`: an
/// optional `+` and then at least one digit.
pub open spec fn is_decimal_upto(s: Seq<char>, max: int) -> bool {
    &&& unsigned_digits(s).len() > 0
    &&& all_digits(unsigned_digits(s))
    &&& digits_value(unsigned_digits(s)) <= max
}

/// The number that an unsigned decimal text writes.
pub open spec fn decimal_value(s: Seq<char>) -> int {
    digits_value(unsigned_digits(s))
}

/// The value of the unsigned decimal number `s` (an optional `+`, then a
/// non-empty run of digits) where it is one and does not exceed `max`.
pub fn parse_decimal(s: &str, max: u64) -> (r: Option<u64>)
    ensures
        r is Some <==> is_decimal_upto(s@, max as int),
        r matches Some(v) ==> v == decimal_value(s@),
{
    let n = s.unicode_len();
    if n > 0 && s.get_char(0) == '+' {
        let rest = s.substring_char(1, n);
        assert(rest@ =~= s@.drop_first());
        parse_digits(rest, max)
    } else {
        parse_digits(s, max)
    }
}

/// The value of the digits `s` where they are a non-empty run of digits and
/// do not exceed `max`.
fn parse_digits(s: &str, max: u64) -> (r: Option<u64>)
    ensures
        r is Some <==> s@.len() > 0 && all_digits(s@) && digits_value(s@) <= max,
        r matches Some(v) ==> v == digits_value(s@),
{
    let n = s.unicode_len();
    if n == 0 {
        return None;
    }
    let mut v: u64 = 0;
    let mut i: usize = 0;
    while i < n
        invariant
            n == s@.len(),
            0 <= i <= n,
            all_digits(s@.take(i as int)),
            v == digits_value(s@.take(i as int)),
            v <= max,
        decreases n - i,
    {
        let c = s.get_char(i);
        assert(s@.take(i + 1).drop_last() =~= s@.take(i as int));
        if c < '0' || c > '9' {
            assert(!all_digits(s@));
            return None;
        }
        let next: u128 = v as u128 * 10 + (c as u32 - '0' as u32) as u128;
        assert(all_digits(s@.take(i + 1))) by {
            assert forall|k: int| 0 <= k < i + 1 implies '0' <= #[trigger] s@.take(i + 1)[k]
                <= '9' by {
                if k < i {
                    assert(s@.take(i + 1)[k] == s@.take(i as int)[k]);
                }
            }
        }
        if next > max as u128 {
            proof {
                if all_digits(s@) {
                    lemma_digits_value_prefix(s@, i + 1);
                }
            }
            return None;
        }
        v = next as u64;
        i = i + 1;
    }
    assert(s@.take(n as int) =~= s@);
    Some(v)
}

impl ClientLimits {
    /// Limits from their textual settings: each one not given keeps its
    /// default; one that is given must be an unsigned decimal number in its
    /// type's range.
    pub fn from_settings(max_attempts: Option<&str>, timeout_secs: Option<&str>) -> (r: Result<
        ClientLimits,
        ConfigError,
    >)
        ensures
            r is Ok <==> (max_attempts matches Some(a) ==> is_decimal_upto(a@, u32::MAX as int)) && (
            timeout_secs matches Some(t) ==> is_decimal_upto(t@, u64::MAX as int)),
            r is Err ==> r->Err_0 == ConfigError::InvalidNumber,
            r matches Ok(l) ==> l.max_attempts == (match max_attempts {
                Some(a) => decimal_value(a@),
                None => DEFAULT_MAX_ATTEMPTS as int,
            }) && l.timeout_secs == (match timeout_secs {
                Some(t) => decimal_value(t@),
                None => DEFAULT_TIMEOUT_SECS as int,
            }),
    {
        let attempts: u32 = match max_attempts {
            None => DEFAULT_MAX_ATTEMPTS,
            Some(a) => match parse_decimal(a, u32::MAX as u64) {
                Some(v) => v as u32,
                None => return Err(ConfigError::InvalidNumber),
            },
        };
        let timeout: u64 = match timeout_secs {
            None => DEFAULT_TIMEOUT_SECS,
            Some(t) => match parse_decimal(t, u64::MAX) {
                Some(v) => v,
                None => return Err(ConfigError::InvalidNumber),
            },
        };
        Ok(ClientLimits { max_attempts: attempts, timeout_secs: timeout })
    }
}

} // verus!
