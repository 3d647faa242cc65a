use vstd::prelude::*;

use crate::address::{
    addressable,
    bucket_of,
    classify,
    key_of,
    kind_of,
    remote_address,
    BackendKind,
    RemoteAddress,
};
use crate::client::build_client;
use crate::config::{
    plan_client,
    ClientLimits,
    ClientPlan,
    CredentialSource,
    DatasetOptions,
    EnvCredentials,
};
use crate::error::{ConfigError, StorageError};

verus! {

/// Where an operation on a dataset goes.
pub enum Target {
    /// A file, by its path as given.
    Local(String),
    /// An object, by bucket and key.
    Remote(RemoteAddress),
}

/// One logical file on either backend. The backend is fixed from the path when
/// the dataset is made; a remote dataset holds a client once connected.
pub struct Dataset {
    path: String,
    kind: BackendKind,
    options: DatasetOptions,
    client: Option<aws_sdk_s3::Client>,
}

impl Dataset {
    pub closed spec fn path_spec(&self) -> Seq<char> {
        self.path@
    }

    pub closed spec fn kind_spec(&self) -> BackendKind {
        self.kind
    }

    pub closed spec fn options_spec(&self) -> DatasetOptions {
        self.options
    }

    pub closed spec fn connected(&self) -> bool {
        self.client is Some
    }

    /// The backend is the one the path selects, and only a remote dataset has a client.
    pub open spec fn wf(&self) -> bool {
        &&& self.kind_spec() == kind_of(self.path_spec())
        &&& self.connected() ==> self.kind_spec() == BackendKind::Remote
    }

    /// A dataset for `path` with no options set.
    pub fn new(path: String) -> (r: Dataset)
        ensures
            r.wf(),
            r.path_spec() == path@,
            r.kind_spec() == kind_of(path@),
            r.options_spec().region is None,
            r.options_spec().use_default_credentials is None,
            !r.connected(),
    {
        Dataset::with_options(path, DatasetOptions::unset())
    }

    /// A dataset for `path` whose remote client will be made with `options`.
    pub fn with_options(path: String, options: DatasetOptions) -> (r: Dataset)
        ensures
            r.wf(),
            r.path_spec() == path@,
            r.kind_spec() == kind_of(path@),
            r.options_spec() == options,
            !r.connected(),
    {
        let kind = classify(path.as_str());
        Dataset { path, kind, options, client: None }
    }

    pub fn path(&self) -> (r: &str)
        ensures
            r@ == self.path_spec(),
    {
        self.path.as_str()
    }

    pub fn kind(&self) -> (r: BackendKind)
        ensures
            r == self.kind_spec(),
    {
        self.kind
    }

    pub fn options(&self) -> (r: &DatasetOptions)
        ensures
            *r == self.options_spec(),
    {
        &self.options
    }

    pub fn is_connected(&self) -> (r: bool)
        ensures
            r == self.connected(),
    {
        self.client.is_some()
    }

    /// The client of a connected remote dataset.
    pub fn client(&self) -> (r: Option<&aws_sdk_s3::Client>)
        ensures
            r is Some <==> self.connected(),
    {
        self.client.as_ref()
    }

    /// What a client for this dataset is built from: nothing for a local
    /// dataset; for a remote one the plan of `plan_client` on its options, or
    /// its configuration error.
    pub fn connection_plan(&self, limits: &ClientLimits, env: &EnvCredentials) -> (r: Result<
        Option<ClientPlan>,
        StorageError,
    >)
        ensures
            self.kind_spec() == BackendKind::Local ==> r == Ok::<
                Option<ClientPlan>,
                StorageError,
            >(None),
            self.kind_spec() == BackendKind::Remote ==> (r is Ok <==> (
            self.options_spec().uses_default_credentials() || (env.access_key_id is Some
                && env.secret_access_key is Some))),
            self.kind_spec() == BackendKind::Remote && r is Ok ==> (r->Ok_0 matches Some(p) && (
            p.region@ == self.options_spec().region_spec() && p.max_attempts
                == limits.max_attempts && p.timeout_secs == limits.timeout_secs && (
            self.options_spec().uses_default_credentials() <==> p.credentials is DefaultChain))),
            self.kind_spec() == BackendKind::Remote && !self.options_spec().uses_default_credentials()
                && env.access_key_id is None ==> r == Err::<Option<ClientPlan>, StorageError>(
                StorageError::Config(ConfigError::MissingAccessKeyId),
            ),
            self.kind_spec() == BackendKind::Remote && !self.options_spec().uses_default_credentials()
                && env.access_key_id is Some && env.secret_access_key is None ==> r == Err::<
                Option<ClientPlan>,
                StorageError,
            >(StorageError::Config(ConfigError::MissingSecretAccessKey)),
            r matches Ok(Some(p)) ==> (p.credentials matches CredentialSource::Explicit(c) ==> (
            c.access_key_id@ == env.access_key_id->Some_0@ && c.secret_access_key@
                == env.secret_access_key->Some_0@ && c.session_token@ == env.token_spec())),
    {
        match self.kind {
            BackendKind::Local => Ok(None),
            BackendKind::Remote => match plan_client(&self.options, limits, env) {
                Ok(p) => Ok(Some(p)),
                Err(e) => Err(StorageError::Config(e)),
            },
        }
    }

    /// Gives a remote dataset a fresh client from `base`, with the plan's
    /// limits, replacing any earlier one; a local dataset is left as it is.
    pub fn connect(&mut self, plan: &ClientPlan, base: aws_sdk_s3::config::Builder)
        requires
            old(self).wf(),
            plan.region@ == old(self).options_spec().region_spec(),
            old(self).options_spec().uses_default_credentials() <==> plan.credentials is DefaultChain,
        ensures
            final(self).wf(),
            final(self).path_spec() == old(self).path_spec(),
            final(self).kind_spec() == old(self).kind_spec(),
            final(self).options_spec() == old(self).options_spec(),
            final(self).connected() <==> old(self).kind_spec() == BackendKind::Remote,
    {
        if self.kind == BackendKind::Remote {
            self.client = Some(build_client(plan, base));
        }
    }

    /// Where an operation goes: a local dataset's path as given; a remote
    /// dataset's bucket and key, or `MalformedPath` for a path of fewer than
    /// four segments, or `NotConnected` before a client is attached.
    pub fn target(&self) -> (r: Result<Target, StorageError>)
        requires
            self.wf(),
        ensures
            self.kind_spec() == BackendKind::Local ==> (r matches Ok(Target::Local(p))
                && p@ == self.path_spec()),
            self.kind_spec() == BackendKind::Remote && !addressable(self.path_spec()) ==> r
                == Err::<Target, StorageError>(StorageError::MalformedPath),
            self.kind_spec() == BackendKind::Remote && addressable(self.path_spec())
                && !self.connected() ==> r == Err::<Target, StorageError>(
                StorageError::NotConnected,
            ),
            self.kind_spec() == BackendKind::Remote && addressable(self.path_spec())
                && self.connected() ==> (r matches Ok(Target::Remote(a)) && a.bucket@
                == bucket_of(self.path_spec()) && a.key@ == key_of(self.path_spec())),
    {
        match self.kind {
            BackendKind::Local => Ok(Target::Local(self.path.clone())),
            BackendKind::Remote => match remote_address(self.path.as_str()) {
                Err(e) => Err(e),
                Ok(a) => if self.client.is_some() {
                    Ok(Target::Remote(a))
                } else {
                    Err(StorageError::NotConnected)
                },
            },
        }
    }
}

} // verus!
