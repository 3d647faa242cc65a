use vstd::prelude::*;

verus! {

/// Why building a client's configuration failed.
#[derive(Clone, Copy, Debug, PartialEq, Eq, Structural)]
pub enum ConfigError {
    /// Explicit credentials were asked for and no access key id is set.
    MissingAccessKeyId,
    /// Explicit credentials were asked for and no secret access key is set.
    MissingSecretAccessKey,
    /// A numeric setting is not a decimal number in range.
    InvalidNumber,
}

/// What went wrong with a local file.
#[derive(Clone, Copy, Debug, PartialEq, Eq, Structural)]
pub enum IoErrorKind {
    NotFound,
    PermissionDenied,
    InvalidEncoding,
    Other,
}

/// The error of any dataset operation.
#[derive(Clone, Debug, PartialEq, Eq)]
pub enum StorageError {
    /// A remote path with fewer than four `/`-separated segments.
    MalformedPath,
    /// A remote operation on a dataset that has no client yet.
    NotConnected,
    Config(ConfigError),
    Io(IoErrorKind),
    /// The object store refused or failed a request; the service's error
    /// code, empty where there is none (a transport failure).
    Remote(String),
    /// A remote dataset was accessed through a synchronous operation, which
    /// only a local dataset supports.
    SyncRemoteAccess,
    /// An object's body is not valid UTF-8.
    InvalidEncoding,
}

} // verus!
