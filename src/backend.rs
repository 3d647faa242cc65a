use vstd::prelude::*;
use vstd::utf8::{decode_utf8, valid_utf8};

use crate::address::{canonical_id, canonical_id_of};
use crate::error::{IoErrorKind, StorageError};
use crate::text::decode_text;

verus! {

/// The result of writing one object: its canonical identifier, whatever
/// happened, and whether the write went through, with the error where not.
#[derive(Clone, Debug)]
pub struct WriteReport {
    pub id: String,
    pub success: bool,
    pub error: Option<StorageError>,
}

/// The report of a put of `bucket`/`key` whose request ended with `sent`.
pub fn finish_put(bucket: &str, key: &str, sent: Result<(), StorageError>) -> (r: WriteReport)
    ensures
        r.id@ == canonical_id_of(bucket@, key@),
        r.success <==> sent is Ok,
        r.error == (match sent {
            Ok(_) => None,
            Err(e) => Some(e),
        }),
{
    let id = canonical_id(bucket, key);
    match sent {
        Ok(()) => WriteReport { id, success: true, error: None },
        Err(e) => WriteReport { id, success: false, error: Some(e) },
    }
}

/// The text of an object from what its fetch returned: the fetch's error as
/// it is, `InvalidEncoding` for a body that is not UTF-8, else the decoded body.
/// An empty object gives `Ok` of the empty string, never an error.
pub fn finish_get(fetched: Result<Vec<u8>, StorageError>) -> (r: Result<String, StorageError>)
    ensures
        fetched matches Err(e) ==> r == Err::<String, StorageError>(e),
        fetched matches Ok(b) ==> (r is Ok <==> valid_utf8(b@)),
        fetched matches Ok(b) ==> !valid_utf8(b@) ==> r == Err::<String, StorageError>(
            StorageError::InvalidEncoding,
        ),
        fetched matches Ok(b) ==> (valid_utf8(b@) ==> r is Ok && r->Ok_0@ == decode_utf8(b@)),
{
    match fetched {
        Ok(bytes) => match decode_text(bytes) {
            Some(s) => Ok(s),
            None => Err(StorageError::InvalidEncoding),
        },
        Err(e) => Err(e),
    }
}

/// The text of a local file from what reading it returned: the I/O error as
/// it is, `InvalidEncoding` for content that is not UTF-8, else the content.
pub fn finish_local_read(read: Result<Vec<u8>, IoErrorKind>) -> (r: Result<String, StorageError>)
    ensures
        read matches Err(k) ==> r == Err::<String, StorageError>(StorageError::Io(k)),
        read matches Ok(b) ==> (r is Ok <==> valid_utf8(b@)),
        read matches Ok(b) ==> !valid_utf8(b@) ==> r == Err::<String, StorageError>(
            StorageError::Io(IoErrorKind::InvalidEncoding),
        ),
        read matches Ok(b) ==> (valid_utf8(b@) ==> r is Ok && r->Ok_0@ == decode_utf8(b@)),
{
    match read {
        Ok(bytes) => match decode_text(bytes) {
            Some(s) => Ok(s),
            None => Err(StorageError::Io(IoErrorKind::InvalidEncoding)),
        },
        Err(k) => Err(StorageError::Io(k)),
    }
}

} // verus!
