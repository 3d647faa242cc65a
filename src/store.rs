use vstd::prelude::*;
use vstd::slice::slice_to_vec;
use vstd::string::StringExecFns;
use vstd::utf8::{decode_utf8, encode_utf8, valid_utf8};

use crate::address::canonical_id_of;
use crate::backend::{finish_get, finish_put, WriteReport};
use crate::error::StorageError;
use crate::text::{encode_text, lemma_text_round_trip};

verus! {

/// The object a store keeps under one bucket and key.
pub struct StoredObject {
    pub bucket: String,
    pub key: String,
    pub body: Vec<u8>,
}

/// The body most recently stored under `bucket`/`key`, if any.
pub open spec fn latest(objs: Seq<StoredObject>, bucket: Seq<char>, key: Seq<char>) -> Option<
    Seq<u8>,
>
    decreases objs.len(),
{
    if objs.len() == 0 {
        None
    } else if objs.last().bucket@ == bucket && objs.last().key@ == key {
        Some(objs.last().body@)
    } else {
        latest(objs.drop_last(), bucket, key)
    }
}

/// The error code that a store gives for a missing object.
pub open spec fn no_such_key() -> Seq<char> {
    seq!['N', 'o', 'S', 'u', 'c', 'h', 'K', 'e', 'y']
}

/// An object store held in memory, each put atomic; it can be told to fail
/// every request with a service error code, as a stand-in for the remote
/// service.
pub struct MemoryStore {
    objects: Vec<StoredObject>,
    failure: Option<String>,
}

impl MemoryStore {
    /// The objects held, by bucket and key.
    pub closed spec fn objects_spec(&self) -> Map<(Seq<char>, Seq<char>), Seq<u8>> {
        Map::new(
            |p: (Seq<char>, Seq<char>)| latest(self.objects@, p.0, p.1) is Some,
            |p: (Seq<char>, Seq<char>)| latest(self.objects@, p.0, p.1)->Some_0,
        )
    }

    /// The error code with which every request fails, if any.
    pub closed spec fn failure_spec(&self) -> Option<Seq<char>> {
        match self.failure {
            Some(c) => Some(c@),
            None => None,
        }
    }

    /// An empty store that serves every request.
    pub fn new() -> (r: MemoryStore)
        ensures
            r.objects_spec() == Map::<(Seq<char>, Seq<char>), Seq<u8>>::empty(),
            r.failure_spec() is None,
    {
        let r = MemoryStore { objects: Vec::new(), failure: None };
        assert(r.objects_spec() =~= Map::<(Seq<char>, Seq<char>), Seq<u8>>::empty());
        r
    }

    /// From now on every request fails with the service error `code`.
    pub fn fail_with(&mut self, code: String)
        ensures
            final(self).objects_spec() == old(self).objects_spec(),
            final(self).failure_spec() == Some(code@),
    {
        self.failure = Some(code);
    }

    /// From now on requests are served again.
    pub fn recover(&mut self)
        ensures
            final(self).objects_spec() == old(self).objects_spec(),
            final(self).failure_spec() is None,
    {
        self.failure = None;
    }

    /// Stores `body` under `bucket`/`key`, all of it or, on failure, nothing.
    pub fn put_object(&mut self, bucket: &str, key: &str, body: Vec<u8>) -> (r: Result<
        (),
        StorageError,
    >)
        ensures
            old(self).failure_spec() matches Some(c) ==> (r matches Err(StorageError::Remote(e))
                && e@ == c),
            old(self).failure_spec() is Some ==> final(self).objects_spec() == old(
                self,
            ).objects_spec(),
            old(self).failure_spec() is None ==> r is Ok && final(self).objects_spec() == old(
                self,
            ).objects_spec().insert((bucket@, key@), body@),
            final(self).failure_spec() == old(self).failure_spec(),
    {
        match &self.failure {
            Some(c) => Err(StorageError::Remote(c.clone())),
            None => {
                let ghost before = self.objects_spec();
                self.objects.push(
                    StoredObject { bucket: String::from_str(bucket), key: String::from_str(key), body },
                );
                proof {
                    assert(self.objects@.drop_last() =~= old(self).objects@);
                    assert(self.objects_spec() =~= before.insert((bucket@, key@), body@));
                }
                Ok(())
            },
        }
    }

    /// The body stored under `bucket`/`key`; a missing object is the service
    /// error `NoSuchKey`.
    pub fn get_object(&self, bucket: &str, key: &str) -> (r: Result<Vec<u8>, StorageError>)
        ensures
            self.failure_spec() matches Some(c) ==> (r matches Err(StorageError::Remote(e)) && e@
                == c),
            self.failure_spec() is None && self.objects_spec().contains_key((bucket@, key@)) ==> (
            r matches Ok(b) && b@ == self.objects_spec()[(bucket@, key@)]),
            self.failure_spec() is None && !self.objects_spec().contains_key((bucket@, key@)) ==> (
            r matches Err(StorageError::Remote(e)) && e@ == no_such_key()),
    {
        if let Some(c) = &self.failure {
            return Err(StorageError::Remote(c.clone()));
        }
        let b = String::from_str(bucket);
        let k = String::from_str(key);
        let mut i: usize = self.objects.len();
        assert(self.objects@.take(i as int) =~= self.objects@);
        while i > 0
            invariant
                self.failure_spec() is None,
                i <= self.objects@.len(),
                b@ == bucket@,
                k@ == key@,
                latest(self.objects@, bucket@, key@) == latest(
                    self.objects@.take(i as int),
                    bucket@,
                    key@,
                ),
            decreases i,
        {
            let o = &self.objects[i - 1];
            proof {
                assert(self.objects@.take(i as int).drop_last() =~= self.objects@.take(i - 1));
            }
            if o.bucket == b && o.key == k {
                return Ok(slice_to_vec(o.body.as_slice()));
            }
            i = i - 1;
        }
        let missing = String::from_str("NoSuchKey");
        proof {
            reveal_strlit("NoSuchKey");
            assert(missing@ =~= no_such_key());
        }
        Err(StorageError::Remote(missing))
    }
}

/// Writes `content` as the object `bucket`/`key` of `store`.
pub fn write_object(store: &mut MemoryStore, bucket: &str, key: &str, content: &str) -> (r:
    WriteReport)
    ensures
        r.id@ == canonical_id_of(bucket@, key@),
        r.success <==> old(store).failure_spec() is None,
        r.success ==> final(store).objects_spec() == old(store).objects_spec().insert(
            (bucket@, key@),
            encode_utf8(content@),
        ),
        !r.success ==> final(store).objects_spec() == old(store).objects_spec(),
        final(store).failure_spec() == old(store).failure_spec(),
{
    let sent = store.put_object(bucket, key, encode_text(content));
    finish_put(bucket, key, sent)
}

/// Reads the object `bucket`/`key` of `store` as text.
pub fn read_object(store: &MemoryStore, bucket: &str, key: &str) -> (r: Result<String, StorageError>)
    ensures
        store.failure_spec() matches Some(c) ==> (r matches Err(StorageError::Remote(e)) && e@
            == c),
        store.failure_spec() is None && store.objects_spec().contains_key((bucket@, key@)) ==> (
        r is Ok <==> valid_utf8(store.objects_spec()[(bucket@, key@)])),
        store.failure_spec() is None && store.objects_spec().contains_key((bucket@, key@))
            && !valid_utf8(store.objects_spec()[(bucket@, key@)]) ==> r == Err::<
            String,
            StorageError,
        >(StorageError::InvalidEncoding),
        store.failure_spec() is None && store.objects_spec().contains_key((bucket@, key@))
            ==> (r matches Ok(s) ==> s@ == decode_utf8(store.objects_spec()[(bucket@, key@)])),
        store.failure_spec() is None && !store.objects_spec().contains_key((bucket@, key@)) ==> (
        r matches Err(StorageError::Remote(e)) && e@ == no_such_key()),
{
    finish_get(store.get_object(bucket, key))
}

/// A successful write followed by a read of the same object gives back exactly
/// the text written.
pub proof fn lemma_write_then_read(
    objects: Map<(Seq<char>, Seq<char>), Seq<u8>>,
    bucket: Seq<char>,
    key: Seq<char>,
    content: Seq<char>,
)
    ensures
        objects.insert((bucket, key), encode_utf8(content)).contains_key((bucket, key)),
        valid_utf8(objects.insert((bucket, key), encode_utf8(content))[(bucket, key)]),
        decode_utf8(objects.insert((bucket, key), encode_utf8(content))[(bucket, key)]) == content,
{
    lemma_text_round_trip(content);
}

} // verus!
