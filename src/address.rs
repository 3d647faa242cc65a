use vstd::prelude::*;

use crate::error::StorageError;

verus! {

/// The length of the first `/`-separated segment of `s`.
pub open spec fn segment_len(s: Seq<char>) -> nat
    decreases s.len(),
{
    if s.len() == 0 || s[0] == '/' {
        0
    } else {
        1 + segment_len(s.drop_first())
    }
}

/// `s` split on every `/`; never empty.
pub open spec fn split_path(s: Seq<char>) -> Seq<Seq<char>>
    decreases s.len(),
{
    let n = segment_len(s);
    if n >= s.len() {
        seq![s]
    } else {
        seq![s.take(n as int)] + split_path(s.skip(n + 1int))
    }
}

/// The segments joined back together, with a `/` between each two.
pub open spec fn join_segments(segs: Seq<Seq<char>>) -> Seq<char>
    decreases segs.len(),
{
    if segs.len() == 0 {
        seq![]
    } else if segs.len() == 1 {
        segs[0]
    } else {
        segs[0] + seq!['/'] + join_segments(segs.drop_first())
    }
}

/// The first segment of a remote path.
pub open spec fn scheme_token() -> Seq<char> {
    seq!['s', '3', ':']
}

/// Which of the two backends stores a dataset.
#[derive(Clone, Copy, Debug, PartialEq, Eq, Structural)]
pub enum BackendKind {
    Local,
    Remote,
}

/// The backend that a path selects: remote exactly when its first segment is `s3:`.
pub open spec fn kind_of(p: Seq<char>) -> BackendKind {
    if split_path(p)[0] == scheme_token() {
        BackendKind::Remote
    } else {
        BackendKind::Local
    }
}

/// A path has remote addressing when it has at least four segments.
pub open spec fn addressable(p: Seq<char>) -> bool {
    split_path(p).len() >= 4
}

/// The bucket of a remote path: its third segment.
pub open spec fn bucket_of(p: Seq<char>) -> Seq<char> {
    split_path(p)[2]
}

/// The key of a remote path: the segments from the fourth on, joined by `/`.
pub open spec fn key_of(p: Seq<char>) -> Seq<char> {
    join_segments(split_path(p).skip(3))
}

/// The display form `s3://<bucket>/<key>` of an object.
pub open spec fn canonical_id_of(bucket: Seq<char>, key: Seq<char>) -> Seq<char> {
    seq!['s', '3', ':', '/', '/'] + bucket + seq!['/'] + key
}

pub proof fn lemma_segment_len(t: Seq<char>, k: int)
    requires
        0 <= k <= t.len(),
        forall|i: int| 0 <= i < k ==> t[i] != '/',
        k == t.len() || t[k] == '/',
    ensures
        segment_len(t) == k,
    decreases k,
{
    if k > 0 {
        let u = t.drop_first();
        assert forall|i: int| 0 <= i < k - 1 implies u[i] != '/' by {
            assert(u[i] == t[i + 1]);
        }
        lemma_segment_len(u, k - 1);
    }
}

/// The first segment ends at the first slash, or at the end of the string.
pub proof fn lemma_segment_len_bound(t: Seq<char>)
    ensures
        segment_len(t) <= t.len(),
        forall|i: int| 0 <= i < segment_len(t) ==> t[i] != '/',
        segment_len(t) < t.len() ==> t[segment_len(t) as int] == '/',
    decreases t.len(),
{
    if t.len() > 0 && t[0] != '/' {
        let u = t.drop_first();
        lemma_segment_len_bound(u);
        assert forall|i: int| 0 <= i < segment_len(t) implies t[i] != '/' by {
            if i > 0 {
                assert(t[i] == u[i - 1]);
            }
        }
    }
}

/// Splitting a string and joining the segments again gives the string back.
pub proof fn lemma_join_split(s: Seq<char>)
    ensures
        join_segments(split_path(s)) == s,
    decreases s.len(),
{
    let n = segment_len(s);
    lemma_segment_len_bound(s);
    if n < s.len() {
        let rest = s.skip(n + 1int);
        lemma_join_split(rest);
        lemma_segment_len_bound(rest);
        let segs = split_path(s);
        assert(segs.drop_first() =~= split_path(rest));
        assert(segs.len() >= 2) by {
            reveal_with_fuel(split_path, 2);
        }
        assert(s =~= s.take(n as int) + seq!['/'] + rest);
    }
}

/// With its first slash at `a`, a string splits into the text before it and
/// the segments after it.
pub proof fn lemma_first_slash(s: Seq<char>, a: int)
    requires
        0 <= a < s.len(),
        s[a] == '/',
        forall|i: int| 0 <= i < a ==> s[i] != '/',
    ensures
        split_path(s) == seq![s.take(a)] + split_path(s.skip(a + 1)),
        segment_len(s) == a,
{
    lemma_segment_len(s, a);
}

/// Without a slash, a string is a single segment.
pub proof fn lemma_no_slash(s: Seq<char>)
    requires
        forall|i: int| 0 <= i < s.len() ==> s[i] != '/',
    ensures
        split_path(s) == seq![s],
{
    lemma_segment_len(s, s.len() as int);
}

/// The first `/` in `s` at or after `from`, if any.
fn find_slash(s: &str, from: usize) -> (r: Option<usize>)
    requires
        from <= s@.len(),
    ensures
        match r {
            Some(j) => from <= j < s@.len() && s@[j as int] == '/' && forall|i: int|
                from <= i < j ==> s@[i] != '/',
            None => forall|i: int| from <= i < s@.len() ==> s@[i] != '/',
        },
{
    let n = s.unicode_len();
    let mut j: usize = from;
    while j < n
        invariant
            n == s@.len(),
            from <= j <= n,
            forall|i: int| from <= i < j ==> s@[i] != '/',
        decreases n - j,
    {
        if s.get_char(j) == '/' {
            return Some(j);
        }
        j = j + 1;
    }
    None
}

/// The backend that `path` selects.
pub fn classify(path: &str) -> (r: BackendKind)
    ensures
        r == kind_of(path@),
{
    let n = path.unicode_len();
    let first_end: usize = match find_slash(path, 0) {
        Some(a) => {
            proof {
                lemma_first_slash(path@, a as int);
            }
            a
        },
        None => {
            proof {
                lemma_no_slash(path@);
                assert(path@.take(n as int) =~= path@);
            }
            n
        },
    };
    assert(split_path(path@)[0] =~= path@.take(first_end as int));
    if first_end == 3 && path.get_char(0) == 's' && path.get_char(1) == '3' && path.get_char(2)
        == ':' {
        assert(path@.take(3) =~= scheme_token());
        BackendKind::Remote
    } else {
        proof {
            if first_end == 3 && path@.take(3) == scheme_token() {
                assert(path@.take(3)[0] == 's');
                assert(path@.take(3)[1] == '3');
                assert(path@.take(3)[2] == ':');
            }
        }
        BackendKind::Local
    }
}

/// The bucket and key of an object.
pub struct RemoteAddress {
    pub bucket: String,
    pub key: String,
}

/// Splits a remote path into its bucket (third segment) and key (the rest);
/// a path with fewer than four segments is malformed.
pub fn remote_address(path: &str) -> (r: Result<RemoteAddress, StorageError>)
    ensures
        r is Ok <==> addressable(path@),
        r is Err ==> r->Err_0 == StorageError::MalformedPath,
        r matches Ok(a) ==> a.bucket@ == bucket_of(path@) && a.key@ == key_of(path@),
{
    let ghost s = path@;
    let n = path.unicode_len();
    let a = match find_slash(path, 0) {
        Some(a) => a,
        None => {
            proof {
                lemma_no_slash(s);
            }
            return Err(StorageError::MalformedPath);
        },
    };
    let ghost s1 = s.skip(a + 1);
    proof {
        lemma_first_slash(s, a as int);
    }
    let b = match find_slash(path, a + 1) {
        Some(b) => b,
        None => {
            proof {
                assert forall|i: int| 0 <= i < s1.len() implies s1[i] != '/' by {
                    assert(s1[i] == s[i + a + 1]);
                }
                lemma_no_slash(s1);
            }
            return Err(StorageError::MalformedPath);
        },
    };
    let ghost b1 = b - a - 1;
    let ghost s2 = s1.skip(b1 + 1);
    proof {
        assert forall|i: int| 0 <= i < b1 implies s1[i] != '/' by {
            assert(s1[i] == s[i + a + 1]);
        }
        assert(s1[b1] == s[b as int]);
        lemma_first_slash(s1, b1);
        assert(s2 =~= s.skip(b + 1));
    }
    let c = match find_slash(path, b + 1) {
        Some(c) => c,
        None => {
            proof {
                assert forall|i: int| 0 <= i < s2.len() implies s2[i] != '/' by {
                    assert(s2[i] == s[i + b + 1]);
                }
                lemma_no_slash(s2);
            }
            return Err(StorageError::MalformedPath);
        },
    };
    let ghost c1 = c - b - 1;
    let ghost s3 = s2.skip(c1 + 1);
    proof {
        assert forall|i: int| 0 <= i < c1 implies s2[i] != '/' by {
            assert(s2[i] == s[i + b + 1]);
        }
        assert(s2[c1] == s[c as int]);
        lemma_first_slash(s2, c1);
        assert(s3 =~= s.skip(c + 1));
        assert(split_path(s).skip(3) =~= split_path(s3));
        lemma_join_split(s3);
        assert(s2.take(c1) =~= s.subrange(b + 1, c as int));
    }
    let bucket = path.substring_char(b + 1, c).to_string();
    let key = path.substring_char(c + 1, n).to_string();
    proof {
        assert(s.subrange(c + 1, n as int) =~= s3);
    }
    Ok(RemoteAddress { bucket, key })
}

/// The display form `s3://<bucket>/<key>` of an object.
pub fn canonical_id(bucket: &str, key: &str) -> (r: String)
    ensures
        r@ == canonical_id_of(bucket@, key@),
{
    let mut id = String::from_str("s3://");
    id.append(bucket);
    id.append("/");
    id.append(key);
    proof {
        reveal_strlit("s3://");
        reveal_strlit("/");
        assert(id@ =~= canonical_id_of(bucket@, key@));
    }
    id
}

/// A canonical identifier read back as a remote path gives the same object:
/// for a bucket without `/`, `s3://<bucket>/<key>` is remote, well formed, and
/// addresses exactly that bucket and key.
pub proof fn lemma_canonical_id_addresses(bucket: Seq<char>, key: Seq<char>)
    requires
        forall|i: int| 0 <= i < bucket.len() ==> bucket[i] != '/',
    ensures
        kind_of(canonical_id_of(bucket, key)) == BackendKind::Remote,
        addressable(canonical_id_of(bucket, key)),
        bucket_of(canonical_id_of(bucket, key)) == bucket,
        key_of(canonical_id_of(bucket, key)) == key,
{
    let p = canonical_id_of(bucket, key);
    let p1 = p.skip(4);
    let p2 = p1.skip(1);
    let p3 = p2.skip(bucket.len() + 1int);
    assert(p1 =~= seq!['/'] + bucket + seq!['/'] + key);
    assert(p2 =~= bucket + seq!['/'] + key);
    assert(p3 =~= key);
    lemma_first_slash(p, 3);
    assert(p.take(3) =~= scheme_token());
    lemma_first_slash(p1, 0);
    assert forall|i: int| 0 <= i < bucket.len() implies p2[i] != '/' by {
        assert(p2[i] == bucket[i]);
    }
    lemma_first_slash(p2, bucket.len() as int);
    assert(p2.take(bucket.len() as int) =~= bucket);
    lemma_join_split(key);
    assert(split_path(p).skip(3) =~= split_path(key));
}

} // verus!
