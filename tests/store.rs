use smart_dataset::backend::{finish_get, finish_local_read, finish_put};
use smart_dataset::error::{IoErrorKind, StorageError};
use smart_dataset::store::{read_object, write_object, MemoryStore};
use smart_dataset::text::{decode_text, encode_text};

#[test]
fn failed_put_reports_id_and_leaves_nothing() {
    let mut store = MemoryStore::new();
    store.fail_with("SlowDown".to_string());
    let r = write_object(&mut store, "data", "a/b.txt", "hello");
    assert_eq!(r.id, "s3://data/a/b.txt");
    assert!(!r.success);
    assert_eq!(r.error, Some(StorageError::Remote("SlowDown".to_string())));
    store.recover();
    assert_eq!(read_object(&store, "data", "a/b.txt"), Err(StorageError::Remote("NoSuchKey".to_string())));
}

#[test]
fn failed_put_keeps_the_earlier_object() {
    let mut store = MemoryStore::new();
    assert!(write_object(&mut store, "b", "k", "first").success);
    store.fail_with("InternalError".to_string());
    assert!(!write_object(&mut store, "b", "k", "second").success);
    store.recover();
    assert_eq!(read_object(&store, "b", "k"), Ok("first".to_string()));
}

#[test]
fn failed_get_differs_from_empty_object() {
    let mut store = MemoryStore::new();
    assert!(write_object(&mut store, "b", "empty", "").success);
    assert_eq!(read_object(&store, "b", "empty"), Ok(String::new()));
    store.fail_with("AccessDenied".to_string());
    assert_eq!(read_object(&store, "b", "empty"), Err(StorageError::Remote("AccessDenied".to_string())));
}

#[test]
fn write_then_read_round_trip() {
    let mut store = MemoryStore::new();
    let r = write_object(&mut store, "b", "x/y", "héllo\nwörld");
    assert_eq!(r.id, "s3://b/x/y");
    assert!(r.success);
    assert_eq!(r.error, None);
    assert_eq!(read_object(&store, "b", "x/y"), Ok("héllo\nwörld".to_string()));
    assert!(write_object(&mut store, "b", "x/y", "again").success);
    assert_eq!(read_object(&store, "b", "x/y"), Ok("again".to_string()));
    assert!(matches!(read_object(&store, "other", "x/y"), Err(StorageError::Remote(_))));
}

#[test]
fn get_of_invalid_utf8_is_an_encoding_error() {
    let mut store = MemoryStore::new();
    assert!(store.put_object("b", "k", vec![0xff, 0xfe]).is_ok());
    assert_eq!(read_object(&store, "b", "k"), Err(StorageError::InvalidEncoding));
}

#[test]
fn finish_put_success_and_failure() {
    let ok = finish_put("data", "a/b.txt", Ok(()));
    assert_eq!((ok.id.as_str(), ok.success), ("s3://data/a/b.txt", true));
    let bad = finish_put("data", "a/b.txt", Err(StorageError::Remote(String::new())));
    assert_eq!((bad.id.as_str(), bad.success), ("s3://data/a/b.txt", false));
}

#[test]
fn finish_get_passes_errors_through() {
    assert_eq!(finish_get(Ok(b"abc".to_vec())), Ok("abc".to_string()));
    assert_eq!(finish_get(Ok(Vec::new())), Ok(String::new()));
    assert_eq!(finish_get(Err(StorageError::Remote("NoSuchBucket".to_string()))), Err(StorageError::Remote("NoSuchBucket".to_string())));
    assert_eq!(finish_get(Ok(vec![0xc3])), Err(StorageError::InvalidEncoding));
}

#[test]
fn finish_local_read_kinds() {
    assert_eq!(finish_local_read(Ok("é".as_bytes().to_vec())), Ok("é".to_string()));
    assert_eq!(finish_local_read(Err(IoErrorKind::NotFound)), Err(StorageError::Io(IoErrorKind::NotFound)));
    assert_eq!(finish_local_read(Err(IoErrorKind::PermissionDenied)), Err(StorageError::Io(IoErrorKind::PermissionDenied)));
    assert_eq!(finish_local_read(Ok(vec![0x80])), Err(StorageError::Io(IoErrorKind::InvalidEncoding)));
}

#[test]
fn text_encoding_round_trip() {
    let bytes = encode_text("ünïcode ✓");
    assert_eq!(bytes, "ünïcode ✓".as_bytes());
    assert_eq!(decode_text(bytes), Some("ünïcode ✓".to_string()));
    assert_eq!(decode_text(vec![0xed, 0xa0, 0x80]), None);
}
