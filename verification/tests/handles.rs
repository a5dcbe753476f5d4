use metric_storage::error::{ErrorKind, StorageError};
use metric_storage::handle::{decode_handle, encode_handle};
use metric_storage::statement::StatementCache;

#[test]
fn a_handle_has_eight_bytes_least_significant_first() {
    assert_eq!(encode_handle(0), vec![0u8, 0, 0, 0, 0, 0, 0, 0]);
    assert_eq!(encode_handle(1), vec![1u8, 0, 0, 0, 0, 0, 0, 0]);
    assert_eq!(encode_handle(256), vec![0u8, 1, 0, 0, 0, 0, 0, 0]);
    assert_eq!(encode_handle(0x0102030405060708), vec![8u8, 7, 6, 5, 4, 3, 2, 1]);
    assert_eq!(encode_handle(u64::MAX), vec![255u8; 8]);
}

#[test]
fn handles_agree_with_the_standard_library() {
    let values: [u64; 7] = [0, 1, 255, 256, 65535, 0xdeadbeefcafef00d, u64::MAX];
    for v in values {
        assert_eq!(encode_handle(v), v.to_le_bytes().to_vec());
        assert_eq!(decode_handle(&v.to_le_bytes()), Some(v));
    }
}

#[test]
fn a_handle_of_another_length_has_no_number() {
    assert_eq!(decode_handle(&[]), None);
    assert_eq!(decode_handle(&[1, 2, 3, 4, 5, 6, 7]), None);
    assert_eq!(decode_handle(&[1, 2, 3, 4, 5, 6, 7, 8, 9]), None);
    assert_eq!(decode_handle(&[8, 7, 6, 5, 4, 3, 2, 1]), Some(0x0102030405060708));
}

#[test]
fn prepared_handles_are_distinct() {
    let mut cache = StatementCache::new();
    let mut handles: Vec<Vec<u8>> = Vec::new();
    for i in 0..300 {
        let handle = cache.prepare(&format!("SELECT {}", i));
        assert_eq!(handle.len(), 8);
        assert!(!handles.contains(&handle));
        handles.push(handle);
    }
    assert_eq!(cache.len(), 300);
    assert_eq!(handles[0], 0u64.to_le_bytes().to_vec());
    assert_eq!(handles[299], 299u64.to_le_bytes().to_vec());
}

#[test]
fn a_prepared_handle_resolves_to_its_text() {
    let mut cache = StatementCache::new();
    let first = cache.prepare("SELECT 1");
    let second = cache.prepare("SELECT 2");
    assert_eq!(cache.resolve(&first), Ok("SELECT 1".to_string()));
    assert_eq!(cache.resolve(&second), Ok("SELECT 2".to_string()));
    let third = cache.prepare("SELECT 1");
    assert_ne!(first, third);
    assert_eq!(cache.resolve(&first), Ok("SELECT 1".to_string()));
    assert_eq!(cache.resolve(&third), Ok("SELECT 1".to_string()));
}

#[test]
fn an_unknown_handle_is_an_invalid_argument() {
    let mut cache = StatementCache::new();
    let unknown = 0u64.to_le_bytes();
    assert_eq!(
        cache.resolve(&unknown),
        Err(StorageError::InvalidArgument("Statement handle not found".to_string()))
    );
    cache.prepare("SELECT 1");
    assert!(cache.resolve(&unknown).is_ok());
    let e = cache.resolve(&1u64.to_le_bytes()).unwrap_err();
    assert_eq!(e.kind(), ErrorKind::InvalidArgument);
    assert_eq!(e.message(), "Statement handle not found");
    let e = cache.resolve(&u64::MAX.to_le_bytes()).unwrap_err();
    assert_eq!(e.kind(), ErrorKind::InvalidArgument);
}

#[test]
fn a_handle_of_the_wrong_length_is_an_invalid_argument() {
    let mut cache = StatementCache::new();
    cache.prepare("SELECT 1");
    for handle in [&[][..], &[0][..], &[0, 0, 0, 0][..], &[0, 0, 0, 0, 0, 0, 0, 0, 0][..]] {
        assert_eq!(
            cache.resolve(handle),
            Err(StorageError::InvalidArgument("Invalid statement handle".to_string()))
        );
    }
}
