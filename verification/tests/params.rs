use crate_core::params::{copy_bytes, decode_u64, encode_u64, Parameters};

#[test]
fn encode_u64_writes_little_endian() {
    assert_eq!(encode_u64(100), vec![100u8, 0, 0, 0, 0, 0, 0, 0]);
    assert_eq!(encode_u64(0), vec![0u8; 8]);
    assert_eq!(encode_u64(u64::MAX), vec![255u8; 8]);
    assert_eq!(
        encode_u64(0x0807_0605_0403_0201),
        vec![1u8, 2, 3, 4, 5, 6, 7, 8]
    );
}

#[test]
fn decode_u64_reads_little_endian() {
    assert_eq!(decode_u64(&vec![1u8, 2, 3, 4, 5, 6, 7, 8]), 0x0807_0605_0403_0201);
    assert_eq!(decode_u64(&vec![0u8, 1, 0, 0, 0, 0, 0, 0]), 256);
    assert_eq!(decode_u64(&vec![255u8; 8]), u64::MAX);
}

#[test]
fn encode_then_decode_is_identity() {
    for value in [0u64, 1, 255, 256, 65_535, 1 << 32, u64::MAX - 1, u64::MAX] {
        assert_eq!(decode_u64(&encode_u64(value)), value);
    }
}

#[test]
fn parameters_start_empty() {
    let params = Parameters::new();
    assert!(!params.contains_key("threshold"));
    assert!(params.get("threshold").is_none());
    assert_eq!(params.get_u64("threshold"), None);
}

#[test]
fn parameters_insert_and_get() {
    let mut params = Parameters::new();
    params.insert("route".to_string(), vec![1, 2, 3]);
    assert!(params.contains_key("route"));
    assert_eq!(params.get("route"), Some(&vec![1u8, 2, 3]));
    params.insert("route".to_string(), vec![9]);
    assert_eq!(params.get("route"), Some(&vec![9u8]));
    assert!(!params.contains_key("other"));
}

#[test]
fn parameters_get_u64_needs_eight_bytes() {
    let mut params = Parameters::new();
    params.insert("short".to_string(), vec![1, 2, 3]);
    params.insert("long".to_string(), vec![0; 9]);
    params.insert("exact".to_string(), vec![44, 1, 0, 0, 0, 0, 0, 0]);
    assert_eq!(params.get_u64("short"), None);
    assert_eq!(params.get_u64("long"), None);
    assert_eq!(params.get_u64("exact"), Some(300));
    assert_eq!(params.get_u64("absent"), None);
}

#[test]
fn parameters_insert_u64_round_trips() {
    let mut params = Parameters::new();
    params.insert_u64("threshold".to_string(), 1_000_000_007);
    assert_eq!(params.get_u64("threshold"), Some(1_000_000_007));
    assert_eq!(
        params.get("threshold"),
        Some(&1_000_000_007u64.to_le_bytes().to_vec())
    );
}

#[test]
fn entries_list_every_name_once() {
    let mut params = Parameters::new();
    assert!(params.entries().is_empty());
    params.insert("b".to_string(), vec![2]);
    params.insert("a".to_string(), vec![1]);
    params.insert("b".to_string(), vec![3, 3]);
    params.insert_u64("c".to_string(), 5);
    let mut entries = params.entries();
    entries.sort();
    assert_eq!(
        entries,
        vec![
            ("a".to_string(), vec![1u8]),
            ("b".to_string(), vec![3u8, 3]),
            ("c".to_string(), vec![5u8, 0, 0, 0, 0, 0, 0, 0]),
        ]
    );
}

#[test]
fn copy_bytes_copies() {
    assert_eq!(copy_bytes(&vec![]), Vec::<u8>::new());
    assert_eq!(copy_bytes(&vec![4, 5, 6]), vec![4u8, 5, 6]);
}

#[test]
fn clone_holds_the_same_entries() {
    let mut params = Parameters::new();
    params.insert("a".to_string(), vec![1]);
    params.insert_u64("b".to_string(), 77);
    let copy = params.clone();
    params.insert("a".to_string(), vec![9]);
    params.insert("c".to_string(), vec![3]);
    assert_eq!(copy.get("a"), Some(&vec![1u8]));
    assert_eq!(copy.get_u64("b"), Some(77));
    assert!(!copy.contains_key("c"));
    assert_eq!(copy.entries().len(), 2);
    assert_eq!(params.get("a"), Some(&vec![9u8]));
}
