//! Tests of the request-frame builders: each frame byte for byte.

use memcache_client::request::{
    build_arith_frame, build_delete_frame, build_get_frame, build_get_multi_frame,
    build_metadump_frame, build_stats_frame, build_store_frame, build_version_frame, StoreVerb,
};

#[test]
fn get_frame_bytes() {
    assert_eq!(build_get_frame(b"foo"), b"get foo\r\n".to_vec());
}

#[test]
fn get_multi_frame_bytes() {
    let keys = vec![b"a".to_vec(), b"b".to_vec()];
    assert_eq!(build_get_multi_frame(&keys), b"get a b \r\n".to_vec());
}

#[test]
fn get_multi_frame_of_no_keys() {
    let keys: Vec<Vec<u8>> = vec![];
    assert_eq!(build_get_multi_frame(&keys), b"get \r\n".to_vec());
}

#[test]
fn set_frame_with_default_ttl_and_flags() {
    let frame = build_store_frame(StoreVerb::SetCommand, b"k", b"hello", None, None, false);
    assert_eq!(frame, b"set k 0 0 5\r\nhello\r\n".to_vec());
}

#[test]
fn set_frame_with_explicit_ttl_and_flags() {
    let frame = build_store_frame(
        StoreVerb::SetCommand,
        b"k",
        b"hello",
        Some(-1),
        Some(42),
        false,
    );
    assert_eq!(frame, b"set k 42 -1 5\r\nhello\r\n".to_vec());
}

#[test]
fn set_frame_no_reply() {
    let frame = build_store_frame(StoreVerb::SetCommand, b"k", b"hello", None, None, true);
    assert_eq!(frame, b"set k 0 0 5 noreply\r\nhello\r\n".to_vec());
}

#[test]
fn add_frame_bytes() {
    let frame = build_store_frame(StoreVerb::AddCommand, b"key2", b"vv", Some(60), None, false);
    assert_eq!(frame, b"add key2 0 60 2\r\nvv\r\n".to_vec());
}

#[test]
fn incr_frame_bytes() {
    assert_eq!(build_arith_frame(false, b"cnt", 1, false), b"incr cnt 1\r\n".to_vec());
    assert_eq!(
        build_arith_frame(false, b"cnt", u64::MAX, false),
        b"incr cnt 18446744073709551615\r\n".to_vec()
    );
}

#[test]
fn decr_frame_bytes() {
    assert_eq!(build_arith_frame(true, b"cnt", 2, false), b"decr cnt 2\r\n".to_vec());
    assert_eq!(
        build_arith_frame(true, b"cnt", 7, true),
        b"decr cnt 7 noreply\r\n".to_vec()
    );
}

#[test]
fn delete_frame_bytes() {
    assert_eq!(build_delete_frame(b"k", false), b"delete k\r\n".to_vec());
    assert_eq!(build_delete_frame(b"k", true), b"delete k noreply\r\n".to_vec());
}

#[test]
fn fixed_frames_bytes() {
    assert_eq!(build_version_frame(), b"version\r\n".to_vec());
    assert_eq!(build_stats_frame(), b"stats\r\n".to_vec());
    assert_eq!(build_metadump_frame(), b"lru_crawler metadump all\r\n".to_vec());
}
