use kvstore::error::KvError;
use kvstore::shard::{shard_path, ShardRing};

#[test]
fn ring_selects_hash_mod_size() {
    let ring = ShardRing::new(5, 50051).unwrap();
    assert_eq!(ring.shard_count(), 5);
    assert_eq!(ring.instance_id(), 50051);
    for key in [&b"key1"[..], b"key2", b"", b"\x00\xff"] {
        let expected = (seahash::hash(key) % 5) as usize;
        assert_eq!(ring.select(key), expected);
        assert_eq!(ring.select(key), expected);
    }
}

#[test]
fn ring_of_zero_shards_is_a_configuration_error() {
    assert!(matches!(ShardRing::new(0, 1), Err(KvError::Configuration)));
}

#[test]
fn shard_path_names_instance_and_index() {
    assert_eq!(shard_path(50051, 3), "shard_50051_3");
    assert_eq!(shard_path(0, 0), "shard_0_0");
    assert_eq!(shard_path(65535, 10), "shard_65535_10");
    assert_eq!(shard_path(7, 120), "shard_7_120");
}

#[test]
fn shard_paths_are_distinct() {
    let mut all = Vec::new();
    for id in [1u16, 11, 12] {
        let ring = ShardRing::new(12, id).unwrap();
        let paths = ring.shard_paths();
        assert_eq!(paths.len(), 12);
        assert_eq!(paths[0], format!("shard_{}_0", id));
        all.extend(paths);
    }
    let n = all.len();
    all.sort();
    all.dedup();
    assert_eq!(all.len(), n);
}
