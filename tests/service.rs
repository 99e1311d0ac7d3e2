use std::collections::HashMap;

use kvstore::error::KvError;
use kvstore::service::KVStoreService;

/// Shards held in memory, standing in for the storage engine.
struct Shards {
    service: KVStoreService,
    maps: Vec<HashMap<Vec<u8>, Vec<u8>>>,
}

impl Shards {
    fn new(n: usize) -> Shards {
        let service = KVStoreService::new(n, 1).unwrap();
        Shards { service, maps: (0..n).map(|_| HashMap::new()).collect() }
    }

    fn put(&mut self, key: &[u8], value: &[u8]) -> bool {
        let i = self.service.get_shard(key);
        self.maps[i].insert(key.to_vec(), value.to_vec());
        KVStoreService::put_reply(Ok(())).unwrap().success
    }

    fn get(&self, key: &[u8]) -> (Vec<u8>, bool) {
        let i = self.service.get_shard(key);
        let reply = KVStoreService::get_reply(Ok(self.maps[i].get(key).cloned())).unwrap();
        (reply.value, reply.found)
    }

    fn delete(&mut self, key: &[u8]) -> bool {
        let i = self.service.get_shard(key);
        self.maps[i].remove(key);
        KVStoreService::delete_reply(Ok(())).unwrap().success
    }
}

#[test]
fn put_then_get_returns_the_value() {
    let mut s = Shards::new(4);
    assert!(s.put(b"k", b"v"));
    assert_eq!(s.get(b"k"), (b"v".to_vec(), true));
    assert_eq!(s.get(b"never"), (Vec::new(), false));
}

#[test]
fn delete_then_get_reports_absent() {
    let mut s = Shards::new(4);
    assert!(s.put(b"k", b"v"));
    assert!(s.delete(b"k"));
    assert_eq!(s.get(b"k"), (Vec::new(), false));
    assert!(s.delete(b"absent"));
    assert_eq!(s.get(b"absent"), (Vec::new(), false));
}

#[test]
fn last_write_wins() {
    let mut s = Shards::new(4);
    s.put(b"k", b"v1");
    s.put(b"k", b"v2");
    assert_eq!(s.get(b"k"), (b"v2".to_vec(), true));
}

#[test]
fn ten_thousand_distinct_writes_are_all_kept() {
    let mut s = Shards::new(4);
    for i in 0..10_000 {
        assert!(s.put(format!("key{}", i).as_bytes(), format!("value{}", i).as_bytes()));
    }
    for i in 0..10_000 {
        assert_eq!(s.get(format!("key{}", i).as_bytes()), (format!("value{}", i).into_bytes(), true));
    }
    assert!(s.maps.iter().all(|m| !m.is_empty()));
}

#[test]
fn service_of_zero_shards_is_a_configuration_error() {
    assert!(matches!(KVStoreService::new(0, 1), Err(KvError::Configuration)));
}

#[test]
fn service_exposes_its_ring() {
    let s = KVStoreService::new(3, 9).unwrap();
    assert_eq!(s.shard_count(), 3);
    assert_eq!(s.shard_paths(), vec!["shard_9_0", "shard_9_1", "shard_9_2"]);
    assert_eq!(s.get_shard(b"key1"), (seahash::hash(b"key1") % 3) as usize);
}

#[test]
fn storage_failures_become_errors() {
    let e = "IO error: disk full".to_string();
    assert_eq!(KVStoreService::put_reply(Err(e.clone())).err(), Some(KvError::StorageFailure(e.clone())));
    assert_eq!(KVStoreService::get_reply(Err(e.clone())).err(), Some(KvError::StorageFailure(e.clone())));
    assert_eq!(KVStoreService::delete_reply(Err(e.clone())).err(), Some(KvError::StorageFailure(e)));
}

#[test]
fn empty_value_is_found() {
    let reply = KVStoreService::get_reply(Ok(Some(Vec::new()))).unwrap();
    assert!(reply.found);
    assert!(reply.value.is_empty());
}
