//! A sharded key-value store: deterministic hash-mod placement of keys on the
//! shards of one server and on the servers of a cluster, round-robin server
//! selection, and a storage service that multiplexes requests over its shards.

pub mod hashing;
pub mod error;
pub mod router;
pub mod shard;
pub mod service;
pub mod workload;
