use vstd::prelude::*;

use crate::error::KvError;
use crate::hashing::{seahash_of, slot_of};
use crate::shard::{shard_path_of, ShardRing};

verus! {

/// The contents of a shard's storage engine: a map from keys to values.
pub type ShardContents = Map<Seq<u8>, Seq<u8>>;

/// The shard that owns `key` among `shards`.
pub open spec fn owner(shards: Seq<ShardContents>, key: Seq<u8>) -> int {
    slot_of(key, shards.len()) as int
}

/// What a storage engine answers to a read of `key`.
pub open spec fn engine_lookup(contents: ShardContents, key: Seq<u8>) -> Option<Seq<u8>> {
    if contents.contains_key(key) {
        Some(contents[key])
    } else {
        None
    }
}

/// The contents after a write of `value` at `key`: only the owning shard changes.
pub open spec fn after_put(shards: Seq<ShardContents>, key: Seq<u8>, value: Seq<u8>) -> Seq<
    ShardContents,
> {
    shards.update(owner(shards, key), shards[owner(shards, key)].insert(key, value))
}

/// The contents after a removal of `key`: only the owning shard changes.
pub open spec fn after_delete(shards: Seq<ShardContents>, key: Seq<u8>) -> Seq<ShardContents> {
    shards.update(owner(shards, key), shards[owner(shards, key)].remove(key))
}

/// The `(value, found)` pair that answers a read; an absent key gives an
/// empty value and `found == false`.
pub open spec fn reply_of(read: Option<Seq<u8>>) -> (Seq<u8>, bool) {
    match read {
        Some(v) => (v, true),
        None => (Seq::empty(), false),
    }
}

/// The view of an engine's answer to a read.
pub open spec fn read_view(read: Option<Vec<u8>>) -> Option<Seq<u8>> {
    match read {
        Some(v) => Some(v@),
        None => None,
    }
}

/// What a read of `key` through the service returns, on contents `shards`.
pub open spec fn service_get(shards: Seq<ShardContents>, key: Seq<u8>) -> (Seq<u8>, bool) {
    reply_of(engine_lookup(shards[owner(shards, key)], key))
}

/// Answer to a write.
pub struct PutReply {
    pub success: bool,
}

/// Answer to a read: the value, and whether the key was present.
pub struct GetReply {
    pub value: Vec<u8>,
    pub found: bool,
}

/// Answer to a removal.
pub struct DeleteReply {
    pub success: bool,
}

/// The server-side request handler: it picks the shard that owns each key and
/// turns the storage engine's outcomes into replies. Storage failures become
/// errors, never negative or successful replies.
pub struct KVStoreService {
    ring: ShardRing,
}

impl KVStoreService {
    /// The number of shards.
    pub closed spec fn size(&self) -> nat {
        self.ring.size()
    }

    /// The identity of the server instance.
    pub closed spec fn instance(&self) -> nat {
        self.ring.instance()
    }

    /// A service over `num_shards` shards of server instance `instance_id`;
    /// zero shards is a configuration error.
    pub fn new(num_shards: usize, instance_id: u16) -> (r: Result<KVStoreService, KvError>)
        ensures
            num_shards == 0 ==> r == Err::<KVStoreService, KvError>(KvError::Configuration),
            num_shards > 0 ==> r is Ok && r->Ok_0.size() == num_shards && r->Ok_0.instance()
                == instance_id,
    {
        match ShardRing::new(num_shards, instance_id) {
            Ok(ring) => Ok(KVStoreService { ring }),
            Err(e) => Err(e),
        }
    }

    /// The number of shards; never zero.
    pub fn shard_count(&self) -> (r: usize)
        ensures
            r == self.size(),
            r > 0,
    {
        self.ring.shard_count()
    }

    /// The storage path of each shard, in shard order; each is unique to the
    /// pair of instance identity and shard index.
    pub fn shard_paths(&self) -> (r: Vec<String>)
        ensures
            r@.len() == self.size(),
            forall|i: int| 0 <= i < r@.len() ==> #[trigger] r@[i]@ == shard_path_of(self.instance(), i as nat),
    {
        self.ring.shard_paths()
    }

    /// Index of the shard that serves `key`.
    pub fn get_shard(&self, key: &[u8]) -> (r: usize)
        ensures
            self.size() > 0,
            r as nat == slot_of(key@, self.size()),
            r < self.size(),
    {
        self.ring.select(key)
    }

    /// The reply to a write, from the owning shard's outcome.
    pub fn put_reply(outcome: Result<(), String>) -> (r: Result<PutReply, KvError>)
        ensures
            outcome is Ok ==> r is Ok && r->Ok_0.success,
            outcome is Err ==> r == Err::<PutReply, KvError>(KvError::StorageFailure(outcome->Err_0)),
    {
        match outcome {
            Ok(()) => Ok(PutReply { success: true }),
            Err(message) => Err(KvError::StorageFailure(message)),
        }
    }

    /// The reply to a read, from the owning shard's outcome.
    pub fn get_reply(outcome: Result<Option<Vec<u8>>, String>) -> (r: Result<GetReply, KvError>)
        ensures
            outcome is Ok ==> r is Ok && (r->Ok_0.value@, r->Ok_0.found) == reply_of(
                read_view(outcome->Ok_0),
            ),
            outcome is Err ==> r == Err::<GetReply, KvError>(KvError::StorageFailure(outcome->Err_0)),
    {
        match outcome {
            Ok(Some(value)) => Ok(GetReply { value, found: true }),
            Ok(None) => Ok(GetReply { value: Vec::new(), found: false }),
            Err(message) => Err(KvError::StorageFailure(message)),
        }
    }

    /// The reply to a removal, from the owning shard's outcome. Removing an
    /// absent key is no error.
    pub fn delete_reply(outcome: Result<(), String>) -> (r: Result<DeleteReply, KvError>)
        ensures
            outcome is Ok ==> r is Ok && r->Ok_0.success,
            outcome is Err ==> r == Err::<DeleteReply, KvError>(KvError::StorageFailure(outcome->Err_0)),
    {
        match outcome {
            Ok(()) => Ok(DeleteReply { success: true }),
            Err(message) => Err(KvError::StorageFailure(message)),
        }
    }
}

/// A write followed by a read of the same key returns the written value.
pub proof fn law_put_then_get(shards: Seq<ShardContents>, key: Seq<u8>, value: Seq<u8>)
    requires
        shards.len() > 0,
    ensures
        service_get(after_put(shards, key, value), key) == (value, true),
{
    assert(owner(after_put(shards, key, value), key) == owner(shards, key));
}

/// A read of a key that no shard holds reports it absent, with an empty value.
pub proof fn law_get_unwritten(shards: Seq<ShardContents>, key: Seq<u8>)
    requires
        shards.len() > 0,
        forall|i: int| 0 <= i < shards.len() ==> !(#[trigger] shards[i]).contains_key(key),
    ensures
        service_get(shards, key) == (Seq::<u8>::empty(), false),
{
    vstd::arithmetic::div_mod::lemma_mod_bound(seahash_of(key) as int, shards.len() as int);
}

/// A removal followed by a read of the same key reports it absent, whether or
/// not it was present before.
pub proof fn law_delete_then_get(shards: Seq<ShardContents>, key: Seq<u8>)
    requires
        shards.len() > 0,
    ensures
        service_get(after_delete(shards, key), key) == (Seq::<u8>::empty(), false),
{
    assert(owner(after_delete(shards, key), key) == owner(shards, key));
}

/// Of two writes to one key, the last one wins.
pub proof fn law_last_write_wins(
    shards: Seq<ShardContents>,
    key: Seq<u8>,
    first: Seq<u8>,
    second: Seq<u8>,
)
    requires
        shards.len() > 0,
    ensures
        service_get(after_put(after_put(shards, key, first), key, second), key) == (second, true),
{
    law_put_then_get(after_put(shards, key, first), key, second);
}

/// A write or a removal of one key leaves what a read of any other key returns
/// unchanged: writes to distinct keys are never lost.
pub proof fn law_writes_independent(
    shards: Seq<ShardContents>,
    written: Seq<u8>,
    value: Seq<u8>,
    other: Seq<u8>,
)
    requires
        shards.len() > 0,
        written != other,
    ensures
        service_get(after_put(shards, written, value), other) == service_get(shards, other),
        service_get(after_delete(shards, written), other) == service_get(shards, other),
{
    assert(owner(after_put(shards, written, value), other) == owner(shards, other));
    assert(owner(after_delete(shards, written), other) == owner(shards, other));
}

} // verus!
