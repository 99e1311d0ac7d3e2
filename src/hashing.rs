use vstd::prelude::*;
use vstd::string::StringSliceAdditionalSpecFns;

verus! {

/// What seahash computes for a byte sequence. The hash is seedless, so the
/// value depends on the bytes alone, in every process and on every machine.
pub uninterp spec fn seahash_of(bytes: Seq<u8>) -> u64;

/// Relies on `seahash::hash`: a fixed, seedless function of the input bytes.
#[verifier::external_body]
fn hash_bytes(bytes: &[u8]) -> (r: u64)
    ensures
        r == seahash_of(bytes@),
{
    seahash::hash(bytes)
}

/// The slot that the hash-mod scheme assigns to a key among `n` slots.
pub open spec fn slot_of(key: Seq<u8>, n: nat) -> nat
    recommends
        n > 0,
{
    (seahash_of(key) as nat) % n
}

/// The hash of a key, as used for both shard and server selection.
pub fn key_hash(key: &[u8]) -> (r: u64)
    ensures
        r == seahash_of(key@),
{
    hash_bytes(key)
}

/// Index of the shard, among `num_shards`, that owns `key`.
pub fn calculate_shard(key: &[u8], num_shards: usize) -> (r: usize)
    requires
        num_shards > 0,
    ensures
        r as nat == slot_of(key@, num_shards as nat),
        r < num_shards,
{
    let h = hash_bytes(key);
    (h % (num_shards as u64)) as usize
}

/// Index of the server, among `num_servers`, that owns `key`. The key is hashed
/// through its UTF-8 bytes, with the same primitive as shard selection.
pub fn calculate_server(key: &str, num_servers: usize) -> (r: usize)
    requires
        num_servers > 0,
    ensures
        r as nat == slot_of(key.spec_bytes(), num_servers as nat),
        r < num_servers,
{
    let h = hash_bytes(key.as_bytes());
    (h % (num_servers as u64)) as usize
}

} // verus!
