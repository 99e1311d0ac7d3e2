use vstd::prelude::*;
use vstd::string::StringExecFns;

use crate::error::KvError;
use crate::hashing::{calculate_shard, slot_of};

verus! {

/// The character of a decimal digit.
pub open spec fn digit_char(d: nat) -> char {
    if d == 0 {
        '0'
    } else if d == 1 {
        '1'
    } else if d == 2 {
        '2'
    } else if d == 3 {
        '3'
    } else if d == 4 {
        '4'
    } else if d == 5 {
        '5'
    } else if d == 6 {
        '6'
    } else if d == 7 {
        '7'
    } else if d == 8 {
        '8'
    } else {
        '9'
    }
}

/// The decimal notation of `n`, without leading zeros.
pub open spec fn decimal(n: nat) -> Seq<char>
    decreases n,
{
    if n < 10 {
        seq![digit_char(n)]
    } else {
        decimal(n / 10).push(digit_char(n % 10))
    }
}

/// The storage path of shard `index` of the server instance `instance_id`:
/// `shard_<instance_id>_<index>`.
pub open spec fn shard_path_of(instance_id: nat, index: nat) -> Seq<char> {
    seq!['s', 'h', 'a', 'r', 'd', '_'] + decimal(instance_id) + seq!['_'] + decimal(index)
}

fn digit_str(d: u64) -> (r: &'static str)
    requires
        d < 10,
    ensures
        r@ == seq![digit_char(d as nat)],
{
    proof {
        reveal_strlit("0");
        reveal_strlit("1");
        reveal_strlit("2");
        reveal_strlit("3");
        reveal_strlit("4");
        reveal_strlit("5");
        reveal_strlit("6");
        reveal_strlit("7");
        reveal_strlit("8");
        reveal_strlit("9");
    }
    if d == 0 {
        "0"
    } else if d == 1 {
        "1"
    } else if d == 2 {
        "2"
    } else if d == 3 {
        "3"
    } else if d == 4 {
        "4"
    } else if d == 5 {
        "5"
    } else if d == 6 {
        "6"
    } else if d == 7 {
        "7"
    } else if d == 8 {
        "8"
    } else {
        "9"
    }
}

fn append_decimal(s: &mut String, n: u64)
    ensures
        final(s)@ == old(s)@ + decimal(n as nat),
    decreases n,
{
    if n >= 10 {
        append_decimal(s, n / 10);
    }
    s.append(digit_str(n % 10));
    proof {
        if n >= 10 {
            assert(final(s)@ =~= old(s)@ + decimal(n as nat));
        } else {
            assert(final(s)@ =~= old(s)@ + decimal(n as nat));
        }
    }
}

/// The storage path of shard `index` of the server instance `instance_id`.
pub fn shard_path(instance_id: u16, index: usize) -> (r: String)
    ensures
        r@ == shard_path_of(instance_id as nat, index as nat),
{
    let mut s = String::new();
    s.append("shard_");
    append_decimal(&mut s, instance_id as u64);
    s.append("_");
    append_decimal(&mut s, index as u64);
    proof {
        reveal_strlit("shard_");
        reveal_strlit("_");
        assert(s@ =~= shard_path_of(instance_id as nat, index as nat));
    }
    s
}

proof fn lemma_decimal_digits(n: nat)
    ensures
        decimal(n).len() >= 1,
        forall|k: int| 0 <= k < decimal(n).len() ==> #[trigger] decimal(n)[k] != '_',
    decreases n,
{
    if n >= 10 {
        lemma_decimal_digits(n / 10);
    }
}

proof fn lemma_decimal_injective(a: nat, b: nat)
    requires
        decimal(a) == decimal(b),
    ensures
        a == b,
    decreases a,
{
    lemma_decimal_digits(a / 10);
    lemma_decimal_digits(b / 10);
    if a >= 10 && b >= 10 {
        assert(decimal(a / 10) =~= decimal(a).drop_last());
        assert(decimal(b / 10) =~= decimal(b).drop_last());
        lemma_decimal_injective(a / 10, b / 10);
        assert(decimal(a).last() == digit_char(a % 10));
        assert(decimal(b).last() == digit_char(b % 10));
        assert(a % 10 == b % 10);
        assert(a == 10 * (a / 10) + a % 10);
        assert(b == 10 * (b / 10) + b % 10);
    } else if a < 10 && b < 10 {
        assert(decimal(a)[0] == digit_char(a));
        assert(decimal(b)[0] == digit_char(b));
    } else if a < 10 {
        assert(decimal(b).len() == decimal(b / 10).len() + 1);
    } else {
        assert(decimal(a).len() == decimal(a / 10).len() + 1);
    }
}

/// No two shards share a storage path: distinct (instance, index) pairs give
/// distinct paths, so shards of one instance, and of different instances on a
/// shared filesystem, never alias the same on-disk storage.
pub proof fn law_shard_paths_distinct(a: nat, i: nat, b: nat, j: nat)
    requires
        shard_path_of(a, i) == shard_path_of(b, j),
    ensures
        a == b,
        i == j,
{
    let p = shard_path_of(a, i);
    let da = decimal(a);
    let db = decimal(b);
    lemma_decimal_digits(a);
    lemma_decimal_digits(b);
    lemma_decimal_digits(i);
    lemma_decimal_digits(j);
    if da.len() < db.len() {
        assert(p[6 + da.len() as int] == '_');
        assert(shard_path_of(b, j)[6 + da.len() as int] == db[da.len() as int]);
    } else if db.len() < da.len() {
        assert(shard_path_of(b, j)[6 + db.len() as int] == '_');
        assert(p[6 + db.len() as int] == da[db.len() as int]);
    } else {
        assert(da =~= p.subrange(6, 6 + da.len() as int));
        assert(db =~= shard_path_of(b, j).subrange(6, 6 + db.len() as int));
        lemma_decimal_injective(a, b);
        assert(decimal(i) =~= p.subrange(7 + da.len() as int, p.len() as int));
        assert(decimal(j) =~= shard_path_of(b, j).subrange(7 + db.len() as int, p.len() as int));
        lemma_decimal_injective(i, j);
    }
}

/// The fixed set of shards of one server instance, and the selection of the
/// shard that owns a key. The number of shards never changes.
pub struct ShardRing {
    num_shards: usize,
    instance_id: u16,
}

impl ShardRing {
    #[verifier::type_invariant]
    spec fn inv(&self) -> bool {
        self.num_shards > 0
    }

    /// The number of shards.
    pub closed spec fn size(&self) -> nat {
        self.num_shards as nat
    }

    /// The identity of the server instance that owns the shards.
    pub closed spec fn instance(&self) -> nat {
        self.instance_id as nat
    }

    /// Builds the ring of `num_shards` shards of server instance `instance_id`;
    /// zero shards is a configuration error.
    pub fn new(num_shards: usize, instance_id: u16) -> (r: Result<ShardRing, KvError>)
        ensures
            num_shards == 0 ==> r == Err::<ShardRing, KvError>(KvError::Configuration),
            num_shards > 0 ==> r is Ok && r->Ok_0.size() == num_shards && r->Ok_0.instance()
                == instance_id,
    {
        if num_shards == 0 {
            Err(KvError::Configuration)
        } else {
            Ok(ShardRing { num_shards, instance_id })
        }
    }

    /// The number of shards; never zero.
    pub fn shard_count(&self) -> (r: usize)
        ensures
            r == self.size(),
            r > 0,
    {
        proof {
            use_type_invariant(self);
        }
        self.num_shards
    }

    /// The identity of the server instance that owns the shards.
    pub fn instance_id(&self) -> (r: u16)
        ensures
            r == self.instance(),
    {
        self.instance_id
    }

    /// Index of the shard that owns `key`: `hash(key) mod shard_count`. Every
    /// key has exactly one owner, and it depends on the key and the size alone.
    pub fn select(&self, key: &[u8]) -> (r: usize)
        ensures
            self.size() > 0,
            r as nat == slot_of(key@, self.size()),
            r < self.size(),
    {
        proof {
            use_type_invariant(self);
        }
        calculate_shard(key, self.num_shards)
    }

    /// The storage path of each shard, in shard order.
    pub fn shard_paths(&self) -> (r: Vec<String>)
        ensures
            r@.len() == self.size(),
            forall|i: int| 0 <= i < r@.len() ==> #[trigger] r@[i]@ == shard_path_of(self.instance(), i as nat),
    {
        let mut paths: Vec<String> = Vec::new();
        let mut i: usize = 0;
        while i < self.num_shards
            invariant
                i <= self.num_shards,
                paths@.len() == i,
                forall|j: int| 0 <= j < i ==> #[trigger] paths@[j]@ == shard_path_of(self.instance(), j as nat),
            decreases self.num_shards - i,
        {
            paths.push(shard_path(self.instance_id, i));
            i = i + 1;
        }
        paths
    }
}

} // verus!
