use vstd::prelude::*;
use vstd::string::StringSliceAdditionalSpecFns;

use crate::error::KvError;
use crate::hashing::{calculate_server, slot_of};

verus! {

/// Client-side resolver from a key to the server that owns it, by hash-mod
/// over a fixed, non-empty list of server addresses.
pub struct Router {
    servers: Vec<String>,
}

impl Router {
    #[verifier::type_invariant]
    spec fn inv(&self) -> bool {
        self.servers@.len() > 0
    }

    /// The configured server addresses, in order.
    pub closed spec fn servers(&self) -> Seq<String> {
        self.servers@
    }

    /// Builds a router over `servers`; an empty list is a configuration error.
    pub fn new(servers: Vec<String>) -> (r: Result<Router, KvError>)
        ensures
            servers@.len() == 0 ==> r == Err::<Router, KvError>(KvError::Configuration),
            servers@.len() > 0 ==> r is Ok && r->Ok_0.servers() == servers@,
    {
        if servers.len() == 0 {
            Err(KvError::Configuration)
        } else {
            Ok(Router { servers })
        }
    }

    /// The number of configured servers; never zero.
    pub fn server_count(&self) -> (r: usize)
        ensures
            r == self.servers().len(),
            r > 0,
    {
        proof {
            use_type_invariant(self);
        }
        self.servers.len()
    }

    /// Index of the server that owns `key`: `hash(key) mod server_count`.
    pub fn route_index(&self, key: &str) -> (r: usize)
        ensures
            self.servers().len() > 0,
            r as nat == slot_of(key.spec_bytes(), self.servers().len()),
    {
        proof {
            use_type_invariant(self);
        }
        calculate_server(key, self.servers.len())
    }

    /// Address of the server that owns `key`. The choice depends on the key
    /// and the configured list alone, never on earlier calls.
    pub fn route(&self, key: &str) -> (r: &String)
        ensures
            self.servers().len() > 0,
            *r == self.servers()[slot_of(key.spec_bytes(), self.servers().len()) as int],
    {
        let i = self.route_index(key);
        &self.servers[i]
    }
}

/// The cursor that follows `cursor` in a rotation over `n` servers.
pub open spec fn next_cursor(cursor: nat, n: nat) -> nat
    recommends
        n > 0,
{
    (cursor + 1) % n
}

/// The cursor of a fresh balancer over `n` servers after `calls` calls.
pub open spec fn cursor_after(n: nat, calls: nat) -> nat
    decreases calls,
{
    if calls == 0 {
        0
    } else {
        next_cursor(cursor_after(n, (calls - 1) as nat), n)
    }
}

/// Client-side round-robin selector over a fixed, non-empty list of server
/// addresses. The cursor is its only mutable state.
pub struct LoadBalancer {
    servers: Vec<String>,
    index: usize,
}

impl LoadBalancer {
    #[verifier::type_invariant]
    spec fn inv(&self) -> bool {
        &&& self.servers@.len() > 0
        &&& self.index < self.servers@.len()
    }

    /// The configured server addresses, in order.
    pub closed spec fn servers(&self) -> Seq<String> {
        self.servers@
    }

    /// The position of the server that the next call hands out.
    pub closed spec fn cursor(&self) -> nat {
        self.index as nat
    }

    /// Builds a balancer over `servers` with its cursor at the first one; an
    /// empty list is a configuration error.
    pub fn new(servers: Vec<String>) -> (r: Result<LoadBalancer, KvError>)
        ensures
            servers@.len() == 0 ==> r == Err::<LoadBalancer, KvError>(KvError::Configuration),
            servers@.len() > 0 ==> r is Ok && r->Ok_0.servers() == servers@ && r->Ok_0.cursor()
                == 0,
    {
        if servers.len() == 0 {
            Err(KvError::Configuration)
        } else {
            Ok(LoadBalancer { servers, index: 0 })
        }
    }

    /// Hands out the server at the cursor and advances the cursor, wrapping
    /// after the last server.
    pub fn get_next_server(&mut self) -> (r: String)
        ensures
            old(self).servers().len() > 0,
            old(self).cursor() < old(self).servers().len(),
            r == old(self).servers()[old(self).cursor() as int],
            final(self).servers() == old(self).servers(),
            final(self).cursor() == next_cursor(old(self).cursor(), old(self).servers().len()),
    {
        proof {
            use_type_invariant(&*self);
        }
        let n = self.servers.len();
        let server = self.servers[self.index].clone();
        self.index = (self.index + 1) % n;
        server
    }
}

/// Round robin: from a fresh balancer over `n` servers, call number `i`
/// (counting from zero) hands out server `i mod n`. So the first `n` calls
/// hand out each server exactly once, in the configured order, and the next
/// `n` calls repeat them identically.
pub proof fn law_round_robin(n: nat, i: nat)
    requires
        n > 0,
    ensures
        cursor_after(n, i) == i % n,
        i < n ==> cursor_after(n, i) == i,
        cursor_after(n, i + n) == cursor_after(n, i),
{
    lemma_cursor_after_mod(n, i);
    lemma_cursor_after_mod(n, i + n);
    vstd::arithmetic::div_mod::lemma_mod_add_multiples_vanish(i as int, n as int);
    if i < n {
        vstd::arithmetic::div_mod::lemma_small_mod(i, n);
    }
}

proof fn lemma_cursor_after_mod(n: nat, i: nat)
    requires
        n > 0,
    ensures
        cursor_after(n, i) == i % n,
    decreases i,
{
    if i > 0 {
        lemma_cursor_after_mod(n, (i - 1) as nat);
        let prev = (i - 1) as nat;
        vstd::arithmetic::div_mod::lemma_add_mod_noop_right(1, prev as int, n as int);
        assert(cursor_after(n, i) == (prev % n + 1) % n);
        assert(1 + prev == i);
    } else {
        vstd::arithmetic::div_mod::lemma_small_mod(0, n);
    }
}

} // verus!
