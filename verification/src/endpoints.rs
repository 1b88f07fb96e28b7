use vstd::prelude::*;

verus! {

use vstd::arithmetic::div_mod::{
    lemma_add_mod_noop_right, lemma_mod_add_multiples_vanish, lemma_small_mod,
};

use crate::errors::ExecError;

/// An ordered pool of RPC endpoint URLs with a round-robin rotation index.
///
/// Selection is pure cycling: a submission failure is followed by an
/// explicit `rotate` from the caller before a retry; the pool itself never
/// skips or reorders endpoints.
pub struct EndpointPool {
    endpoints: Vec<String>,
    current: usize,
}

/// Where the rotation index lands after one rotation of a pool of `n`
/// endpoints whose index stands at `cur`.
pub open spec fn spec_rotate_index(cur: int, n: int) -> int {
    if n > 0 {
        (cur + 1) % n
    } else {
        cur
    }
}

/// Where the rotation index lands after `k` rotations.
pub open spec fn spec_rotate_index_n(cur: int, n: int, k: nat) -> int
    decreases k,
{
    if k == 0 {
        cur
    } else {
        spec_rotate_index(spec_rotate_index_n(cur, n, (k - 1) as nat), n)
    }
}

impl EndpointPool {
    /// The configured endpoint URLs, in order.
    pub closed spec fn spec_endpoints(self) -> Seq<Seq<char>> {
        self.endpoints@.map_values(|e: String| e@)
    }

    /// The active rotation index.
    pub closed spec fn spec_current(self) -> int {
        self.current as int
    }

    /// The rotation index stays inside the pool; an empty pool keeps it at zero.
    pub open spec fn wf(self) -> bool {
        if self.spec_endpoints().len() == 0 {
            self.spec_current() == 0
        } else {
            0 <= self.spec_current() < self.spec_endpoints().len()
        }
    }

    /// Builds a pool over the given endpoints with the rotation index at the
    /// first one.
    pub fn new(endpoints: Vec<String>) -> (p: EndpointPool)
        ensures
            p.wf(),
            p.spec_endpoints() == endpoints@.map_values(|e: String| e@),
            p.spec_current() == 0,
    {
        EndpointPool { endpoints, current: 0 }
    }

    /// The endpoint at the active rotation index; `PoolEmpty` when no
    /// endpoints were configured.
    pub fn current(&self) -> (r: Result<String, ExecError>)
        requires
            self.wf(),
        ensures
            self.spec_endpoints().len() > 0 ==> (r matches Ok(e) && e@
                == self.spec_endpoints()[self.spec_current()]),
            self.spec_endpoints().len() == 0 ==> r == Err::<String, ExecError>(ExecError::PoolEmpty),
    {
        if self.endpoints.len() == 0 {
            Err(ExecError::PoolEmpty)
        } else {
            Ok(self.endpoints[self.current].clone())
        }
    }

    /// Advances the active index by one, modulo the pool size; a no-op on an
    /// empty pool.
    pub fn rotate(&mut self)
        requires
            old(self).wf(),
        ensures
            final(self).wf(),
            final(self).spec_endpoints() == old(self).spec_endpoints(),
            final(self).spec_current() == spec_rotate_index(
                old(self).spec_current(),
                old(self).spec_endpoints().len() as int,
            ),
    {
        if self.endpoints.len() > 0 {
            self.current = (self.current + 1) % self.endpoints.len();
        }
    }
}

/// Law: `k` rotations of a pool of `n` endpoints move the index from `cur`
/// to `(cur + k) % n`.
pub proof fn lemma_rotate_index_n(cur: int, n: int, k: nat)
    requires
        0 < n,
        0 <= cur < n,
    ensures
        spec_rotate_index_n(cur, n, k) == (cur + k) % n,
    decreases k,
{
    if k == 0 {
        lemma_small_mod(cur as nat, n as nat);
    } else {
        lemma_rotate_index_n(cur, n, (k - 1) as nat);
        assert(spec_rotate_index_n(cur, n, k) == ((cur + k - 1) % n + 1) % n);
        lemma_add_mod_noop_right(1, cur + k - 1, n);
        assert((1 + (cur + k - 1) % n) % n == (1 + (cur + k - 1)) % n);
        assert(((cur + k - 1) % n + 1) % n == (cur + k) % n);
    }
}

/// Law: rotating as many times as the pool has endpoints returns the pool to
/// the endpoint it started at.
pub proof fn lemma_rotate_full_cycle(cur: int, n: int)
    requires
        0 < n,
        0 <= cur < n,
    ensures
        spec_rotate_index_n(cur, n, n as nat) == cur,
{
    lemma_rotate_index_n(cur, n, n as nat);
    lemma_mod_add_multiples_vanish(cur, n);
    lemma_small_mod(cur as nat, n as nat);
}

} // verus!
