//! The IP-pool dispatch core: a fixed, non-empty set of client handles,
//! one per configured source address, and the policy that picks which
//! handle serves each outgoing call.

use vstd::prelude::*;
use crate::net::IpAddress;

verus! {

/// reqwest's asynchronous HTTP client, declared so pool values can own
/// handles. The library treats a handle as opaque: it is built once at
/// pool construction and only ever picked and cloned.
#[verifier::external_type_specification]
#[verifier::external_body]
pub struct ExClient(reqwest::Client);

/// reqwest's error type, the builder's failure value; the pool maps it at
/// once to its own `ConstructionError`.
#[verifier::external_type_specification]
#[verifier::external_body]
pub struct ExReqwestError(reqwest::Error);

/// The selection policy a pool is built with, fixed thereafter.
#[derive(Debug, Clone, Copy, PartialEq, Eq, Structural)]
pub enum SelectionAlgorithm {
    /// Each call independently picks a uniformly random handle.
    Random,
    /// A cursor starts at index 0 and advances by one per call, wrapping
    /// to 0 after the last handle.
    RoundRobin,
}

/// Why a pool could not be built.
#[derive(Debug, Clone, Copy, PartialEq, Eq, Structural)]
pub enum ConstructionError {
    /// The supplied address sequence was empty.
    EmptyPool,
    /// No client handle could be built for this address.
    BindFailure(IpAddress),
}

/// Relies on reqwest's `ClientBuilder`: `local_address` makes outbound
/// connections bind to the given local address, and `build` returns the
/// client or the builder's error. No network I/O happens here, so nothing
/// is promised of the outcome.
#[verifier::external_body]
fn bind_client(addr: &IpAddress) -> Result<reqwest::Client, reqwest::Error> {
    let ip: core::net::IpAddr = match *addr {
        IpAddress::V4(a, b, c, d) => core::net::IpAddr::V4(core::net::Ipv4Addr::new(a, b, c, d)),
        IpAddress::V6(a, b, c, d, e, f, g, h) => core::net::IpAddr::V6(
            core::net::Ipv6Addr::new(a, b, c, d, e, f, g, h),
        ),
    };
    reqwest::Client::builder().local_address(ip).build()
}

/// Relies on `reqwest::Client::clone`: a client is a shared handle (an
/// `Arc` internally) and its clone is the same handle.
#[verifier::external_body]
pub(crate) fn clone_client(c: &reqwest::Client) -> (r: reqwest::Client)
    ensures
        r == *c,
{
    c.clone()
}

/// Relies on `rand::random_range`: sampling `0..bound` yields a value
/// below `bound`; the range is non-empty, so it does not panic.
#[verifier::external_body]
pub(crate) fn random_below(bound: usize) -> (r: usize)
    requires
        bound > 0,
    ensures
        r < bound,
{
    rand::random_range(0..bound)
}

/// The cursor after one round-robin step: the next index, wrapping to 0
/// after the last one.
pub open spec fn rr_next(c: nat, k: nat) -> nat {
    if c + 1 == k {
        0
    } else {
        c + 1
    }
}

/// The index the round-robin policy yields on the `j`-th call after the
/// cursor stood at `c`, in a pool of size `k`.
pub open spec fn rr_iter(c: nat, j: nat, k: nat) -> nat
    decreases j,
{
    if j == 0 {
        c
    } else {
        rr_next(rr_iter(c, (j - 1) as nat, k), k)
    }
}

/// A pool of pre-bound outbound client handles, one per configured source
/// address, in the configured order, plus the selection algorithm and the
/// round-robin cursor. Immutable after construction except the cursor.
pub struct IpPool {
    pub addresses: Vec<IpAddress>,
    pub clients: Vec<reqwest::Client>,
    pub algorithm: SelectionAlgorithm,
    pub cursor: usize,
}

impl IpPool {
    /// The pool's invariant: one handle per address, at least one address,
    /// and the cursor in range. Construction establishes it and every
    /// method keeps it.
    pub open spec fn wf(&self) -> bool {
        &&& self.clients@.len() == self.addresses@.len()
        &&& self.addresses@.len() > 0
        &&& (self.cursor as nat) < self.addresses@.len()
    }

    /// How many handles the pool holds.
    pub open spec fn size(&self) -> nat {
        self.addresses@.len()
    }

    /// Build a pool with one live handle per address, in the given order,
    /// carrying the chosen algorithm. Fails with `EmptyPool` exactly when
    /// the address sequence is empty, and with `BindFailure` on the first
    /// address whose handle the client builder refuses.
    pub fn construct(addresses: Vec<IpAddress>, algorithm: SelectionAlgorithm) -> (r: Result<
        IpPool,
        ConstructionError,
    >)
        ensures
            addresses@.len() == 0 <==> r == Err::<IpPool, ConstructionError>(
                ConstructionError::EmptyPool,
            ),
            r matches Err(ConstructionError::BindFailure(a)) ==> addresses@.contains(a),
            r matches Ok(p) ==> p.wf() && p.addresses == addresses && p.algorithm == algorithm
                && p.cursor == 0,
    {
        if addresses.len() == 0 {
            return Err(ConstructionError::EmptyPool);
        }
        let mut clients: Vec<reqwest::Client> = Vec::new();
        let mut i: usize = 0;
        while i < addresses.len()
            invariant
                i <= addresses@.len(),
                clients@.len() == i as nat,
                addresses@.len() > 0,
            decreases addresses@.len() - i,
        {
            match bind_client(&addresses[i]) {
                Ok(c) => {
                    clients.push(c);
                },
                Err(_) => {
                    let a = addresses[i];
                    proof {
                        assert(addresses@.contains(a)) by {
                            assert(addresses@[i as int] == a);
                        }
                    }
                    return Err(ConstructionError::BindFailure(a));
                },
            }
            i = i + 1;
        }
        Ok(IpPool { addresses, clients, algorithm, cursor: 0 })
    }

    /// Pick the index of the handle that serves the next call. Under
    /// round robin it returns the cursor and advances it by exactly one
    /// step modulo pool size; under random selection it returns some
    /// index below the pool size and leaves the cursor alone.
    pub fn select_index(&mut self) -> (i: usize)
        requires
            old(self).wf(),
        ensures
            final(self).wf(),
            final(self).addresses == old(self).addresses,
            final(self).clients == old(self).clients,
            final(self).algorithm == old(self).algorithm,
            (i as nat) < old(self).size(),
            old(self).algorithm == SelectionAlgorithm::RoundRobin ==> i == old(self).cursor
                && final(self).cursor as nat == rr_next(old(self).cursor as nat, old(self).size()),
            old(self).algorithm == SelectionAlgorithm::Random ==> final(self).cursor == old(
                self,
            ).cursor,
    {
        match self.algorithm {
            SelectionAlgorithm::RoundRobin => {
                let n = self.addresses.len();
                let i = self.cursor;
                if self.cursor + 1 == n {
                    self.cursor = 0;
                } else {
                    self.cursor = self.cursor + 1;
                }
                i
            },
            SelectionAlgorithm::Random => random_below(self.addresses.len()),
        }
    }

    /// A clone of the handle the algorithm picks: always one of the
    /// pool's own handles, and under round robin exactly the one at the
    /// cursor. Never fails: the pool is non-empty by construction.
    pub fn get_client(&mut self) -> (c: reqwest::Client)
        requires
            old(self).wf(),
        ensures
            final(self).wf(),
            final(self).addresses == old(self).addresses,
            final(self).clients == old(self).clients,
            final(self).algorithm == old(self).algorithm,
            exists|i: int| 0 <= i < old(self).clients@.len() && c == old(self).clients@[i],
            old(self).algorithm == SelectionAlgorithm::RoundRobin ==> c == old(self).clients@[old(
                self,
            ).cursor as int] && final(self).cursor as nat == rr_next(
                old(self).cursor as nat,
                old(self).size(),
            ),
            old(self).algorithm == SelectionAlgorithm::Random ==> final(self).cursor == old(
                self,
            ).cursor,
    {
        let i = self.select_index();
        let c = clone_client(&self.clients[i]);
        proof {
            assert(c == old(self).clients@[i as int]);
        }
        c
    }

    /// How many handles the pool holds, as a machine integer.
    pub fn len(&self) -> (n: usize)
        ensures
            n as nat == self.size(),
    {
        self.addresses.len()
    }
}

/// Round-robin order law: the `j`-th of `k` consecutive calls starting
/// at cursor `c` yields index `c + j`, wrapped once past the end — the
/// fixed cyclic order of the original address sequence.
pub proof fn lemma_round_robin_order(c: nat, k: nat, j: nat)
    requires
        c < k,
        j <= k,
    ensures
        rr_iter(c, j, k) == if c + j < k {
            c + j
        } else {
            ((c + j) - k) as nat
        },
    decreases j,
{
    if j > 0 {
        lemma_round_robin_order(c, k, (j - 1) as nat);
    }
}

/// Whether some call in a window of `k` consecutive round-robin calls
/// starting at cursor `c` yields the index `idx`.
pub open spec fn rr_hits(c: nat, k: nat, idx: nat) -> bool {
    exists|j: nat| j < k && rr_iter(c, j, k) == idx
}

/// Round-robin cycle law: starting from any cursor `c` in a pool of size
/// `k`, a window of `k` consecutive calls yields `k` pairwise distinct
/// indices — so every handle exactly once, in the fixed cyclic order of
/// the original address sequence — and the call after the window repeats
/// the window's first index.
pub proof fn lemma_round_robin_cycle(c: nat, k: nat)
    requires
        c < k,
    ensures
        forall|j1: nat, j2: nat|
            j1 < j2 < k ==> rr_iter(c, j1, k) != rr_iter(c, j2, k),
        forall|idx: nat| idx < k ==> #[trigger] rr_hits(c, k, idx),
        rr_iter(c, k, k) == rr_iter(c, 0, k),
{
    assert forall|j1: nat, j2: nat| j1 < j2 < k implies rr_iter(c, j1, k) != rr_iter(c, j2, k) by {
        lemma_round_robin_order(c, k, j1);
        lemma_round_robin_order(c, k, j2);
    }
    assert forall|idx: nat| idx < k implies #[trigger] rr_hits(c, k, idx) by {
        let j: nat = if idx >= c {
            (idx - c) as nat
        } else {
            ((idx + k) - c) as nat
        };
        lemma_round_robin_order(c, k, j);
        assert(j < k && rr_iter(c, j, k) == idx);
    }
    lemma_round_robin_order(c, k, k);
}

/// Single-address law: in a pool of size 1 the round-robin policy yields
/// index 0 on every call, and any in-range index of the random policy is
/// 0 as well, so either algorithm always returns the one handle.
pub proof fn lemma_single_address(j: nat, i: nat)
    requires
        i < 1,
    ensures
        rr_iter(0, j, 1) == 0,
        i == 0,
    decreases j,
{
    if j > 0 {
        lemma_single_address((j - 1) as nat, i);
    }
}

} // verus!
