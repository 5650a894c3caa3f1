//! Difficulty search: partitioning of the nonce space across workers,
//! candidate digests, and the scan loop that finds a nonce whose digest
//! falls at or below the difficulty target.

use vstd::arithmetic::div_mod::lemma_fundamental_div_mod;
use vstd::arithmetic::mul::lemma_mul_inequality;
use vstd::prelude::*;

verus! {

/// A found nonce together with the digest that qualified it.
#[derive(Clone, Copy, Debug)]
pub struct Solution {
    pub hash: [u8; 32],
    pub nonce: u64,
}

/// Lexicographic (most-significant byte first) `a <= b` over two byte strings
/// of equal length. For equal lengths this coincides with comparing the
/// big-endian numeric values of the strings.
pub open spec fn bytes_le(a: Seq<u8>, b: Seq<u8>) -> bool
    recommends
        a.len() == b.len(),
    decreases a.len(),
{
    if a.len() == 0 || b.len() == 0 {
        true
    } else if a[0] < b[0] {
        true
    } else if a[0] > b[0] {
        false
    } else {
        bytes_le(a.skip(1), b.skip(1))
    }
}

/// Big-endian numeric value of a byte string.
pub open spec fn be_value(s: Seq<u8>) -> nat
    decreases s.len(),
{
    if s.len() == 0 {
        0
    } else {
        (s[0] * pow256((s.len() - 1) as nat) + be_value(s.skip(1))) as nat
    }
}

/// 256 raised to the `n`th power.
pub open spec fn pow256(n: nat) -> nat
    decreases n,
{
    if n == 0 {
        1
    } else {
        256 * pow256((n - 1) as nat)
    }
}

/// The Keccak-256 digest of a byte string, as computed by the ledger SDK's
/// hash function. Two equal byte strings always give the same digest.
pub uninterp spec fn keccak_of(data: Seq<u8>) -> Seq<u8>;

/// The bytes that a candidate digest is computed over: the challenge,
/// the miner's public identity, and the little-endian bytes of the nonce.
pub open spec fn candidate_bytes(challenge: Seq<u8>, identity: Seq<u8>, nonce: u64) -> Seq<u8> {
    challenge + identity + vstd::bytes::spec_u64_to_le_bytes(nonce)
}

/// The digest a given nonce produces for a given challenge and identity.
pub open spec fn candidate_digest(challenge: Seq<u8>, identity: Seq<u8>, nonce: u64) -> Seq<u8> {
    keccak_of(candidate_bytes(challenge, identity, nonce))
}

/// A nonce qualifies iff its candidate digest is at or below the target,
/// comparing most-significant byte first.
pub open spec fn nonce_qualifies(
    challenge: Seq<u8>,
    identity: Seq<u8>,
    target: Seq<u8>,
    nonce: u64,
) -> bool {
    bytes_le(candidate_digest(challenge, identity, nonce), target)
}

/// Relies on solana_sdk::keccak::hashv: the returned 32-byte digest is the
/// Keccak-256 hash of the concatenation of the given byte slices, a function
/// of those bytes alone.
#[verifier::external_body]
fn keccak_candidate(challenge: &[u8; 32], identity: &[u8; 32], nonce: u64) -> (r: [u8; 32])
    ensures
        r@ == keccak_of(candidate_bytes(challenge@, identity@, nonce)),
{
    solana_sdk::keccak::hashv(
        &[challenge.as_slice(), identity.as_slice(), nonce.to_le_bytes().as_slice()],
    ).to_bytes()
}

/// If two byte strings agree on their first `i` bytes, their lexicographic
/// order is decided by the remainders.
proof fn lemma_bytes_le_skip(a: Seq<u8>, b: Seq<u8>, i: int)
    requires
        a.len() == b.len(),
        0 <= i <= a.len(),
        forall|j: int| 0 <= j < i ==> a[j] == b[j],
    ensures
        bytes_le(a, b) == bytes_le(a.skip(i), b.skip(i)),
    decreases i,
{
    if i > 0 {
        assert(a[0] == b[0]);
        assert forall|j: int| 0 <= j < i - 1 implies a.skip(1)[j] == b.skip(1)[j] by {
            assert(a.skip(1)[j] == a[j + 1]);
            assert(b.skip(1)[j] == b[j + 1]);
        }
        lemma_bytes_le_skip(a.skip(1), b.skip(1), i - 1);
        assert(a.skip(1).skip(i - 1) =~= a.skip(i));
        assert(b.skip(1).skip(i - 1) =~= b.skip(i));
    } else {
        assert(a.skip(0) =~= a);
        assert(b.skip(0) =~= b);
    }
}

/// Compares two digests most-significant byte first, returning whether
/// `a <= b`.
pub fn digest_le(a: &[u8; 32], b: &[u8; 32]) -> (r: bool)
    ensures
        r == bytes_le(a@, b@),
{
    let mut i: usize = 0;
    while i < 32
        invariant
            0 <= i <= 32,
            forall|j: int| 0 <= j < i ==> a@[j] == b@[j],
        decreases 32 - i,
    {
        if a[i] < b[i] {
            proof {
                lemma_bytes_le_skip(a@, b@, i as int);
            }
            return true;
        }
        if a[i] > b[i] {
            proof {
                lemma_bytes_le_skip(a@, b@, i as int);
            }
            return false;
        }
        i = i + 1;
    }
    proof {
        lemma_bytes_le_skip(a@, b@, 32);
    }
    true
}

/// A byte string's numeric value stays below 256 raised to its length.
proof fn lemma_be_value_bound(s: Seq<u8>)
    ensures
        be_value(s) < pow256(s.len()),
    decreases s.len(),
{
    if s.len() > 0 {
        lemma_be_value_bound(s.skip(1));
        let p = pow256((s.len() - 1) as nat) as int;
        lemma_mul_inequality(s[0] as int, 255, p);
    }
}

/// Comparing two byte strings of equal length most-significant byte first
/// orders them exactly as their big-endian numeric values: `h` qualifies
/// against a target iff its numeric value is at most the target's.
pub proof fn lemma_bytes_le_is_numeric_le(a: Seq<u8>, b: Seq<u8>)
    requires
        a.len() == b.len(),
    ensures
        bytes_le(a, b) <==> be_value(a) <= be_value(b),
    decreases a.len(),
{
    if a.len() > 0 {
        let p = pow256((a.len() - 1) as nat) as int;
        lemma_be_value_bound(a.skip(1));
        lemma_be_value_bound(b.skip(1));
        if a[0] < b[0] {
            lemma_mul_inequality(a[0] as int + 1, b[0] as int, p);
            assert(a[0] as int * p + p == (a[0] as int + 1) * p) by (nonlinear_arith);
        } else if a[0] > b[0] {
            lemma_mul_inequality(b[0] as int + 1, a[0] as int, p);
            assert(b[0] as int * p + p == (b[0] as int + 1) * p) by (nonlinear_arith);
        } else {
            lemma_bytes_le_is_numeric_le(a.skip(1), b.skip(1));
        }
    }
}

/// Against an all-0xFF target every digest of the same length qualifies.
pub proof fn lemma_max_target_accepts_all(h: Seq<u8>, t: Seq<u8>)
    requires
        h.len() == t.len(),
        forall|j: int| 0 <= j < t.len() ==> t[j] == 0xff,
    ensures
        bytes_le(h, t),
    decreases h.len(),
{
    if h.len() > 0 {
        if h[0] == 0xff {
            assert(forall|j: int| 0 <= j < t.skip(1).len() ==> t.skip(1)[j] == 0xff);
            lemma_max_target_accepts_all(h.skip(1), t.skip(1));
        }
    }
}

/// How many nonces a worker hashes between two looks at the shared
/// stop flag; also the chunk size of the bounded scans below.
pub const SEARCH_CHUNK: u64 = 10000;

/// Start of worker `i`'s slice of the nonce space when `n` workers share it:
/// `floor(u64::MAX / n) * i`.
pub open spec fn partition_start_spec(i: u64, n: u64) -> int
    recommends
        1 <= n,
{
    (u64::MAX as int / n as int) * i
}

/// The nonces that worker `i` of `n` owns: from its start up to (but not
/// including) the next worker's start; the last worker owns everything up to
/// and including `u64::MAX`.
pub open spec fn in_partition(i: u64, n: u64, x: u64) -> bool
    recommends
        1 <= n,
        i < n,
{
    partition_start_spec(i, n) <= x && (i + 1 == n || x < partition_start_spec(
        (i + 1) as u64,
        n,
    ))
}

/// The per-worker stride `floor(u64::MAX / n)` is at least 1, and `n` strides
/// never pass `u64::MAX`.
proof fn lemma_stride_bounds(n: u64)
    requires
        1 <= n,
    ensures
        1 <= u64::MAX as int / n as int,
        (u64::MAX as int / n as int) * n <= u64::MAX as int,
        (u64::MAX as int / n as int) * n + n > u64::MAX as int,
{
    let q = u64::MAX as int / n as int;
    lemma_fundamental_div_mod(u64::MAX as int, n as int);
    assert(u64::MAX as int == n as int * q + u64::MAX as int % n as int);
    assert(0 <= u64::MAX as int % (n as int) < (n as int));
    assert(n as int * q == q * n as int) by (nonlinear_arith);
    if q < 1 {
        assert(n as int * q <= 0) by (nonlinear_arith)
            requires 1 <= n && q <= 0,
        ;
    }
}

/// A worker's start never overflows: it stays at most `u64::MAX` minus one
/// stride.
proof fn lemma_partition_start_fits(i: u64, n: u64)
    requires
        1 <= n,
        i < n,
    ensures
        0 <= partition_start_spec(i, n),
        partition_start_spec(i, n) + (u64::MAX as int / n as int) <= u64::MAX as int,
{
    let q = u64::MAX as int / n as int;
    lemma_stride_bounds(n);
    lemma_mul_inequality(i as int, n as int - 1, q);
    assert((n as int - 1) * q == q * n as int - q) by (nonlinear_arith);
    assert(i as int * q == q * i as int) by (nonlinear_arith);
    assert(q * i as int >= 0) by (nonlinear_arith)
        requires q >= 0 && i >= 0,
    ;
}

/// Start of worker `i`'s slice of the nonce space when `n` workers share it.
pub fn partition_start(i: u64, n: u64) -> (r: u64)
    requires
        1 <= n,
        i < n,
    ensures
        r == partition_start_spec(i, n),
{
    proof {
        lemma_partition_start_fits(i, n);
        lemma_stride_bounds(n);
    }
    (u64::MAX / n) * i
}

/// The partitions cover the whole nonce space: every nonce lies in some
/// worker's slice (in particular, worker 0's slice starts at 0 and the last
/// worker's slice runs to `u64::MAX`).
pub proof fn lemma_partitions_cover(n: u64, x: u64)
    requires
        1 <= n,
    ensures
        exists|i: u64| i < n && in_partition(i, n, x),
{
    let q = u64::MAX as int / n as int;
    lemma_stride_bounds(n);
    let k = x as int / q;
    lemma_fundamental_div_mod(x as int, q);
    assert(x as int == q * k + x as int % q);
    assert(0 <= x as int % q < q);
    assert(k >= 0) by {
        if k < 0 {
            assert(q * k <= -q) by (nonlinear_arith)
                requires
                    q >= 1 && k <= -1,
            ;
        }
    }
    if k < n as int - 1 {
        let i = k as u64;
        assert(i as int == k);
        assert(partition_start_spec(i, n) == q * k);
        assert((i + 1) as u64 as int == k + 1);
        assert(q * (k + 1) == q * k + q) by (nonlinear_arith);
        assert(partition_start_spec((i + 1) as u64, n) == q * (k + 1));
        assert(i < n && in_partition(i, n, x));
    } else {
        let i = (n - 1) as u64;
        assert(q * (n as int - 1) <= q * k) by (nonlinear_arith)
            requires
                q >= 0 && n as int - 1 <= k,
        ;
        assert(partition_start_spec(i, n) == q * (n as int - 1));
        assert(q * k <= x as int);
        assert(i < n && in_partition(i, n, x));
    }
}

/// The partitions do not overlap: a nonce lies in the slice of only one
/// worker.
pub proof fn lemma_partitions_disjoint(n: u64, x: u64, i: u64, j: u64)
    requires
        1 <= n,
        i < n,
        j < n,
        in_partition(i, n, x),
        in_partition(j, n, x),
    ensures
        i == j,
{
    let q = u64::MAX as int / n as int;
    lemma_stride_bounds(n);
    if i < j {
        lemma_mul_inequality(i as int + 1, j as int, q);
        assert(q * ((i + 1) as u64 as int) == (i as int + 1) * q) by (nonlinear_arith)
            requires
                (i + 1) as u64 as int == i as int + 1,
        ;
        assert(q * (j as int) == j as int * q) by (nonlinear_arith);
        assert(false);
    } else if j < i {
        lemma_mul_inequality(j as int + 1, i as int, q);
        assert(q * ((j + 1) as u64 as int) == (j as int + 1) * q) by (nonlinear_arith)
            requires
                (j + 1) as u64 as int == j as int + 1,
        ;
        assert(q * (i as int) == i as int * q) by (nonlinear_arith);
        assert(false);
    }
}

/// The partitions are contiguous: each worker's slice ends exactly where the
/// next worker's slice begins, one stride later.
pub proof fn lemma_partitions_contiguous(n: u64, i: u64)
    requires
        1 <= n,
        i + 1 < n,
    ensures
        partition_start_spec((i + 1) as u64, n) == partition_start_spec(i, n) + u64::MAX as int
            / n as int,
{
    let q = u64::MAX as int / n as int;
    assert(q * (i as int + 1) == q * (i as int) + q) by (nonlinear_arith);
    assert((i + 1) as u64 as int == i as int + 1);
    assert(partition_start_spec((i + 1) as u64, n) == q * (i as int + 1));
}

/// Hashes the nonces `start, start + 1, ..., start + count - 1` in order and
/// returns the first one whose digest is at or below the target, with that
/// digest; returns `None` when no nonce of the chunk qualifies.
pub fn scan_chunk(
    challenge: &[u8; 32],
    identity: &[u8; 32],
    target: &[u8; 32],
    start: u64,
    count: u64,
) -> (r: Option<Solution>)
    requires
        start + count <= u64::MAX as int + 1,
    ensures
        match r {
            Some(sol) => {
                &&& start <= sol.nonce < start + count
                &&& sol.hash@ == candidate_digest(challenge@, identity@, sol.nonce)
                &&& bytes_le(sol.hash@, target@)
                &&& forall|m: u64|
                    start <= m < sol.nonce ==> !#[trigger] nonce_qualifies(
                        challenge@,
                        identity@,
                        target@,
                        m,
                    )
            },
            None => forall|m: u64|
                start <= m < start + count ==> !#[trigger] nonce_qualifies(
                    challenge@,
                    identity@,
                    target@,
                    m,
                ),
        },
{
    let mut done: u64 = 0;
    while done < count
        invariant
            0 <= done <= count,
            start + count <= u64::MAX as int + 1,
            forall|m: u64|
                start <= m < start + done ==> !#[trigger] nonce_qualifies(
                    challenge@,
                    identity@,
                    target@,
                    m,
                ),
        decreases count - done,
    {
        let nonce = start + done;
        let hash = keccak_candidate(challenge, identity, nonce);
        if digest_le(&hash, target) {
            return Some(Solution { hash, nonce });
        }
        done = done + 1;
    }
    None
}

/// Runs the partitioned search on one thread: scans up to `rounds` chunks of
/// `SEARCH_CHUNK` nonces from every worker's slice, round-robin in worker
/// order, and returns the first solution that schedule finds. Any returned
/// solution's digest is the candidate digest of its nonce and lies at or
/// below the target; `None` means no nonce within `rounds` chunks of any
/// worker's start qualifies.
pub fn search(
    challenge: &[u8; 32],
    identity: &[u8; 32],
    target: &[u8; 32],
    worker_count: u64,
    rounds: u64,
) -> (r: Option<Solution>)
    requires
        1 <= worker_count,
    ensures
        match r {
            Some(sol) => {
                &&& sol.hash@ == candidate_digest(challenge@, identity@, sol.nonce)
                &&& bytes_le(sol.hash@, target@)
            },
            None => forall|i: u64, m: u64|
                #![trigger partition_start_spec(i, worker_count), nonce_qualifies(challenge@, identity@, target@, m)]
                i < worker_count && partition_start_spec(i, worker_count) <= m && m
                    < partition_start_spec(i, worker_count) + rounds * SEARCH_CHUNK
                    ==> !nonce_qualifies(challenge@, identity@, target@, m),
        },
{
    let mut round: u64 = 0;
    while round < rounds
        invariant
            1 <= worker_count,
            round <= rounds,
            forall|i: u64, m: u64|
                #![trigger partition_start_spec(i, worker_count), nonce_qualifies(challenge@, identity@, target@, m)]
                i < worker_count && partition_start_spec(i, worker_count) <= m && m
                    < partition_start_spec(i, worker_count) + round * SEARCH_CHUNK
                    ==> !nonce_qualifies(challenge@, identity@, target@, m),
        decreases rounds - round,
    {
        let mut i: u64 = 0;
        while i < worker_count
            invariant
                1 <= worker_count,
                i <= worker_count,
                round < rounds,
                forall|i2: u64, m: u64|
                    #![trigger partition_start_spec(i2, worker_count), nonce_qualifies(challenge@, identity@, target@, m)]
                    i2 < worker_count && partition_start_spec(i2, worker_count) <= m && m
                        < partition_start_spec(i2, worker_count) + round * SEARCH_CHUNK
                        ==> !nonce_qualifies(challenge@, identity@, target@, m),
                forall|i2: u64, m: u64|
                    #![trigger partition_start_spec(i2, worker_count), nonce_qualifies(challenge@, identity@, target@, m)]
                    i2 < i && partition_start_spec(i2, worker_count) <= m && m
                        < partition_start_spec(i2, worker_count) + (round + 1) * SEARCH_CHUNK
                        ==> !nonce_qualifies(challenge@, identity@, target@, m),
            decreases worker_count - i,
        {
            let base = partition_start(i, worker_count);
            let chunk_start_wide: u128 = base as u128 + round as u128 * SEARCH_CHUNK as u128;
            proof {
                assert(round as int * SEARCH_CHUNK as int + SEARCH_CHUNK as int == (round as int
                    + 1) * SEARCH_CHUNK as int) by (nonlinear_arith);
                assert(round as u128 as int * (SEARCH_CHUNK as u128 as int) == round as int
                    * SEARCH_CHUNK as int) by (nonlinear_arith);
            }
            if chunk_start_wide <= u64::MAX as u128 {
                let chunk_start: u64 = chunk_start_wide as u64;
                let room: u64 = u64::MAX - chunk_start;
                let count: u64 = if room >= SEARCH_CHUNK {
                    SEARCH_CHUNK
                } else {
                    room + 1
                };
                if let Some(sol) = scan_chunk(challenge, identity, target, chunk_start, count) {
                    return Some(sol);
                }
            }
            i = i + 1;
        }
        round = round + 1;
    }
    None
}

} // verus!
