//! Sharing the chunks of a file among parallel connections.

use std::sync::Arc;
use tokio::sync::Semaphore;
use vstd::prelude::*;
use crate::chunker::min_int;

verus! {

/// `tokio::sync::Semaphore`, carried as it is.
#[verifier::external_type_specification]
#[verifier::external_body]
pub struct ExSemaphore(Semaphore);

/// The chunk size that transfers use: one mebibyte.
pub const TRANSFER_CHUNK_SIZE: usize = 1048576;

/// How many chunks connection `k` of `n` gets: an equal share, and one more
/// for each of the first `total % n` connections.
pub open spec fn share(total: int, n: int, k: int) -> int {
    total / n + if k < total % n {
        1int
    } else {
        0int
    }
}

/// The first chunk index of connection `k`'s share.
pub open spec fn share_start(total: int, n: int, k: int) -> int {
    k * (total / n) + min_int(k, total % n)
}

/// The chunk indices of connection `k`: a run of consecutive indices.
pub open spec fn share_of(total: int, n: int, k: int) -> Seq<u64> {
    Seq::new(share(total, n, k) as nat, |j: int| (share_start(total, n, k) + j) as u64)
}

/// The whole distribution of `total` chunks over `n` connections.
pub open spec fn spec_distribution(total: int, n: int) -> Seq<Seq<u64>> {
    Seq::new(n as nat, |k: int| share_of(total, n, k))
}

/// The indices `0, 1, ..., len - 1`.
pub open spec fn index_run(len: nat) -> Seq<u64> {
    Seq::new(len, |i: int| i as u64)
}

/// Share `k` ends where share `k + 1` starts, and the last share ends at
/// `total`.
proof fn lemma_share_steps(total: int, n: int, k: int)
    requires
        n > 0,
        total >= 0,
        0 <= k < n,
    ensures
        share_start(total, n, k) + share(total, n, k) == share_start(total, n, k + 1),
        share_start(total, n, 0) == 0,
        share_start(total, n, n) == total,
        0 <= share_start(total, n, k),
        share_start(total, n, k + 1) <= total,
        0 <= share(total, n, k),
{
    let per = total / n;
    let rem = total % n;
    vstd::arithmetic::div_mod::lemma_fundamental_div_mod(total, n);
    assert(0 <= rem < n);
    assert(per >= 0) by (nonlinear_arith)
        requires
            total >= 0,
            n > 0,
            per == total / n,
    ;
    assert((k + 1) * per == k * per + per) by (nonlinear_arith);
    assert(n * per == per * n) by (nonlinear_arith);
    assert(0 * per == 0) by (nonlinear_arith);
    assert(0 <= k * per) by (nonlinear_arith)
        requires
            k >= 0,
            per >= 0,
    ;
    assert((k + 1) * per <= n * per) by (nonlinear_arith)
        requires
            k + 1 <= n,
            per >= 0,
    ;
}

/// Shares `total` chunks (numbered from 0) among `num_connections`
/// connections: each connection gets a run of consecutive chunks, the runs
/// follow one another, and the first `total % num_connections` runs are
/// one chunk longer than the others.
pub fn distribute_chunks(total_chunks: u64, num_connections: u64) -> (d: Vec<Vec<u64>>)
    requires
        num_connections > 0,
        num_connections <= usize::MAX,
    ensures
        d@.len() == num_connections,
        forall|k: int|
            0 <= k < num_connections ==> (#[trigger] d@[k])@ == share_of(
                total_chunks as int,
                num_connections as int,
                k,
            ),
{
    let ghost t = total_chunks as int;
    let ghost n = num_connections as int;
    let mut distribution: Vec<Vec<u64>> = Vec::new();
    let chunks_per_connection = total_chunks / num_connections;
    let remainder = total_chunks % num_connections;
    let mut chunk_index: u64 = 0;
    let conns = num_connections as usize;
    let mut conn_idx: usize = 0;
    while conn_idx < conns
        invariant
            conns == n,
            n > 0,
            t >= 0,
            t == total_chunks,
            n == num_connections,
            chunks_per_connection == t / n,
            remainder == t % n,
            0 <= conn_idx <= conns,
            distribution@.len() == conn_idx,
            chunk_index == share_start(t, n, conn_idx as int),
            forall|k: int| 0 <= k < conn_idx ==> (#[trigger] distribution@[k])@ == share_of(t, n, k),
        decreases conns - conn_idx,
    {
        proof {
            lemma_share_steps(t, n, conn_idx as int);
        }
        let mut count = chunks_per_connection;
        if (conn_idx as u64) < remainder {
            count += 1;
        }
        let mut chunks: Vec<u64> = Vec::new();
        let ghost start = chunk_index as int;
        let mut j: u64 = 0;
        while j < count
            invariant
                count == share(t, n, conn_idx as int),
                start == share_start(t, n, conn_idx as int),
                start + count <= t,
                t == total_chunks,
                0 <= j <= count,
                chunk_index == start + j,
                chunks@.len() == j,
                forall|i: int| 0 <= i < j ==> chunks@[i] == start + i,
            decreases count - j,
        {
            if chunk_index < total_chunks {
                chunks.push(chunk_index);
                chunk_index += 1;
            }
            j += 1;
        }
        proof {
            assert(chunks@ =~= share_of(t, n, conn_idx as int));
        }
        distribution.push(chunks);
        conn_idx += 1;
    }
    distribution
}

/// Every chunk goes to exactly one connection, in order: the runs of all
/// connections, one after the other, are the indices `0 .. total`.
pub proof fn lemma_distribution_covers_all(total: u64, n: u64)
    requires
        n > 0,
    ensures
        spec_distribution(total as int, n as int).flatten() == index_run(total as nat),
{
    lemma_distribution_prefix(total as int, n as int, n as int);
    assert(spec_distribution(total as int, n as int).take(n as int) =~= spec_distribution(
        total as int,
        n as int,
    ));
    lemma_share_steps(total as int, n as int, 0);
}

/// The runs of the first `k` connections are the indices up to the start of
/// run `k`.
proof fn lemma_distribution_prefix(total: int, n: int, k: int)
    requires
        n > 0,
        total >= 0,
        0 <= k <= n,
    ensures
        spec_distribution(total, n).take(k).flatten() == index_run(
            share_start(total, n, k) as nat,
        ),
    decreases k,
{
    let d = spec_distribution(total, n);
    if k == 0 {
        lemma_share_steps(total, n, 0);
        assert(d.take(0) =~= Seq::<Seq<u64>>::empty());
        assert(index_run(0) =~= Seq::<u64>::empty());
    } else {
        lemma_distribution_prefix(total, n, k - 1);
        lemma_share_steps(total, n, k - 1);
        assert(d.take(k) =~= d.take(k - 1).push(d[k - 1]));
        d.take(k - 1).lemma_flatten_push(d[k - 1]);
        assert(index_run(share_start(total, n, k) as nat) =~= index_run(
            share_start(total, n, k - 1) as nat,
        ) + share_of(total, n, k - 1));
    }
}

/// The shares are balanced: any two differ by at most one chunk, and none
/// is longer than a share that comes before it.
pub proof fn lemma_distribution_balanced(total: u64, n: u64, j: int, k: int)
    requires
        n > 0,
        0 <= j < k < n,
    ensures
        share(total as int, n as int, k) <= share(total as int, n as int, j) <= share(
            total as int,
            n as int,
            k,
        ) + 1,
{
}

/// Runs the transfers of one file over a bounded number of connections.
pub struct ParallelTransferManager {
    semaphore: Arc<Semaphore>,
    chunk_size: usize,
    max_connections: usize,
}

/// The number of permits a semaphore was made with: the limit on what can
/// be held of it at once. (What is held at a given moment is not named.)
pub uninterp spec fn semaphore_capacity(s: Semaphore) -> nat;

/// `tokio::sync::Semaphore::new`: a semaphore that starts with `permits`
/// permits. Its source panics above `Semaphore::MAX_PERMITS`, which is
/// `usize::MAX >> 3`; that input is left out.
#[verifier::external_body]
fn new_semaphore(permits: usize) -> (s: Semaphore)
    requires
        permits <= usize::MAX / 8,
    ensures
        semaphore_capacity(s) == permits,
{
    Semaphore::new(permits)
}

impl ParallelTransferManager {
    /// The semaphore of this manager.
    pub closed spec fn spec_semaphore(&self) -> Arc<Semaphore> {
        self.semaphore
    }

    /// The number of transfers this manager lets run at once.
    pub closed spec fn spec_max_connections(&self) -> usize {
        self.max_connections
    }

    /// The chunk size of this manager.
    pub closed spec fn spec_chunk_size(&self) -> usize {
        self.chunk_size
    }

    /// A manager that lets `max_connections` transfers run at once, with
    /// chunks of one mebibyte.
    pub fn new(max_connections: usize) -> (m: Self)
        requires
            max_connections <= usize::MAX / 8,
        ensures
            m.spec_chunk_size() == TRANSFER_CHUNK_SIZE,
            m.spec_max_connections() == max_connections,
            semaphore_capacity(*m.spec_semaphore()) == max_connections,
    {
        ParallelTransferManager {
            semaphore: Arc::new(new_semaphore(max_connections)),
            chunk_size: TRANSFER_CHUNK_SIZE,
            max_connections,
        }
    }

    /// The number of transfers this manager lets run at once: the permits
    /// its semaphore was made with.
    pub fn max_connections(&self) -> (n: usize)
        ensures
            n == self.spec_max_connections(),
    {
        self.max_connections
    }

    /// The chunk size used by this manager.
    pub fn chunk_size(&self) -> (s: usize)
        ensures
            s == self.spec_chunk_size(),
    {
        self.chunk_size
    }

    /// The semaphore that bounds the connections running at once.
    pub fn semaphore(&self) -> (s: &Arc<Semaphore>)
        ensures
            *s == self.spec_semaphore(),
    {
        &self.semaphore
    }
}

} // verus!
