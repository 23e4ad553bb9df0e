//! Splitting command recording across a small pool of workers.

use vstd::prelude::*;
use std::sync::atomic::{AtomicUsize, Ordering};

verus! {

/// The pool never grows beyond this many workers.
pub const MAX_WORKERS: usize = 4;

/// Secondary command buffers each worker owns.
pub const BUFFERS_PER_WORKER: usize = 4;

/// Relies on num_cpus::get: the number of CPUs this process may use, which its
/// documentation says is always at least one.
#[verifier::external_body]
fn available_cpus() -> (r: usize)
    ensures
        r >= 1,
{
    num_cpus::get()
}

pub open spec fn min_spec(a: int, b: int) -> int {
    if a <= b {
        a
    } else {
        b
    }
}

/// One worker per CPU, at most `MAX_WORKERS`.
pub fn workers_for(cpus: usize) -> (r: usize)
    ensures
        r == min_spec(cpus as int, MAX_WORKERS as int),
{
    if cpus <= MAX_WORKERS {
        cpus
    } else {
        MAX_WORKERS
    }
}

/// The size of the worker pool on this machine.
pub fn worker_count() -> (r: usize)
    ensures
        1 <= r <= MAX_WORKERS,
{
    workers_for(available_cpus())
}

/// Objects per worker: `objects` divided by `workers`, rounded up.
pub open spec fn batch_len(objects: int, workers: int) -> int {
    objects / workers + if objects % workers != 0 {
        1int
    } else {
        0int
    }
}

pub open spec fn batch_start(w: int, objects: int, workers: int) -> int {
    min_spec(w * batch_len(objects, workers), objects)
}

/// A worker records its batch as far as its buffers go.
pub open spec fn batch_end(w: int, objects: int, workers: int, capacity: int) -> int {
    min_spec(
        batch_start(w, objects, workers) + min_spec(batch_len(objects, workers), capacity),
        objects,
    )
}

/// The objects `start..end` go to worker `worker`.
#[derive(Clone, Copy, Debug, PartialEq, Eq, Structural)]
pub struct WorkerBatch {
    pub worker: usize,
    pub start: usize,
    pub end: usize,
}

pub open spec fn batch_spec(w: int, objects: int, workers: int, capacity: int) -> WorkerBatch {
    WorkerBatch {
        worker: w as usize,
        start: batch_start(w, objects, workers) as usize,
        end: batch_end(w, objects, workers, capacity) as usize,
    }
}

proof fn lemma_batch_len_bounds(objects: int, workers: int)
    requires
        objects >= 0,
        workers > 0,
    ensures
        0 <= batch_len(objects, workers) <= objects,
        workers * batch_len(objects, workers) >= objects,
{
    vstd::arithmetic::div_mod::lemma_fundamental_div_mod(objects, workers);
    let q = objects / workers;
    let r = objects % workers;
    assert(0 <= r < workers);
    assert(q >= 0) by (nonlinear_arith)
        requires
            objects >= 0,
            workers > 0,
            q == objects / workers,
    ;
    assert(workers * batch_len(objects, workers) >= objects) by (nonlinear_arith)
        requires
            objects == workers * q + r,
            0 <= r < workers,
            batch_len(objects, workers) == q + if r != 0 {
                1int
            } else {
                0int
            },
    ;
    assert(batch_len(objects, workers) <= objects) by (nonlinear_arith)
        requires
            objects == workers * q + r,
            0 <= r < workers,
            q >= 0,
            batch_len(objects, workers) == q + if r != 0 {
                1int
            } else {
                0int
            },
    ;
}

proof fn lemma_next_start(w: int, objects: int, workers: int)
    requires
        objects >= 0,
        workers > 0,
        w >= 0,
    ensures
        batch_start(w + 1, objects, workers) == if objects - batch_start(w, objects, workers)
            <= batch_len(objects, workers) {
            objects
        } else {
            batch_start(w, objects, workers) + batch_len(objects, workers)
        },
{
    let b = batch_len(objects, workers);
    lemma_batch_len_bounds(objects, workers);
    assert((w + 1) * b == w * b + b) by (nonlinear_arith);
    assert(w * b >= 0) by (nonlinear_arith)
        requires
            w >= 0,
            b >= 0,
    ;
}

/// The batch of every worker, in worker order.
pub fn plan_batches(objects: usize, workers: usize, capacity: usize) -> (r: Vec<WorkerBatch>)
    requires
        workers > 0,
    ensures
        r@.len() == workers,
        forall|w: int|
            0 <= w < workers ==> #[trigger] r@[w] == batch_spec(
                w,
                objects as int,
                workers as int,
                capacity as int,
            ),
{
    proof {
        lemma_batch_len_bounds(objects as int, workers as int);
    }
    let q = objects / workers;
    let b: usize = if objects % workers != 0 {
        q + 1
    } else {
        q
    };
    let take: usize = if b <= capacity {
        b
    } else {
        capacity
    };
    let mut r: Vec<WorkerBatch> = Vec::new();
    let mut start: usize = 0;
    let mut w: usize = 0;
    assert(0 * b == 0);
    while w < workers
        invariant
            0 < workers,
            w <= workers,
            b == batch_len(objects as int, workers as int),
            b <= objects,
            take == min_spec(b as int, capacity as int),
            start == batch_start(w as int, objects as int, workers as int),
            r@.len() == w,
            forall|k: int|
                0 <= k < w ==> #[trigger] r@[k] == batch_spec(
                    k,
                    objects as int,
                    workers as int,
                    capacity as int,
                ),
        decreases workers - w,
    {
        proof {
            lemma_next_start(w as int, objects as int, workers as int);
        }
        let end: usize = if objects - start <= take {
            objects
        } else {
            start + take
        };
        r.push(WorkerBatch { worker: w, start, end });
        start = if objects - start <= b {
            objects
        } else {
            start + b
        };
        w = w + 1;
    }
    r
}

/// The batches follow each other in worker order without overlap, inside
/// `0..objects`; where each worker's buffers hold a whole batch, they cover
/// every object exactly once.
pub proof fn lemma_batches_partition(objects: nat, workers: nat, capacity: nat)
    requires
        workers > 0,
    ensures
        batch_start(0, objects as int, workers as int) == 0,
        forall|w: int|
            0 <= w < workers ==> 0 <= #[trigger] batch_start(w, objects as int, workers as int)
                <= batch_end(w, objects as int, workers as int, capacity as int) <= objects,
        forall|w: int|
            0 <= w < workers - 1 ==> #[trigger] batch_end(
                w,
                objects as int,
                workers as int,
                capacity as int,
            ) <= batch_start(w + 1, objects as int, workers as int),
        capacity >= batch_len(objects as int, workers as int) ==> {
            &&& forall|w: int|
                0 <= w < workers - 1 ==> #[trigger] batch_end(
                    w,
                    objects as int,
                    workers as int,
                    capacity as int,
                ) == batch_start(w + 1, objects as int, workers as int)
            &&& batch_end(workers - 1, objects as int, workers as int, capacity as int) == objects
        },
{
    let n = objects as int;
    let k = workers as int;
    let b = batch_len(n, k);
    lemma_batch_len_bounds(n, k);
    assert(0 * b == 0);
    assert forall|w: int| 0 <= w < workers implies 0 <= #[trigger] batch_start(w, n, k) <= batch_end(
        w,
        n,
        k,
        capacity as int,
    ) <= objects by {
        assert(w * b >= 0) by (nonlinear_arith)
            requires
                w >= 0,
                b >= 0,
        ;
    }
    assert forall|w: int| 0 <= w < workers - 1 implies #[trigger] batch_end(
        w,
        n,
        k,
        capacity as int,
    ) <= batch_start(w + 1, n, k) by {
        lemma_next_start(w, n, k);
    }
    if capacity >= b {
        assert forall|w: int| 0 <= w < workers - 1 implies #[trigger] batch_end(
            w,
            n,
            k,
            capacity as int,
        ) == batch_start(w + 1, n, k) by {
            lemma_next_start(w, n, k);
        }
        assert((k - 1) * b + b == k * b) by (nonlinear_arith);
    }
}


/// The item a claimed ticket stands for: tickets past the end stand for nothing.
pub fn claim(ticket: usize, total: usize) -> (r: Option<usize>)
    ensures
        r == if ticket < total {
            Some(ticket)
        } else {
            None::<usize>
        },
{
    if ticket < total {
        Some(ticket)
    } else {
        None
    }
}

/// Hands out the indices `0..total` to workers, each at most once per round.
pub struct AtomicWorkQueue {
    counter: AtomicUsize,
    total: usize,
}

impl AtomicWorkQueue {
    /// The number of items per round.
    pub closed spec fn total(&self) -> usize {
        self.total
    }

    pub fn new(total: usize) -> (r: AtomicWorkQueue)
        ensures
            r.total() == total,
    {
        AtomicWorkQueue { counter: AtomicUsize::new(0), total }
    }

    /// The next unclaimed index, or nothing once the round is used up.
    pub fn next(&self) -> (r: Option<usize>)
        ensures
            r matches Some(i) ==> i < self.total(),
    {
        let ticket = self.counter.fetch_add(1, Ordering::Relaxed);
        claim(ticket, self.total)
    }

    /// Starts a new round.
    pub fn reset(&self) {
        self.counter.store(0, Ordering::Relaxed);
    }
}

} // verus!
