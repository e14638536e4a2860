//! The load generators' verified core: the observability counters, one
//! memory-leak step, and the CPU-burn bursts.
//!
//! The process shell owns the threads, the shared running flag and the
//! sleeps; the work a thread performs between two looks at the flag is
//! computed here.

use vstd::prelude::*;

verus! {

/// Iterations of one CPU-burn busy loop; the burn counter advances by this
/// much per burst.
pub const CYCLES_PER_BURST: u64 = 400000000;

/// The observability counters of the load workers: initialized to zero,
/// only ever incremented (the active-worker count aside), never reset.
#[derive(Debug, Clone, Copy, PartialEq, Eq, Structural)]
pub struct WorkerCounters {
    pub leak_total_bytes: u64,
    pub cpu_total_cycles: u64,
    pub cpu_active_workers: u64,
}

impl WorkerCounters {
    /// All counters start at zero.
    pub fn new() -> (c: WorkerCounters)
        ensures
            c.leak_total_bytes == 0,
            c.cpu_total_cycles == 0,
            c.cpu_active_workers == 0,
    {
        WorkerCounters { leak_total_bytes: 0, cpu_total_cycles: 0, cpu_active_workers: 0 }
    }
}

/// How many bytes the memory worker has leaked so far.
pub fn leak_total_bytes(counters: &WorkerCounters) -> (r: u64)
    ensures
        r == counters.leak_total_bytes,
{
    counters.leak_total_bytes
}

/// How many busy-loop cycles the CPU workers have burned so far.
pub fn cpu_total_cycles(counters: &WorkerCounters) -> (r: u64)
    ensures
        r == counters.cpu_total_cycles,
{
    counters.cpu_total_cycles
}

/// How many CPU workers are running right now.
pub fn cpu_active_workers(counters: &WorkerCounters) -> (r: u64)
    ensures
        r == counters.cpu_active_workers,
{
    counters.cpu_active_workers
}

/// What one leaked chunk holds once touched: a one on every page boundary,
/// zero elsewhere, and one added to the trailing byte.
pub open spec fn expected_leak_byte(j: int, len: int, page: int) -> u8 {
    let base: u8 = if j % page == 0 {
        1
    } else {
        0
    };
    if j == len - 1 {
        (base + 1) as u8
    } else {
        base
    }
}

/// Between two adjacent multiples of `page` no third one stands.
proof fn lemma_no_multiple_between(i: int, page: int, j: int)
    requires
        page >= 1,
        i >= 0,
        i % page == 0,
        i < j < i + page,
    ensures
        j % page != 0,
{
    if j % page == 0 {
        vstd::arithmetic::div_mod::lemma_fundamental_div_mod(j, page);
        vstd::arithmetic::div_mod::lemma_fundamental_div_mod(i, page);
        let qi = i / page;
        let qj = j / page;
        assert(i == page * qi);
        assert(j == page * qj);
        assert(qj > qi) by (nonlinear_arith)
            requires
                page >= 1,
                page * qj > page * qi,
        ;
        assert(page * qj >= page * (qi + 1)) by (nonlinear_arith)
            requires
                qj >= qi + 1,
                page >= 1,
        ;
        assert(page * (qi + 1) == page * qi + page) by (nonlinear_arith);
    }
}

/// One step of the memory worker: allocates a chunk of `step_bytes` zeroed
/// bytes, touches every `page`-th byte (forcing physical commitment) and
/// bumps the trailing byte, retains the chunk in `heap` for good, and adds
/// the chunk size to the leaked-byte counter.  Chunks already held are
/// never released or altered.
pub fn leak_step(
    counters: &mut WorkerCounters,
    heap: &mut Vec<Vec<u8>>,
    step_bytes: usize,
    page: usize,
)
    requires
        page >= 1,
        old(counters).leak_total_bytes + step_bytes <= u64::MAX,
    ensures
        final(counters).leak_total_bytes == old(counters).leak_total_bytes + step_bytes,
        final(counters).cpu_total_cycles == old(counters).cpu_total_cycles,
        final(counters).cpu_active_workers == old(counters).cpu_active_workers,
        final(heap)@.len() == old(heap)@.len() + 1,
        forall|k: int| 0 <= k < old(heap)@.len() ==> final(heap)@[k] == old(heap)@[k],
        final(heap)@.last()@.len() == step_bytes,
        forall|j: int|
            0 <= j < step_bytes ==> (#[trigger] final(heap)@.last()@[j]) == expected_leak_byte(
                j,
                step_bytes as int,
                page as int,
            ),
{
    let mut chunk: Vec<u8> = Vec::new();
    let mut z: usize = 0;
    while z < step_bytes
        invariant
            z <= step_bytes,
            chunk@.len() == z as int,
            forall|j: int| 0 <= j < z ==> chunk@[j] == 0u8,
        decreases step_bytes - z,
    {
        chunk.push(0);
        z = z + 1;
    }

    let len = chunk.len();
    let mut i: usize = 0;
    while i < len
        invariant
            chunk@.len() == len,
            len == step_bytes,
            page >= 1,
            i < len ==> i as int % page as int == 0,
            forall|j: int|
                0 <= j < len ==> chunk@[j] == (if j % page as int == 0 && j < i {
                    1u8
                } else {
                    0u8
                }),
        decreases len - i,
    {
        chunk[i] = 1;
        proof {
            assert forall|j: int|
                i < j < i + page implies #[trigger] (j % page as int) != 0 by {
                lemma_no_multiple_between(i as int, page as int, j);
            }
        }
        if len - i <= page {
            i = len;
        } else {
            proof {
                vstd::arithmetic::div_mod::lemma_mod_multiples_vanish(1, i as int, page as int);
            }
            i = i + page;
        }
    }

    if len > 0 {
        let last = chunk[len - 1];
        chunk[len - 1] = last.wrapping_add(1);
        proof {
            assert((len - 1) as int % page as int == 0 ==> chunk@[len - 1] == 2u8);
        }
    }

    counters.leak_total_bytes = counters.leak_total_bytes + (step_bytes as u64);
    heap.push(chunk);
    proof {
        assert(final(heap)@.last()@.len() == step_bytes);
    }
}

/// One CPU-burn burst: the fixed busy loop, whose amount of work it returns.
pub fn cpu_burn_burst() -> (r: u64)
    ensures
        r == CYCLES_PER_BURST,
{
    let mut x: u64 = 0;
    let mut i: u64 = 0;
    while i < CYCLES_PER_BURST
        invariant
            x == i,
            i <= CYCLES_PER_BURST,
        decreases CYCLES_PER_BURST - i,
    {
        x = x.wrapping_add(1);
        i = i + 1;
    }
    x
}

/// The CPU worker's lifecycle over a bounded number of bursts: it registers
/// itself in the active-worker count, burns `bursts` full bursts (a full
/// burst always completes before the flag would be rechecked), adds each
/// burst to the burn counter, and deregisters on exit.
pub fn spawn_cpu_stress(counters: &mut WorkerCounters, bursts: u64)
    requires
        old(counters).cpu_active_workers < u64::MAX,
        old(counters).cpu_total_cycles + bursts * CYCLES_PER_BURST <= u64::MAX,
    ensures
        final(counters).cpu_active_workers == old(counters).cpu_active_workers,
        final(counters).cpu_total_cycles == old(counters).cpu_total_cycles + bursts
            * CYCLES_PER_BURST,
        final(counters).leak_total_bytes == old(counters).leak_total_bytes,
{
    counters.cpu_active_workers = counters.cpu_active_workers + 1;
    let mut b: u64 = 0;
    while b < bursts
        invariant
            b <= bursts,
            counters.cpu_active_workers == old(counters).cpu_active_workers + 1,
            counters.leak_total_bytes == old(counters).leak_total_bytes,
            counters.cpu_total_cycles == old(counters).cpu_total_cycles + b * CYCLES_PER_BURST,
            old(counters).cpu_total_cycles + bursts * CYCLES_PER_BURST <= u64::MAX,
        decreases bursts - b,
    {
        proof {
            assert((b + 1) * CYCLES_PER_BURST <= bursts * CYCLES_PER_BURST) by (nonlinear_arith)
                requires
                    b < bursts,
            ;
        }
        let burned = cpu_burn_burst();
        counters.cpu_total_cycles = counters.cpu_total_cycles + burned;
        b = b + 1;
    }
    counters.cpu_active_workers = counters.cpu_active_workers - 1;
}

} // verus!
