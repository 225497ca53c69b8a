//! Resource budgets for a supervised user worker, and the near-heap-limit
//! allowance computation.

use vstd::prelude::*;

verus! {

/// Default wall-clock budget for one user worker, in milliseconds.
pub const DEFAULT_WALL_CLOCK_LIMIT_MS: u64 = 60_000;

/// Default multiplier granted to the heap limit when memory pressure fires,
/// so the process is not killed by the OS before termination is delivered.
pub const DEFAULT_LOW_MEMORY_MULTIPLIER: u64 = 5;

/// Default number of debounced CPU bursts tolerated before termination.
pub const DEFAULT_MAX_CPU_BURSTS: u64 = 10;

/// Default debounce window between counted CPU bursts, in milliseconds.
pub const DEFAULT_CPU_BURST_INTERVAL_MS: u64 = 100;

/// The three resource budgets enforced on one user worker.
#[derive(Clone, Copy, Debug, PartialEq, Eq, Structural)]
pub struct WorkerLimits {
    pub wall_clock_limit_ms: u64,
    pub low_memory_multiplier: u64,
    pub max_cpu_bursts: u64,
    pub cpu_burst_interval_ms: u64,
}

impl WorkerLimits {
    /// The budgets a user worker is supervised under when nothing is configured.
    pub fn defaults() -> (r: WorkerLimits)
        ensures
            r.wall_clock_limit_ms == DEFAULT_WALL_CLOCK_LIMIT_MS,
            r.low_memory_multiplier == DEFAULT_LOW_MEMORY_MULTIPLIER,
            r.max_cpu_bursts == DEFAULT_MAX_CPU_BURSTS,
            r.cpu_burst_interval_ms == DEFAULT_CPU_BURST_INTERVAL_MS,
    {
        WorkerLimits {
            wall_clock_limit_ms: DEFAULT_WALL_CLOCK_LIMIT_MS,
            low_memory_multiplier: DEFAULT_LOW_MEMORY_MULTIPLIER,
            max_cpu_bursts: DEFAULT_MAX_CPU_BURSTS,
            cpu_burst_interval_ms: DEFAULT_CPU_BURST_INTERVAL_MS,
        }
    }
}

/// New heap target handed back from the near-heap-limit callback: the current
/// limit times the low-memory multiplier, so the engine survives long enough
/// for cross-thread termination to land.
pub fn heap_allowance(current_limit: usize, multiplier: u64) -> (r: usize)
    requires
        multiplier <= usize::MAX,
        current_limit * multiplier <= usize::MAX,
    ensures
        r == current_limit * multiplier,
{
    current_limit * (multiplier as usize)
}

} // verus!
