//! Per-worker supervisor state machine: observes wall-clock expiry, CPU-burst
//! signals and memory-pressure notifications, and decides when the engine must
//! be terminated. The surrounding runtime delivers the events and performs the
//! actual cross-thread termination.

use vstd::prelude::*;

use crate::limits::WorkerLimits;

verus! {

/// Which resource budget was exceeded.
#[derive(Clone, Copy, Debug, PartialEq, Eq, Structural)]
pub enum Breach {
    WallClock,
    Cpu,
    Memory,
}

/// The supervisor's decision after one observed event.
#[derive(Clone, Copy, Debug, PartialEq, Eq, Structural)]
pub enum SupervisorVerdict {
    Continue,
    Kill { breach: Breach },
}

/// Supervisor bookkeeping while the worker is armed: how many debounced CPU
/// bursts were counted and when the last one was counted. Times are in
/// milliseconds of a monotonic clock.
#[derive(Clone, Copy, Debug, PartialEq, Eq, Structural)]
pub struct SupervisorState {
    pub limits: WorkerLimits,
    pub start_ms: u64,
    pub bursts: u64,
    pub last_burst_ms: u64,
}

/// A CPU alarm at `now_ms` is counted as a burst only when more than the
/// debounce window has passed since the last counted burst.
pub open spec fn spec_burst_counted(s: SupervisorState, now_ms: u64) -> bool {
    now_ms - s.last_burst_ms > s.limits.cpu_burst_interval_ms
}

/// What one CPU alarm does: the next state and the verdict.
pub open spec fn spec_cpu_alarm(s: SupervisorState, now_ms: u64) -> (
    SupervisorState,
    SupervisorVerdict,
) {
    if spec_burst_counted(s, now_ms) {
        if s.bursts == s.limits.max_cpu_bursts {
            (s, SupervisorVerdict::Kill { breach: Breach::Cpu })
        } else {
            (
                SupervisorState { bursts: (s.bursts + 1) as u64, last_burst_ms: now_ms, ..s },
                SupervisorVerdict::Continue,
            )
        }
    } else {
        (s, SupervisorVerdict::Continue)
    }
}

impl SupervisorState {
    /// Invariant of every reachable armed state: the burst count never
    /// exceeds its budget, and each counted burst moved the marker past a
    /// full debounce window, so the marker bounds the counted CPU activity
    /// from below.
    pub open spec fn wf(self) -> bool {
        &&& self.limits.max_cpu_bursts < u64::MAX
        &&& self.bursts <= self.limits.max_cpu_bursts
        &&& self.start_ms <= self.last_burst_ms
        &&& self.last_burst_ms as int >= self.start_ms as int + self.bursts as int * (
        self.limits.cpu_burst_interval_ms as int + 1)
    }

    /// Arms the supervisor at `now_ms` with the given budgets.
    pub fn arm(limits: WorkerLimits, now_ms: u64) -> (s: SupervisorState)
        requires
            limits.max_cpu_bursts < u64::MAX,
        ensures
            s == (SupervisorState { limits, start_ms: now_ms, bursts: 0, last_burst_ms: now_ms }),
            s.wf(),
    {
        SupervisorState { limits, start_ms: now_ms, bursts: 0, last_burst_ms: now_ms }
    }

    /// One CPU-time alarm observed at `now_ms`. The alarm is debounced: it is
    /// counted as a burst only when more than `cpu_burst_interval_ms` of wall
    /// time passed since the last counted burst, and the worker is killed on
    /// the burst that exceeds `max_cpu_bursts`.
    pub fn on_cpu_alarm(&mut self, now_ms: u64) -> (v: SupervisorVerdict)
        requires
            old(self).wf(),
            now_ms >= old(self).last_burst_ms,
        ensures
            final(self).wf(),
            (*final(self), v) == spec_cpu_alarm(*old(self), now_ms),
            !spec_burst_counted(*old(self), now_ms) ==> *final(self) == *old(self)
                && v == SupervisorVerdict::Continue,
            spec_burst_counted(*old(self), now_ms) && old(self).bursts
                < old(self).limits.max_cpu_bursts ==> *final(self) == (SupervisorState {
                bursts: (old(self).bursts + 1) as u64,
                last_burst_ms: now_ms,
                ..*old(self)
            }) && v == SupervisorVerdict::Continue,
            spec_burst_counted(*old(self), now_ms) && old(self).bursts
                == old(self).limits.max_cpu_bursts ==> *final(self) == *old(self) && v == (
            SupervisorVerdict::Kill { breach: Breach::Cpu }),
    {
        if now_ms - self.last_burst_ms > self.limits.cpu_burst_interval_ms {
            if self.bursts == self.limits.max_cpu_bursts {
                return SupervisorVerdict::Kill { breach: Breach::Cpu };
            }
            self.bursts = self.bursts + 1;
            self.last_burst_ms = now_ms;
            proof {
                let b = old(self).bursts as int;
                let w = self.limits.cpu_burst_interval_ms as int + 1;
                assert((b + 1) * w == b * w + w) by (nonlinear_arith);
            }
        }
        SupervisorVerdict::Continue
    }

    /// The wall-clock deadline fired: the worker is killed at once.
    pub fn on_wall_clock_deadline(&self) -> (v: SupervisorVerdict)
        ensures
            v == (SupervisorVerdict::Kill { breach: Breach::WallClock }),
    {
        SupervisorVerdict::Kill { breach: Breach::WallClock }
    }

    /// A near-heap-limit notification arrived: the first one already kills
    /// the worker.
    pub fn on_memory_pressure(&self) -> (v: SupervisorVerdict)
        ensures
            v == (SupervisorVerdict::Kill { breach: Breach::Memory }),
    {
        SupervisorVerdict::Kill { breach: Breach::Memory }
    }
}

/// A CPU kill cannot come early: when a reachable (well-formed) state kills
/// on a counted burst, the full burst budget was spent, so at least
/// `max_cpu_bursts * cpu_burst_interval_ms` of wall time has passed since the
/// supervisor was armed.
/// The state after a whole sequence of CPU alarms; a killing alarm leaves
/// the state as it stands, so running past a kill changes nothing.
pub open spec fn spec_run_alarms(s: SupervisorState, times: Seq<u64>) -> SupervisorState
    decreases times.len(),
{
    if times.len() == 0 {
        s
    } else {
        spec_run_alarms(spec_cpu_alarm(s, times[0]).0, times.drop_first())
    }
}

/// An alarm sequence a monotonic clock can deliver to this state: times do
/// not decrease, and none lies before the state's burst marker.
pub open spec fn alarms_admissible(s: SupervisorState, times: Seq<u64>) -> bool {
    &&& (forall|i: int| 0 <= i < times.len() - 1 ==> #[trigger] times[i] <= times[i + 1])
    &&& (times.len() > 0 ==> times[0] >= s.last_burst_ms)
}

/// Running any admissible alarm sequence keeps the state well-formed, keeps
/// the arming instant and budgets, and never moves the burst marker past
/// the last alarm.
pub proof fn lemma_run_alarms_wf(s: SupervisorState, times: Seq<u64>)
    requires
        s.wf(),
        alarms_admissible(s, times),
    ensures
        spec_run_alarms(s, times).wf(),
        spec_run_alarms(s, times).start_ms == s.start_ms,
        spec_run_alarms(s, times).limits == s.limits,
        spec_run_alarms(s, times).last_burst_ms >= s.last_burst_ms,
        times.len() > 0 ==> spec_run_alarms(s, times).last_burst_ms <= times.last(),
        times.len() == 0 ==> spec_run_alarms(s, times) == s,
    decreases times.len(),
{
    if times.len() > 0 {
        let s1 = spec_cpu_alarm(s, times[0]).0;
        assert(s1.wf()) by {
            if spec_burst_counted(s, times[0]) && s.bursts < s.limits.max_cpu_bursts {
                let b = s.bursts as int;
                let w = s.limits.cpu_burst_interval_ms as int + 1;
                assert((b + 1) * w == b * w + w) by (nonlinear_arith);
            }
        }
        let rest = times.drop_first();
        assert(alarms_admissible(s1, rest)) by {
            assert forall|i: int| 0 <= i < rest.len() - 1 implies #[trigger] rest[i] <= rest[i
                + 1] by {
                assert(rest[i] == times[i + 1]);
                assert(rest[i + 1] == times[i + 2]);
            }
            if rest.len() > 0 {
                assert(rest[0] == times[1]);
                assert(times[0] <= times[1]);
            }
        }
        lemma_run_alarms_wf(s1, rest);
        if rest.len() > 0 {
            assert(rest.last() == times.last());
        }
    }
}

/// The CPU law over a whole run: armed with any well-formed state, fed any
/// alarm sequence a monotonic clock can deliver, the supervisor hands down
/// the Cpu kill verdict only on an alarm lying at least
/// `max_cpu_bursts * cpu_burst_interval_ms` past the arming instant.
pub proof fn lemma_no_early_cpu_kill(s0: SupervisorState, times: Seq<u64>)
    requires
        s0.wf(),
        alarms_admissible(s0, times),
        times.len() > 0,
        (spec_cpu_alarm(spec_run_alarms(s0, times.drop_last()), times.last()).1 matches
            SupervisorVerdict::Kill { .. }),
    ensures
        times.last() as int >= s0.start_ms as int + s0.limits.max_cpu_bursts as int
            * s0.limits.cpu_burst_interval_ms as int,
{
    let prefix = times.drop_last();
    assert(alarms_admissible(s0, prefix)) by {
        assert forall|i: int| 0 <= i < prefix.len() - 1 implies #[trigger] prefix[i] <= prefix[i
            + 1] by {
            assert(prefix[i] == times[i]);
            assert(prefix[i + 1] == times[i + 1]);
        }
        if prefix.len() > 0 {
            assert(prefix[0] == times[0]);
        }
    }
    lemma_run_alarms_wf(s0, prefix);
    let sn = spec_run_alarms(s0, prefix);
    assert(times.last() >= sn.last_burst_ms) by {
        if prefix.len() == 0 {
            assert(times.last() == times[0]);
        } else {
            assert(prefix.last() == times[times.len() - 2]);
            assert(times[times.len() - 2] <= times[times.len() - 1]);
        }
    }
    assert(spec_burst_counted(sn, times.last()) && sn.bursts == sn.limits.max_cpu_bursts);
    lemma_cpu_kill_spends_budget(sn, times.last());
}

pub proof fn lemma_cpu_kill_spends_budget(s: SupervisorState, now_ms: u64)
    requires
        s.wf(),
        now_ms >= s.last_burst_ms,
        spec_burst_counted(s, now_ms),
        s.bursts == s.limits.max_cpu_bursts,
    ensures
        now_ms as int >= s.start_ms as int + s.limits.max_cpu_bursts as int
            * s.limits.cpu_burst_interval_ms as int,
{
    let b = s.limits.max_cpu_bursts as int;
    let i = s.limits.cpu_burst_interval_ms as int;
    assert(b * (i + 1) >= b * i) by (nonlinear_arith)
        requires
            b >= 0,
    ;
}

} // verus!
