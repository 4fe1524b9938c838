//! Running summary statistics over repeated runs.
//!
//! One record per run is folded in and then dropped: the aggregator keeps
//! only counts, sums and extremes. Timing statistics cover every measured
//! run; memory statistics cover only the runs whose memory could be read;
//! exit-code classification covers only the runs that reported a code.

use vstd::prelude::*;

use crate::duration::Duration;
use crate::err::Error;
use crate::measurement::Measurement;

verus! {

/// The summary of a repeated-run session.
#[derive(Debug, PartialEq, Eq, Structural)]
pub struct ComMeasure {
    /// Measurement invocations started.
    pub attempts: usize,
    /// Invocations that produced a record.
    pub measured: usize,
    /// Sum of the measured runs' times, clamped at the longest duration.
    pub total_time: Duration,
    /// Shortest measured time; the longest duration while nothing is measured.
    pub best_time: Duration,
    /// Longest measured time; zero while nothing is measured.
    pub worst_time: Duration,
    /// Runs that exited with code zero.
    pub success: usize,
    /// Runs that exited with a non-zero code.
    pub failure: usize,
    /// Runs whose memory could be read.
    pub memory_samples: usize,
    /// Sum of the read memory values, clamped at the largest byte count.
    pub total_memory: usize,
    /// Smallest read memory value; the largest byte count while none is read.
    pub best_memory: usize,
    /// Largest read memory value; zero while none is read.
    pub worst_memory: usize,
}

impl ComMeasure {
    /// The counters stay consistent: no more runs measured than attempted,
    /// no more classified or memory-sampled than measured, and each running
    /// extreme pair ordered as soon as it covers at least one run.
    pub open spec fn wf(self) -> bool {
        &&& self.measured <= self.attempts
        &&& self.success + self.failure <= self.measured
        &&& self.memory_samples <= self.measured
        &&& self.total_time.wf()
        &&& self.best_time.wf()
        &&& self.worst_time.wf()
        &&& self.measured > 0 ==> self.best_time.as_nanos() <= self.worst_time.as_nanos()
        &&& self.memory_samples > 0 ==> self.best_memory <= self.worst_memory
    }

    /// A fresh aggregator: counters at zero, each minimum at its type's
    /// ceiling and each maximum at zero, so that the first fold lands both.
    pub open spec fn spec_new() -> ComMeasure {
        ComMeasure {
            attempts: 0,
            measured: 0,
            total_time: Duration::spec_zero(),
            best_time: Duration::spec_max(),
            worst_time: Duration::spec_zero(),
            success: 0,
            failure: 0,
            memory_samples: 0,
            total_memory: 0,
            best_memory: usize::MAX,
            worst_memory: 0,
        }
    }

    /// Creates a fresh aggregator.
    pub fn new() -> (r: ComMeasure)
        ensures
            r == ComMeasure::spec_new(),
            r.wf(),
    {
        ComMeasure {
            attempts: 0,
            measured: 0,
            total_time: Duration::zero(),
            best_time: Duration::max_value(),
            worst_time: Duration::zero(),
            success: 0,
            failure: 0,
            memory_samples: 0,
            total_memory: 0,
            best_memory: usize::MAX,
            worst_memory: 0,
        }
    }

    /// The state after folding one record: every time statistic covers the
    /// run, the exit-code classification covers it when a code is present,
    /// and the memory statistics cover it when its memory was read.
    pub open spec fn spec_fold(cm: ComMeasure, m: Measurement) -> ComMeasure {
        let t = ComMeasure {
            attempts: (cm.attempts + 1) as usize,
            measured: (cm.measured + 1) as usize,
            total_time: cm.total_time.spec_saturating_add(m.time),
            best_time: cm.best_time.spec_min(m.time),
            worst_time: cm.worst_time.spec_max_of(m.time),
            success: if m.exit_code matches Some(c) && c == 0 {
                (cm.success + 1) as usize
            } else {
                cm.success
            },
            failure: if m.exit_code matches Some(c) && c != 0 {
                (cm.failure + 1) as usize
            } else {
                cm.failure
            },
            ..cm
        };
        match m.memory {
            Ok(mem) => ComMeasure {
                memory_samples: (t.memory_samples + 1) as usize,
                total_memory: if t.total_memory + mem <= usize::MAX {
                    (t.total_memory + mem) as usize
                } else {
                    usize::MAX
                },
                best_memory: if mem < t.best_memory {
                    mem
                } else {
                    t.best_memory
                },
                worst_memory: if mem > t.worst_memory {
                    mem
                } else {
                    t.worst_memory
                },
                ..t
            },
            Err(_) => t,
        }
    }

    /// The state after one measurement invocation: a run that produced no
    /// record only counts as an attempt; a run with a record is folded.
    pub open spec fn spec_measure(cm: ComMeasure, run: Result<Measurement, Error>) -> ComMeasure {
        match run {
            Ok(m) => ComMeasure::spec_fold(cm, m),
            Err(_) => ComMeasure { attempts: (cm.attempts + 1) as usize, ..cm },
        }
    }

    /// What one measurement invocation reports back: the sampler's failure
    /// when the run produced no record, else the record's memory failure
    /// when its memory could not be read, else success.
    pub open spec fn spec_measure_result(run: Result<Measurement, Error>) -> Result<(), Error> {
        match run {
            Ok(m) => match m.memory {
                Ok(_) => Ok(()),
                Err(e) => Err(e),
            },
            Err(e) => Err(e),
        }
    }

    /// Folds the outcome of one run into the summary. A failed run counts
    /// only as an attempt and its error is handed back; a measured run
    /// updates every applicable statistic, and its memory failure, if any,
    /// is handed back after the time statistics are already in.
    pub fn measure(&mut self, run: Result<Measurement, Error>) -> (r: Result<(), Error>)
        requires
            old(self).wf(),
            old(self).attempts < usize::MAX,
            run matches Ok(m) ==> m.wf(),
        ensures
            *final(self) == ComMeasure::spec_measure(*old(self), run),
            r == ComMeasure::spec_measure_result(run),
            final(self).wf(),
    {
        self.attempts = self.attempts + 1;

        let m = match run {
            Ok(m) => m,
            Err(e) => {
                return Err(e);
            },
        };

        self.measured = self.measured + 1;
        self.total_time = self.total_time.saturating_add(m.time);
        self.best_time = self.best_time.min_of(m.time);
        self.worst_time = self.worst_time.max_of(m.time);

        match m.exit_code {
            Some(0) => {
                self.success = self.success + 1;
            },
            Some(_) => {
                self.failure = self.failure + 1;
            },
            None => {},
        }

        let mem = match m.memory {
            Ok(v) => v,
            Err(e) => {
                return Err(e);
            },
        };

        self.memory_samples = self.memory_samples + 1;
        self.total_memory = self.total_memory.saturating_add(mem);
        self.best_memory = if self.best_memory <= mem {
            self.best_memory
        } else {
            mem
        };
        self.worst_memory = if self.worst_memory >= mem {
            self.worst_memory
        } else {
            mem
        };

        Ok(())
    }

    /// The divisor used for a displayed average: the sample count, floored
    /// at one so that an empty session divides by one instead of by zero.
    pub open spec fn spec_divisor(n: usize) -> int {
        if n == 0 {
            1int
        } else {
            n as int
        }
    }

    /// The average time over the measured runs, truncated to nanoseconds;
    /// an empty session averages to the (zero) total.
    pub fn avg_time(&self) -> (r: Duration)
        requires
            self.total_time.wf(),
        ensures
            r.wf(),
            r.as_nanos() == self.total_time.as_nanos() / ComMeasure::spec_divisor(self.measured),
    {
        let d: u128 = if self.measured == 0 {
            1
        } else {
            self.measured as u128
        };
        let n: u128 = crate::duration::NANOS_PER_SEC as u128;
        let total: u128 = self.total_time.secs as u128 * n + self.total_time.nanos as u128;
        let q: u128 = total / d;
        let secs_wide: u128 = q / n;
        let nanos_wide: u128 = q % n;
        proof {
            let ni = crate::duration::NANOS_PER_SEC as int;
            assert(total == self.total_time.as_nanos());
            assert(q <= total) by {
                vstd::arithmetic::div_mod::lemma_div_is_ordered_by_denominator(
                    total as int, 1, d as int);
                vstd::arithmetic::div_mod::lemma_div_basics(total as int);
            }
            assert(secs_wide <= u64::MAX) by {
                assert(q < (u64::MAX + 1) * ni) by {
                    vstd::arithmetic::mul::lemma_mul_inequality(
                        self.total_time.secs as int, u64::MAX as int, ni);
                }
                vstd::arithmetic::div_mod::lemma_multiply_divide_lt(
                    q as int, u64::MAX + 1, ni);
            }
            assert(secs_wide * ni + nanos_wide == q) by {
                vstd::arithmetic::div_mod::lemma_fundamental_div_mod(q as int, ni);
            }
        }
        Duration { secs: secs_wide as u64, nanos: nanos_wide as u32 }
    }

    /// The average memory over the runs whose memory was read, truncated to
    /// whole bytes; an empty session averages to the (zero) total.
    pub fn avg_memory(&self) -> (r: usize)
        ensures
            r == self.total_memory as int / ComMeasure::spec_divisor(self.memory_samples),
    {
        let d: usize = if self.memory_samples == 0 {
            1
        } else {
            self.memory_samples
        };
        self.total_memory / d
    }
}

/// The state after folding each record of `runs` in order.
pub open spec fn spec_fold_runs(cm: ComMeasure, runs: Seq<Measurement>) -> ComMeasure
    decreases runs.len(),
{
    if runs.len() == 0 {
        cm
    } else {
        spec_fold_runs(ComMeasure::spec_fold(cm, runs[0]), runs.skip(1))
    }
}

/// Every record in the sequence is well-formed.
pub open spec fn all_wf(runs: Seq<Measurement>) -> bool {
    forall|i: int| 0 <= i < runs.len() ==> (#[trigger] runs[i]).wf()
}

/// The sum of the runs' times, in nanoseconds.
pub open spec fn sum_times(runs: Seq<Measurement>) -> int
    decreases runs.len(),
{
    if runs.len() == 0 {
        0
    } else {
        runs[0].time.as_nanos() + sum_times(runs.skip(1))
    }
}

/// The shortest of the runs' times, in nanoseconds.
pub open spec fn min_time(runs: Seq<Measurement>) -> int
    decreases runs.len(),
{
    if runs.len() <= 1 {
        runs[0].time.as_nanos()
    } else {
        vstd::math::min(runs[0].time.as_nanos(), min_time(runs.skip(1)))
    }
}

/// The longest of the runs' times, in nanoseconds.
pub open spec fn max_time(runs: Seq<Measurement>) -> int
    decreases runs.len(),
{
    if runs.len() <= 1 {
        runs[0].time.as_nanos()
    } else {
        vstd::math::max(runs[0].time.as_nanos(), max_time(runs.skip(1)))
    }
}

/// How many runs exited with code zero.
pub open spec fn count_success(runs: Seq<Measurement>) -> int
    decreases runs.len(),
{
    if runs.len() == 0 {
        0
    } else {
        (if runs[0].exit_code matches Some(c) && c == 0 { 1int } else { 0int })
            + count_success(runs.skip(1))
    }
}

/// How many runs exited with a non-zero code.
pub open spec fn count_failure(runs: Seq<Measurement>) -> int
    decreases runs.len(),
{
    if runs.len() == 0 {
        0
    } else {
        (if runs[0].exit_code matches Some(c) && c != 0 { 1int } else { 0int })
            + count_failure(runs.skip(1))
    }
}

/// How many runs reported no exit code.
pub open spec fn count_no_exit(runs: Seq<Measurement>) -> int
    decreases runs.len(),
{
    if runs.len() == 0 {
        0
    } else {
        (if runs[0].exit_code is None { 1int } else { 0int }) + count_no_exit(runs.skip(1))
    }
}

/// How many runs had a readable memory value.
pub open spec fn count_mem(runs: Seq<Measurement>) -> int
    decreases runs.len(),
{
    if runs.len() == 0 {
        0
    } else {
        (if runs[0].memory is Ok { 1int } else { 0int }) + count_mem(runs.skip(1))
    }
}

/// The sum of the readable memory values, in bytes.
pub open spec fn sum_mem(runs: Seq<Measurement>) -> int
    decreases runs.len(),
{
    if runs.len() == 0 {
        0
    } else {
        (match runs[0].memory {
            Ok(m) => m as int,
            Err(_) => 0int,
        }) + sum_mem(runs.skip(1))
    }
}

/// The smallest readable memory value, over the runs that have one.
pub open spec fn min_mem(runs: Seq<Measurement>) -> int
    decreases runs.len(),
{
    if runs.len() == 0 {
        0
    } else {
        match runs[0].memory {
            Ok(m) => if count_mem(runs.skip(1)) == 0 {
                m as int
            } else {
                vstd::math::min(m as int, min_mem(runs.skip(1)))
            },
            Err(_) => min_mem(runs.skip(1)),
        }
    }
}

/// The largest readable memory value, over the runs that have one.
pub open spec fn max_mem(runs: Seq<Measurement>) -> int
    decreases runs.len(),
{
    if runs.len() == 0 {
        0
    } else {
        match runs[0].memory {
            Ok(m) => if count_mem(runs.skip(1)) == 0 {
                m as int
            } else {
                vstd::math::max(m as int, max_mem(runs.skip(1)))
            },
            Err(_) => max_mem(runs.skip(1)),
        }
    }
}

/// Every sum and count over a sequence of records is non-negative.
proof fn lemma_sums_nonneg(runs: Seq<Measurement>)
    ensures
        sum_times(runs) >= 0,
        sum_mem(runs) >= 0,
        count_success(runs) >= 0,
        count_failure(runs) >= 0,
        count_no_exit(runs) >= 0,
        count_mem(runs) >= 0,
    decreases runs.len(),
{
    if runs.len() > 0 {
        lemma_sums_nonneg(runs.skip(1));
    }
}

/// When at least one run has a readable memory value, both memory extremes
/// lie within the byte-count range.
proof fn lemma_mem_extreme_bounds(runs: Seq<Measurement>)
    requires
        count_mem(runs) > 0,
    ensures
        0 <= min_mem(runs) <= usize::MAX,
        0 <= max_mem(runs) <= usize::MAX,
    decreases runs.len(),
{
    if runs.len() > 0 {
        if count_mem(runs.skip(1)) > 0 {
            lemma_mem_extreme_bounds(runs.skip(1));
        }
    }
}

/// Folding a sequence of records advances each counter by the matching
/// count over the sequence, and keeps the summary well-formed.
pub proof fn lemma_fold_runs_counts(cm: ComMeasure, runs: Seq<Measurement>)
    requires
        cm.wf(),
        all_wf(runs),
        cm.attempts + runs.len() <= usize::MAX,
    ensures
        spec_fold_runs(cm, runs).wf(),
        spec_fold_runs(cm, runs).attempts == cm.attempts + runs.len(),
        spec_fold_runs(cm, runs).measured == cm.measured + runs.len(),
        spec_fold_runs(cm, runs).success == cm.success + count_success(runs),
        spec_fold_runs(cm, runs).failure == cm.failure + count_failure(runs),
        spec_fold_runs(cm, runs).memory_samples == cm.memory_samples + count_mem(runs),
    decreases runs.len(),
{
    if runs.len() > 0 {
        let next = ComMeasure::spec_fold(cm, runs[0]);
        assert(runs[0].wf());
        assert(next.wf());
        lemma_all_wf_skip(runs);
        lemma_sums_nonneg(runs.skip(1));
        lemma_fold_runs_counts(next, runs.skip(1));
    }
}

/// A sequence of well-formed records stays well-formed with its head
/// dropped.
proof fn lemma_all_wf_skip(runs: Seq<Measurement>)
    requires
        all_wf(runs),
        runs.len() > 0,
    ensures
        all_wf(runs.skip(1)),
{
    assert(forall|i: int| 0 <= i < runs.skip(1).len() ==> runs.skip(1)[i] == runs[i + 1]);
}

/// Folding a sequence of records advances the time statistics: the total by
/// the (clamped) sum of the times, and each extreme to the extreme of its
/// old value and the sequence's own extreme.
pub proof fn lemma_fold_runs_times(cm: ComMeasure, runs: Seq<Measurement>)
    requires
        cm.wf(),
        all_wf(runs),
        cm.attempts + runs.len() <= usize::MAX,
    ensures
        spec_fold_runs(cm, runs).total_time.as_nanos() == vstd::math::min(
            cm.total_time.as_nanos() + sum_times(runs),
            Duration::spec_max().as_nanos(),
        ),
        runs.len() == 0 ==> spec_fold_runs(cm, runs).best_time == cm.best_time,
        runs.len() > 0 ==> spec_fold_runs(cm, runs).best_time.as_nanos() == vstd::math::min(
            cm.best_time.as_nanos(),
            min_time(runs),
        ),
        runs.len() == 0 ==> spec_fold_runs(cm, runs).worst_time == cm.worst_time,
        runs.len() > 0 ==> spec_fold_runs(cm, runs).worst_time.as_nanos() == vstd::math::max(
            cm.worst_time.as_nanos(),
            max_time(runs),
        ),
    decreases runs.len(),
{
    if runs.len() > 0 {
        let next = ComMeasure::spec_fold(cm, runs[0]);
        assert(runs[0].wf());
        assert(next.wf());
        lemma_all_wf_skip(runs);
        lemma_fold_runs_times(next, runs.skip(1));
        lemma_sums_nonneg(runs.skip(1));
    }
}

/// Folding a sequence of records advances the memory statistics, over the
/// subset of runs whose memory was read: the total by the (clamped) sum of
/// the read values, and each extreme to the extreme of its old value and
/// the subset's own extreme.
pub proof fn lemma_fold_runs_memory(cm: ComMeasure, runs: Seq<Measurement>)
    requires
        cm.wf(),
        all_wf(runs),
        cm.attempts + runs.len() <= usize::MAX,
    ensures
        spec_fold_runs(cm, runs).total_memory == vstd::math::min(
            cm.total_memory + sum_mem(runs),
            usize::MAX as int,
        ),
        count_mem(runs) == 0 ==> spec_fold_runs(cm, runs).best_memory == cm.best_memory,
        count_mem(runs) > 0 ==> spec_fold_runs(cm, runs).best_memory == vstd::math::min(
            cm.best_memory as int,
            min_mem(runs),
        ),
        count_mem(runs) == 0 ==> spec_fold_runs(cm, runs).worst_memory == cm.worst_memory,
        count_mem(runs) > 0 ==> spec_fold_runs(cm, runs).worst_memory == vstd::math::max(
            cm.worst_memory as int,
            max_mem(runs),
        ),
    decreases runs.len(),
{
    if runs.len() > 0 {
        let next = ComMeasure::spec_fold(cm, runs[0]);
        assert(runs[0].wf());
        assert(next.wf());
        lemma_all_wf_skip(runs);
        lemma_sums_nonneg(runs.skip(1));
        lemma_fold_runs_memory(next, runs.skip(1));
        if count_mem(runs.skip(1)) > 0 {
            lemma_mem_extreme_bounds(runs.skip(1));
        }
    }
}

/// Every run is exactly one of: exited zero, exited non-zero, or reported
/// no exit code.
proof fn lemma_exit_partition(runs: Seq<Measurement>)
    ensures
        count_success(runs) + count_failure(runs) + count_no_exit(runs) == runs.len(),
    decreases runs.len(),
{
    if runs.len() > 0 {
        lemma_exit_partition(runs.skip(1));
    }
}

/// Feeding any sequence of records to a fresh aggregator leaves `measured`
/// at the number of records, `total_time` at the sum of their times,
/// `best_time` at their minimum and `worst_time` at their maximum.
pub proof fn lemma_fresh_time_stats(runs: Seq<Measurement>)
    requires
        all_wf(runs),
        runs.len() > 0,
        runs.len() <= usize::MAX,
        sum_times(runs) <= Duration::spec_max().as_nanos(),
    ensures
        spec_fold_runs(ComMeasure::spec_new(), runs).measured == runs.len(),
        spec_fold_runs(ComMeasure::spec_new(), runs).total_time.as_nanos() == sum_times(runs),
        spec_fold_runs(ComMeasure::spec_new(), runs).best_time.as_nanos() == min_time(runs),
        spec_fold_runs(ComMeasure::spec_new(), runs).worst_time.as_nanos() == max_time(runs),
{
    let fresh = ComMeasure::spec_new();
    lemma_fold_runs_counts(fresh, runs);
    lemma_fold_runs_times(fresh, runs);
    assert(runs[0].wf());
    assert(min_time(runs) <= runs[0].time.as_nanos());
    assert(max_time(runs) >= runs[0].time.as_nanos());
    lemma_sums_nonneg(runs);
}

/// In any aggregator built from a sequence of records, successes and
/// failures never outnumber the measured runs, and they account for every
/// measured run exactly when every record reported an exit code.
pub proof fn lemma_success_failure_accounting(runs: Seq<Measurement>)
    requires
        all_wf(runs),
        runs.len() <= usize::MAX,
    ensures
        spec_fold_runs(ComMeasure::spec_new(), runs).success + spec_fold_runs(
            ComMeasure::spec_new(),
            runs,
        ).failure + count_no_exit(runs) == spec_fold_runs(ComMeasure::spec_new(), runs).measured,
        spec_fold_runs(ComMeasure::spec_new(), runs).success + spec_fold_runs(
            ComMeasure::spec_new(),
            runs,
        ).failure <= spec_fold_runs(ComMeasure::spec_new(), runs).measured,
        spec_fold_runs(ComMeasure::spec_new(), runs).success + spec_fold_runs(
            ComMeasure::spec_new(),
            runs,
        ).failure == spec_fold_runs(ComMeasure::spec_new(), runs).measured <==> count_no_exit(
            runs,
        ) == 0,
{
    let fresh = ComMeasure::spec_new();
    lemma_fold_runs_counts(fresh, runs);
    lemma_exit_partition(runs);
    lemma_sums_nonneg(runs);
}

/// In any aggregator built from a sequence of records, the memory
/// statistics cover exactly the records whose memory was read: their count
/// never exceeds the measured runs, the total is their sum, and the
/// extremes are their minimum and maximum (or the fresh sentinels when no
/// record had a readable memory value).
pub proof fn lemma_fresh_memory_stats(runs: Seq<Measurement>)
    requires
        all_wf(runs),
        runs.len() <= usize::MAX,
        sum_mem(runs) <= usize::MAX,
    ensures
        spec_fold_runs(ComMeasure::spec_new(), runs).memory_samples == count_mem(runs),
        spec_fold_runs(ComMeasure::spec_new(), runs).memory_samples <= spec_fold_runs(
            ComMeasure::spec_new(),
            runs,
        ).measured,
        spec_fold_runs(ComMeasure::spec_new(), runs).total_memory == sum_mem(runs),
        count_mem(runs) > 0 ==> spec_fold_runs(ComMeasure::spec_new(), runs).best_memory
            == min_mem(runs),
        count_mem(runs) > 0 ==> spec_fold_runs(ComMeasure::spec_new(), runs).worst_memory
            == max_mem(runs),
        count_mem(runs) == 0 ==> spec_fold_runs(ComMeasure::spec_new(), runs).best_memory
            == usize::MAX,
        count_mem(runs) == 0 ==> spec_fold_runs(ComMeasure::spec_new(), runs).worst_memory == 0,
{
    let fresh = ComMeasure::spec_new();
    lemma_fold_runs_counts(fresh, runs);
    lemma_fold_runs_memory(fresh, runs);
    lemma_sums_nonneg(runs);
    if count_mem(runs) > 0 {
        lemma_mem_extreme_bounds(runs);
    }
}

} // verus!
