//! The live side of the polling sampler: querying a running process's
//! resident memory through the `/proc` filesystem until the process exits,
//! and timing the poll.
//!
//! The queries themselves are trusted calls into the `procfs` crate and the
//! standard clock; every decision taken on their results goes through the
//! verified polling core in [`crate::poll`].

use vstd::prelude::*;

use procfs::WithCurrentSystemInfo;

use crate::duration::Duration;
use crate::err::Error;
use crate::poll::PollObs;
use crate::poll::PollStep;
use crate::poll::max_wf;
use crate::poll::poll_step;

verus! {

#[verifier::external_type_specification]
#[verifier::external_body]
pub struct ExProcess(procfs::process::Process);

#[verifier::external_type_specification]
#[verifier::external_body]
pub struct ExStat(procfs::process::Stat);

#[verifier::external_type_specification]
#[verifier::external_body]
pub struct ExInstant(std::time::Instant);

/// Relies on procfs::process::Process::new: opens a handle to the process
/// with the given pid, failing when it does not exist or cannot be read.
#[verifier::external_body]
fn proc_open(pid: i32) -> (r: Result<procfs::process::Process, Error>) {
    procfs::process::Process::new(pid).map_err(|e| Error::FailedToGetMemory(format!("{e}")))
}

/// Relies on procfs::process::Process::stat: reads the process's current
/// stat record, failing when the process is gone or unreadable.
#[verifier::external_body]
fn proc_stat(proc: &procfs::process::Process) -> (r: Result<procfs::process::Stat, Error>) {
    proc.stat().map_err(|e| Error::FailedToGetMemory(format!("{e}")))
}

/// Relies on procfs::process::Stat::rss_bytes: the resident set size in
/// bytes, the stat's page count scaled by the system page size.
#[verifier::external_body]
fn stat_rss_bytes(stat: &procfs::process::Stat) -> (r: usize) {
    stat.rss_bytes().get() as usize
}

/// Relies on procfs::process::Process::is_alive: whether the process still
/// runs, zombie and dead states counting as not alive.
#[verifier::external_body]
fn proc_is_alive(proc: &procfs::process::Process) -> (r: bool) {
    proc.is_alive()
}

/// Relies on std::time::Instant::now: a timestamp of the current moment.
#[verifier::external_body]
fn instant_now() -> (r: std::time::Instant) {
    std::time::Instant::now()
}

/// Relies on std::time::Instant::elapsed: the span from the timestamp to
/// now; its sub-second part is below one second.
#[verifier::external_body]
fn elapsed_since(start: &std::time::Instant) -> (r: Duration)
    ensures
        r.wf(),
{
    let d = start.elapsed();
    Duration { secs: d.as_secs(), nanos: d.subsec_nanos() }
}

/// One memory query against the live process.
fn get_cur_memory(proc: &procfs::process::Process) -> (r: Result<usize, Error>) {
    match proc_stat(proc) {
        Ok(stat) => Ok(stat_rss_bytes(&stat)),
        Err(e) => Err(e),
    }
}

/// Queries the process's resident memory over and over until it exits,
/// taking each step's decision through the verified polling core. A
/// reported memory size is always a positive sample that was actually
/// observed: a run whose memory could not be seen ends in an error, never
/// in zero.
pub fn get_peak_memory(proc: &procfs::process::Process) -> (r: Result<usize, Error>)
    ensures
        r matches Ok(m) ==> m > 0,
{
    let mut max: Option<usize> = None;
    // The poll budget only bounds the loop for the termination check: at one
    // query per iteration it cannot run out before the process exits.
    let mut budget: u64 = u64::MAX;
    loop
        invariant
            max_wf(max),
        decreases budget,
    {
        if budget == 0 {
            return match max {
                Some(v) => Ok(v),
                None => Err(Error::FailedToGetMemory(String::from_str("poll budget exhausted"))),
            };
        }
        budget = budget - 1;
        let sample = get_cur_memory(proc);
        let alive = match &sample {
            Ok(m) => {
                if *m == 0 {
                    proc_is_alive(proc)
                } else {
                    true
                }
            },
            Err(_) => true,
        };
        let obs = PollObs { sample, alive };
        match poll_step(max, obs) {
            PollStep::Continue(m) => {
                max = m;
            },
            PollStep::Done(r) => {
                return r;
            },
        }
    }
}

/// Measures one run's peak memory and the wall-clock span of the poll,
/// which lasts until the process exits. When the process cannot be opened,
/// both parts are unavailable: the memory carries the failure and no time
/// is reported.
pub fn get_stats(pid: i32) -> (r: (Result<usize, Error>, Option<Duration>))
    ensures
        r.0 matches Ok(m) ==> m > 0,
        r.1 matches Some(d) ==> d.wf(),
{
    let proc = match proc_open(pid) {
        Ok(p) => p,
        Err(e) => {
            return (Err(e), None);
        },
    };
    let start = instant_now();
    // The poll loop lasts until the process has exited, so the span around
    // it is the run's measured wall-clock time.
    let mem = get_peak_memory(&proc);
    let time = elapsed_since(&start);
    (mem, Some(time))
}

} // verus!
