//! The record one completed run produces.

use vstd::prelude::*;

use crate::duration::Duration;
use crate::err::Error;

verus! {

/// What one run of the measured process yielded. The elapsed time is always
/// present; the peak memory may instead carry the failure it ended in; the
/// exit code is absent when the process terminated without reporting one.
#[derive(Debug, PartialEq, Eq)]
pub struct Measurement {
    /// Wall-clock time the run took.
    pub time: Duration,
    /// Best-effort maximum of the observed resident memory, in bytes.
    pub memory: Result<usize, Error>,
    /// The process's exit code, when it reported one.
    pub exit_code: Option<i32>,
}

impl Measurement {
    /// The elapsed time is a well-formed duration.
    pub open spec fn wf(self) -> bool {
        self.time.wf()
    }

    /// Builds the record for one run, reconciling the two timing sources:
    /// the precise time where the platform could provide one, else the
    /// wall-clock span measured around the run.
    pub fn from_parts(
        precise_time: Option<Duration>,
        fallback_time: Duration,
        memory: Result<usize, Error>,
        exit_code: Option<i32>,
    ) -> (r: Measurement)
        requires
            precise_time matches Some(t) ==> t.wf(),
            fallback_time.wf(),
        ensures
            r.time == match precise_time {
                Some(t) => t,
                None => fallback_time,
            },
            r.memory == memory,
            r.exit_code == exit_code,
            r.wf(),
    {
        Measurement {
            time: match precise_time {
                Some(t) => t,
                None => fallback_time,
            },
            memory,
            exit_code,
        }
    }
}

} // verus!
