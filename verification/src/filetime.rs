//! Timestamps counted in 100-nanosecond ticks, split into two 32-bit halves,
//! as the snapshot strategy's platform reports process creation and exit
//! times.

use vstd::prelude::*;

use crate::duration::Duration;
use crate::duration::NANOS_PER_SEC;

verus! {

/// Ticks in one second: one tick is 100 nanoseconds.
pub const TICKS_PER_SEC: u64 = 10_000_000;

/// A timestamp in 100-nanosecond ticks, split into a low and a high 32-bit
/// half.
#[derive(Clone, Copy, Debug, PartialEq, Eq, Structural)]
pub struct FileTime {
    pub low: u32,
    pub high: u32,
}

impl FileTime {
    /// The timestamp as one whole number of ticks.
    pub open spec fn as_ticks(self) -> int {
        self.low + self.high * 0x1_0000_0000
    }
}

/// Joins the two halves of a timestamp into one 64-bit tick count.
pub fn filetime_to_u64(time: FileTime) -> (r: u64)
    ensures
        r == time.as_ticks(),
{
    let r = time.low as u64 | ((time.high as u64) << 32);
    proof {
        let lo = time.low as u64;
        let hi = time.high as u64;
        assert(lo | (hi << 32) == lo + hi * 0x1_0000_0000) by (bit_vector)
            requires
                lo < 0x1_0000_0000,
                hi < 0x1_0000_0000,
        ;
    }
    r
}

/// Converts a count of 100-nanosecond ticks into a duration: whole seconds
/// are the ticks divided by ten million, and each remaining tick is one
/// hundred nanoseconds.
pub fn u64_to_duration(time: u64) -> (r: Duration)
    ensures
        r.secs == time / TICKS_PER_SEC,
        r.nanos == (time % TICKS_PER_SEC) * 100,
        r.wf(),
        r.as_nanos() == time * 100,
{
    let secs = time / TICKS_PER_SEC;
    let nanos = ((time % TICKS_PER_SEC) * 100) as u32;
    proof {
        assert(time % TICKS_PER_SEC < TICKS_PER_SEC) by {
            vstd::arithmetic::div_mod::lemma_mod_bound(
                time as int, TICKS_PER_SEC as int);
        }
        assert(secs * (NANOS_PER_SEC as int) + nanos == time * 100) by {
            vstd::arithmetic::div_mod::lemma_fundamental_div_mod(
                time as int, TICKS_PER_SEC as int);
            assert((TICKS_PER_SEC as int) * (time as int / TICKS_PER_SEC as int) * 100
                == (time as int / TICKS_PER_SEC as int) * (NANOS_PER_SEC as int))
                by (nonlinear_arith);
        }
    }
    Duration { secs, nanos }
}

/// The span between two tick timestamps, as a duration. The end must not
/// precede the start.
pub fn filetime_elapsed(start: FileTime, end: FileTime) -> (r: Duration)
    requires
        start.as_ticks() <= end.as_ticks(),
    ensures
        r.wf(),
        r.as_nanos() == (end.as_ticks() - start.as_ticks()) * 100,
{
    u64_to_duration(filetime_to_u64(end) - filetime_to_u64(start))
}

} // verus!
