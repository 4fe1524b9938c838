//! Measure a child process's wall-clock run time, peak resident memory and
//! exit status, and fold repeated runs into summary statistics.
//!
//! The crate holds the measurement core: the polling strategy that races a
//! live process for its peak memory, the reconciliation of precise and
//! fallback timings, the aggregation of per-run records, and the
//! human-readable memory-unit formatting. Spawning, waiting and all printing
//! live outside the crate and hand it plain values.

pub mod color_mode;
pub mod com_measure;
pub mod duration;
pub mod err;
pub mod filetime;
pub mod measurement;
pub mod mem_fmt;
pub mod poll;
pub mod sampler;
