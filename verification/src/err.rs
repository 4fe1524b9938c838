//! The closed error taxonomy of the measurement core.
//!
//! Causes coming from the operating system are carried as plain text so that
//! every variant is an exhaustive, checkable tag.

use vstd::prelude::*;

verus! {

/// Everything that can go wrong while measuring a run.
#[derive(Debug, Clone, PartialEq, Eq)]
pub enum Error {
    /// The process exited before any memory sample could be obtained.
    ProcessTooFast,
    /// A file could not be written: the path, and the cause.
    FailedToWrite(String, String),
    /// The process could not be spawned: the program, and the cause.
    FailedToSpawn(String, String),
    /// The process could not be waited for: the program, and the cause.
    FailedToWait(String, String),
    /// The process's memory could not be read: the cause.
    FailedToGetMemory(String),
    /// The process's precise times could not be read: the cause.
    FailedToGetTime(String),
}

impl Error {
    /// An exact copy of the error.
    pub fn duplicate(&self) -> (r: Error)
        ensures
            r == *self,
    {
        match self {
            Error::ProcessTooFast => Error::ProcessTooFast,
            Error::FailedToWrite(p, c) => Error::FailedToWrite(p.clone(), c.clone()),
            Error::FailedToSpawn(p, c) => Error::FailedToSpawn(p.clone(), c.clone()),
            Error::FailedToWait(p, c) => Error::FailedToWait(p.clone(), c.clone()),
            Error::FailedToGetMemory(c) => Error::FailedToGetMemory(c.clone()),
            Error::FailedToGetTime(c) => Error::FailedToGetTime(c.clone()),
        }
    }
}

} // verus!
