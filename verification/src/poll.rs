//! The decision core of the polling sampler.
//!
//! While a process is alive its resident memory is queried over and over.
//! Each query yields one observation; `poll_step` decides from the running
//! maximum and that observation whether to keep polling or to finish, and
//! with what result. The live loop in the sampler and the pure replay
//! `run_poll` both go through `poll_step`, so everything proved of it holds
//! of both.

use vstd::prelude::*;

use crate::err::Error;

verus! {

/// One observation of a live process: the outcome of a memory query, and
/// whether the process was still alive at that moment. Liveness is only
/// consulted when the query returned exactly zero.
#[derive(Debug, PartialEq, Eq)]
pub struct PollObs {
    /// The queried resident memory in bytes, or the failure the query ended in.
    pub sample: Result<usize, Error>,
    /// Whether the process was still alive when the sample was zero.
    pub alive: bool,
}

/// What one polling step decides: keep polling with a new running maximum,
/// or finish with the run's memory result.
#[derive(Debug, PartialEq, Eq)]
pub enum PollStep {
    Continue(Option<usize>),
    Done(Result<usize, Error>),
}

/// The decision taken from a running maximum and one observation:
/// - a positive sample raises the running maximum and polling goes on;
/// - a zero sample from a live process is transient and polling goes on;
/// - a zero sample from a dead process ends the poll: the maximum if one was
///   ever recorded, else the process was too fast to sample;
/// - a failed query ends the poll: the maximum if one was ever recorded
///   (graceful degradation), else that failure.
pub open spec fn spec_poll_step(max: Option<usize>, obs: PollObs) -> PollStep {
    match obs.sample {
        Ok(m) => {
            if m > 0 {
                match max {
                    Some(v) => PollStep::Continue(Some(vstd::math::max(v as int, m as int) as usize)),
                    None => PollStep::Continue(Some(m)),
                }
            } else if obs.alive {
                PollStep::Continue(max)
            } else {
                match max {
                    Some(v) => PollStep::Done(Ok(v)),
                    None => PollStep::Done(Err(Error::ProcessTooFast)),
                }
            }
        },
        Err(e) => match max {
            Some(v) => PollStep::Done(Ok(v)),
            None => PollStep::Done(Err(e)),
        },
    }
}

/// Performs one polling step; see `spec_poll_step` for the decision table.
pub fn poll_step(max: Option<usize>, obs: PollObs) -> (r: PollStep)
    ensures
        r == spec_poll_step(max, obs),
{
    match obs.sample {
        Ok(m) => {
            if m > 0 {
                match max {
                    Some(v) => PollStep::Continue(Some(if v >= m { v } else { m })),
                    None => PollStep::Continue(Some(m)),
                }
            } else if obs.alive {
                PollStep::Continue(max)
            } else {
                match max {
                    Some(v) => PollStep::Done(Ok(v)),
                    None => PollStep::Done(Err(Error::ProcessTooFast)),
                }
            }
        },
        Err(e) => match max {
            Some(v) => PollStep::Done(Ok(v)),
            None => PollStep::Done(Err(e)),
        },
    }
}

/// The poll outcome of replaying a whole sequence of observations from a
/// running maximum: `None` when the observations ran out before a step
/// finished, else the finishing step's result.
pub open spec fn spec_run_poll(max: Option<usize>, obs: Seq<PollObs>) -> Option<Result<usize, Error>>
    decreases obs.len(),
{
    if obs.len() == 0 {
        None
    } else {
        match spec_poll_step(max, obs[0]) {
            PollStep::Continue(m) => spec_run_poll(m, obs.skip(1)),
            PollStep::Done(r) => Some(r),
        }
    }
}

/// A running maximum only ever holds a positive value.
pub open spec fn max_wf(max: Option<usize>) -> bool {
    max matches Some(v) ==> v > 0
}

/// Replays a finite sequence of observations through the polling decision,
/// starting with no recorded maximum.
pub fn run_poll(obs: &Vec<PollObs>) -> (r: Option<Result<usize, Error>>)
    ensures
        r == spec_run_poll(None, obs@),
        r matches Some(Ok(m)) ==> m > 0,
{
    let mut max: Option<usize> = None;
    let mut i: usize = 0;
    proof {
        lemma_run_poll_positive(None, obs@);
        assert(obs@.skip(0) =~= obs@);
    }
    while i < obs.len()
        invariant
            i <= obs.len(),
            max_wf(max),
            spec_run_poll(None, obs@) == spec_run_poll(max, obs@.skip(i as int)),
        decreases obs.len() - i,
    {
        let ghost rest = obs@.skip(i as int);
        let o = &obs[i];
        let step = poll_step(max, PollObs { sample: duplicate_sample(&o.sample), alive: o.alive });
        proof {
            assert(rest[0] == obs@[i as int]);
            assert(rest.skip(1) =~= obs@.skip(i as int + 1));
        }
        match step {
            PollStep::Continue(m) => {
                max = m;
            },
            PollStep::Done(r) => {
                return Some(r);
            },
        }
        i += 1;
    }
    None
}

/// An exact copy of a memory query outcome.
fn duplicate_sample(s: &Result<usize, Error>) -> (r: Result<usize, Error>)
    ensures
        r == *s,
{
    match s {
        Ok(m) => Ok(*m),
        Err(e) => Err(e.duplicate()),
    }
}

/// A finished poll only ever reports a positive maximum: whatever the
/// observations were, the result is never a memory size of zero.
pub proof fn lemma_run_poll_positive(max: Option<usize>, obs: Seq<PollObs>)
    requires
        max_wf(max),
    ensures
        spec_run_poll(max, obs) matches Some(Ok(m)) ==> m > 0,
    decreases obs.len(),
{
    if obs.len() > 0 {
        match spec_poll_step(max, obs[0]) {
            PollStep::Continue(m) => {
                lemma_run_poll_positive(m, obs.skip(1));
            },
            PollStep::Done(_) => {},
        }
    }
}

/// Whether any observation in the sequence is a successful, positive memory
/// sample.
pub open spec fn has_positive_sample(obs: Seq<PollObs>) -> bool {
    exists|i: int| 0 <= i < obs.len() && ((#[trigger] obs[i].sample) matches Ok(m) && m > 0)
}

/// If the memory query never returns a positive sample before the process
/// exits, the poll never reports a memory size: it ends in the
/// process-too-fast error, in the query's own failure, or not at all —
/// never in a silently-reported zero.
pub proof fn lemma_no_positive_sample_no_memory(obs: Seq<PollObs>)
    requires
        !has_positive_sample(obs),
    ensures
        !(spec_run_poll(None, obs) matches Some(Ok(m))),
        spec_run_poll(None, obs) matches Some(r) ==> r is Err,
    decreases obs.len(),
{
    if obs.len() > 0 {
        assert(obs[0].sample matches Ok(m) ==> m == 0);
        match spec_poll_step(None, obs[0]) {
            PollStep::Continue(m) => {
                assert(m is None);
                assert(forall|i: int| 0 <= i < obs.skip(1).len() ==> obs.skip(1)[i] == obs[i + 1]);
                lemma_no_positive_sample_no_memory(obs.skip(1));
            },
            PollStep::Done(_) => {},
        }
    }
}

} // verus!
