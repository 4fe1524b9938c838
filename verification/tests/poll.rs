use mproc::err::Error;
use mproc::poll::PollObs;
use mproc::poll::run_poll;

fn sample(v: usize) -> PollObs {
    PollObs { sample: Ok(v), alive: true }
}

fn zero_while(alive: bool) -> PollObs {
    PollObs { sample: Ok(0), alive }
}

fn read_error() -> PollObs {
    PollObs { sample: Err(Error::FailedToGetMemory("read failed".to_string())), alive: true }
}

#[test]
fn peak_is_the_maximum_of_positive_samples() {
    let obs = vec![sample(10), sample(40), sample(25), zero_while(false)];
    assert_eq!(run_poll(&obs), Some(Ok(40)));
}

#[test]
fn zero_from_a_live_process_is_transient() {
    let obs = vec![zero_while(true), sample(7), zero_while(true), zero_while(false)];
    assert_eq!(run_poll(&obs), Some(Ok(7)));
}

#[test]
fn no_positive_sample_before_exit_is_process_too_fast() {
    let obs = vec![zero_while(true), zero_while(true), zero_while(false)];
    assert_eq!(run_poll(&obs), Some(Err(Error::ProcessTooFast)));
}

#[test]
fn immediate_exit_is_process_too_fast() {
    let obs = vec![zero_while(false)];
    assert_eq!(run_poll(&obs), Some(Err(Error::ProcessTooFast)));
}

#[test]
fn read_failure_before_any_sample_propagates() {
    let obs = vec![zero_while(true), read_error()];
    assert_eq!(
        run_poll(&obs),
        Some(Err(Error::FailedToGetMemory("read failed".to_string()))),
    );
}

#[test]
fn read_failure_after_a_sample_degrades_to_the_maximum() {
    let obs = vec![sample(12), read_error()];
    assert_eq!(run_poll(&obs), Some(Ok(12)));
}

#[test]
fn polling_goes_on_while_nothing_ends_it() {
    let obs = vec![sample(1), sample(2), zero_while(true)];
    assert_eq!(run_poll(&obs), None);
}
