use mproc::com_measure::ComMeasure;
use mproc::duration::Duration;
use mproc::err::Error;
use mproc::measurement::Measurement;

fn run(secs: u64, nanos: u32, memory: Result<usize, Error>, exit_code: Option<i32>) -> Measurement {
    Measurement { time: Duration { secs, nanos }, memory, exit_code }
}

#[test]
fn fresh_aggregator_is_empty() {
    let cm = ComMeasure::new();
    assert_eq!(cm.attempts, 0);
    assert_eq!(cm.measured, 0);
    assert_eq!(cm.success, 0);
    assert_eq!(cm.failure, 0);
    assert_eq!(cm.memory_samples, 0);
    assert_eq!(cm.total_memory, 0);
    assert_eq!(cm.best_memory, usize::MAX);
    assert_eq!(cm.worst_memory, 0);
    assert_eq!(cm.total_time, Duration { secs: 0, nanos: 0 });
    assert_eq!(cm.worst_time, Duration { secs: 0, nanos: 0 });
    assert_eq!(cm.best_time, Duration { secs: u64::MAX, nanos: 999_999_999 });
}

#[test]
fn time_stats_over_three_runs() {
    let mut cm = ComMeasure::new();
    assert!(cm.measure(Ok(run(2, 0, Ok(1), Some(0)))).is_ok());
    assert!(cm.measure(Ok(run(1, 500, Ok(1), Some(0)))).is_ok());
    assert!(cm.measure(Ok(run(3, 250, Ok(1), Some(0)))).is_ok());
    assert_eq!(cm.measured, 3);
    assert_eq!(cm.total_time, Duration { secs: 6, nanos: 750 });
    assert_eq!(cm.best_time, Duration { secs: 1, nanos: 500 });
    assert_eq!(cm.worst_time, Duration { secs: 3, nanos: 250 });
    assert_eq!(cm.avg_time(), Duration { secs: 2, nanos: 250 });
}

#[test]
fn success_failure_and_absent_exit_codes() {
    let mut cm = ComMeasure::new();
    assert!(cm.measure(Ok(run(1, 0, Ok(1), Some(0)))).is_ok());
    assert!(cm.measure(Ok(run(1, 0, Ok(1), Some(2)))).is_ok());
    assert!(cm.measure(Ok(run(1, 0, Ok(1), None))).is_ok());
    assert!(cm.measure(Ok(run(1, 0, Ok(1), Some(0)))).is_ok());
    assert_eq!(cm.measured, 4);
    assert_eq!(cm.success, 2);
    assert_eq!(cm.failure, 1);
    // One run reported no code, so the classified runs fall short of the
    // measured ones by exactly that run.
    assert!(cm.success + cm.failure <= cm.measured);
    assert_eq!(cm.success + cm.failure, cm.measured - 1);
}

#[test]
fn five_failing_runs() {
    let mut cm = ComMeasure::new();
    for _ in 0..5 {
        assert!(cm.measure(Ok(run(1, 0, Ok(1), Some(1)))).is_ok());
    }
    assert_eq!(cm.success, 0);
    assert_eq!(cm.failure, 5);
    assert_eq!(cm.measured, 5);
    assert_eq!(cm.attempts, 5);
}

#[test]
fn memory_stats_over_three_runs() {
    let mib = 1024 * 1024;
    let mut cm = ComMeasure::new();
    assert!(cm.measure(Ok(run(1, 0, Ok(10 * mib), Some(0)))).is_ok());
    assert!(cm.measure(Ok(run(1, 0, Ok(20 * mib), Some(0)))).is_ok());
    assert!(cm.measure(Ok(run(1, 0, Ok(15 * mib), Some(0)))).is_ok());
    assert_eq!(cm.memory_samples, 3);
    assert_eq!(cm.best_memory, 10 * mib);
    assert_eq!(cm.worst_memory, 20 * mib);
    assert_eq!(cm.total_memory, 45 * mib);
    assert_eq!(cm.avg_memory(), 15 * mib);
    assert_eq!(mproc::mem_fmt::get_mem_string(cm.avg_memory()), "15 MiB");
}

#[test]
fn unreadable_memory_keeps_time_and_reports_the_error() {
    let mut cm = ComMeasure::new();
    let r = cm.measure(Ok(run(2, 0, Err(Error::ProcessTooFast), Some(0))));
    assert_eq!(r, Err(Error::ProcessTooFast));
    // The run still counts for timing and classification...
    assert_eq!(cm.measured, 1);
    assert_eq!(cm.success, 1);
    assert_eq!(cm.best_time, Duration { secs: 2, nanos: 0 });
    // ...but not for memory.
    assert_eq!(cm.memory_samples, 0);
    assert_eq!(cm.total_memory, 0);
}

#[test]
fn failed_spawn_counts_only_as_attempt() {
    let mut cm = ComMeasure::new();
    let e = Error::FailedToSpawn("prog".to_string(), "no such file".to_string());
    let r = cm.measure(Err(e.clone()));
    assert_eq!(r, Err(e));
    assert_eq!(cm.attempts, 1);
    assert_eq!(cm.measured, 0);
    assert_eq!(cm.success, 0);
    assert_eq!(cm.failure, 0);
    assert_eq!(cm.memory_samples, 0);
}

#[test]
fn memory_samples_never_exceed_measured() {
    let mut cm = ComMeasure::new();
    assert!(cm.measure(Ok(run(1, 0, Ok(5), Some(0)))).is_ok());
    let _ = cm.measure(Ok(run(1, 0, Err(Error::ProcessTooFast), Some(0))));
    assert!(cm.measure(Ok(run(1, 0, Ok(9), Some(0)))).is_ok());
    assert_eq!(cm.measured, 3);
    assert_eq!(cm.memory_samples, 2);
    assert!(cm.memory_samples <= cm.measured);
}

#[test]
fn averages_of_an_empty_session_divide_by_one() {
    let cm = ComMeasure::new();
    assert_eq!(cm.avg_time(), Duration { secs: 0, nanos: 0 });
    assert_eq!(cm.avg_memory(), 0);
}
