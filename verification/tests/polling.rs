//! Timing behaviour of the bounded node wait.

use phoneconnect::{NodeWait, WaitOutcome, WaitStep};

/// Drive a wait over a fixed sample trace; panics if the trace is too short.
fn drive_wait(timeout_ms: u64, samples: &[bool]) -> WaitOutcome {
    let mut w = NodeWait::new(timeout_ms);
    let mut slept_ms: u64 = 0;
    for &s in samples {
        match w.observe(s) {
            WaitStep::Done(v) => {
                // The machine never asks for more sleep than its budget plus
                // one interval.
                assert!(slept_ms <= timeout_ms + 200);
                return v;
            }
            WaitStep::SleepRetry(ms) => {
                assert_eq!(ms, 200);
                slept_ms += ms;
            }
        }
    }
    panic!("sample trace exhausted before a verdict");
}

#[test]
fn condition_true_after_600ms_succeeds_at_the_next_boundary() {
    // Sampled at 0, 200, 400, 600 ms: the condition becomes true after
    // 600 ms, so the first true sample is at the 600 ms polling boundary.
    let samples = [false, false, false, true];
    assert_eq!(drive_wait(4000, &samples), WaitOutcome::Satisfied { elapsed_ms: 600 });
}

#[test]
fn condition_true_at_once_succeeds_without_sleeping() {
    assert_eq!(drive_wait(4000, &[true]), WaitOutcome::Satisfied { elapsed_ms: 0 });
}

#[test]
fn condition_never_true_times_out_at_the_budget() {
    // 21 samples at 0, 200, ..., 4000 ms: the verdict falls no earlier than
    // the 4 s budget and no later than one polling interval past it.
    let samples = [false; 21];
    match drive_wait(4000, &samples) {
        WaitOutcome::TimedOut { elapsed_ms } => {
            assert!(elapsed_ms >= 4000);
            assert!(elapsed_ms < 4000 + 200);
            assert_eq!(elapsed_ms, 4000);
        }
        other => panic!("expected a timeout, got {:?}", other),
    }
}

#[test]
fn a_true_sample_on_the_last_boundary_still_wins() {
    let mut samples = vec![false; 20];
    samples.push(true);
    assert_eq!(drive_wait(4000, &samples), WaitOutcome::Satisfied { elapsed_ms: 4000 });
}

#[test]
fn small_budget_times_out_after_one_interval() {
    // With a 100 ms budget the boundaries are 0 and 200 ms; the second
    // sample already exceeds the budget.
    let samples = [false, false];
    assert_eq!(drive_wait(100, &samples), WaitOutcome::TimedOut { elapsed_ms: 200 });
}

#[test]
fn run_wait_agrees_with_manual_driving() {
    let samples = vec![false, false, false, true, true];
    assert_eq!(
        phoneconnect::run_wait(600, &samples),
        WaitOutcome::Satisfied { elapsed_ms: 600 },
    );
    let never = vec![false; 21];
    assert_eq!(
        phoneconnect::run_wait(4000, &never),
        WaitOutcome::TimedOut { elapsed_ms: 4000 },
    );
}
