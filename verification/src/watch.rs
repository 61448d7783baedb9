//! Bounded polling.
//!
//! The voice nodes created by a profile switch appear (and start running)
//! asynchronously, so the orchestrator polls for them at a fixed interval
//! with a hard ceiling.  [`NodeWait`] holds the schedule: the caller samples
//! the condition, reports the sample via [`NodeWait::observe`], and sleeps
//! exactly when told to, so the wait can neither busy-spin nor outlast its
//! budget by more than one interval.

use vstd::prelude::*;

verus! {

/// How often the condition is sampled, in milliseconds.
pub const POLL_INTERVAL_MS: u64 = 200;

/// The wait budget used at both call sites, in milliseconds.
pub const NODE_WAIT_TIMEOUT_MS: u64 = 4000;

/// Verdict of a bounded wait.
#[derive(Debug, Clone, Copy, PartialEq, Eq, Structural)]
pub enum WaitOutcome {
    /// The condition held at a sample taken `elapsed_ms` after the start.
    Satisfied { elapsed_ms: u64 },
    /// The budget ran out; `elapsed_ms` is the sample time that exceeded it
    /// (the first polling boundary at or after the timeout).
    TimedOut { elapsed_ms: u64 },
}

/// What the caller must do after reporting a sample.
#[derive(Debug, Clone, Copy, PartialEq, Eq, Structural)]
pub enum WaitStep {
    /// The wait is over with this verdict.
    Done(WaitOutcome),
    /// Sleep this many milliseconds, then sample again.
    SleepRetry(u64),
}

/// A fixed-interval, hard-ceiling wait schedule.
#[derive(Debug, Clone, Copy)]
pub struct NodeWait {
    pub interval_ms: u64,
    pub timeout_ms: u64,
    pub elapsed_ms: u64,
    pub verdict: Option<WaitOutcome>,
}

impl NodeWait {
    pub open spec fn wf(&self) -> bool {
        &&& self.interval_ms > 0
        &&& self.elapsed_ms <= self.timeout_ms + self.interval_ms
        &&& self.timeout_ms + self.interval_ms <= u64::MAX
    }

    /// A fresh wait over the standard 200 ms polling interval.
    pub fn new(timeout_ms: u64) -> (r: Self)
        requires
            timeout_ms <= u64::MAX - 200,
        ensures
            r.wf(),
            r.interval_ms == 200,
            r.timeout_ms == timeout_ms,
            r.elapsed_ms == 0,
            r.verdict is None,
    {
        NodeWait { interval_ms: 200, timeout_ms, elapsed_ms: 0, verdict: None }
    }

    /// Report one sample of the condition.  A true sample ends the wait at
    /// once; a false one past the budget times out; otherwise the caller is
    /// told to sleep one interval and sample again.
    pub fn observe(&mut self, sample: bool) -> (r: WaitStep)
        requires
            old(self).wf(),
            old(self).verdict is None,
        ensures
            final(self).wf(),
            final(self).interval_ms == old(self).interval_ms,
            final(self).timeout_ms == old(self).timeout_ms,
            sample ==> final(self).elapsed_ms == old(self).elapsed_ms && final(self).verdict
                == Some(WaitOutcome::Satisfied { elapsed_ms: old(self).elapsed_ms }) && r
                == WaitStep::Done(WaitOutcome::Satisfied { elapsed_ms: old(self).elapsed_ms }),
            !sample && old(self).elapsed_ms >= old(self).timeout_ms ==> final(self).elapsed_ms
                == old(self).elapsed_ms && final(self).verdict == Some(
                WaitOutcome::TimedOut { elapsed_ms: old(self).elapsed_ms },
            ) && r == WaitStep::Done(WaitOutcome::TimedOut { elapsed_ms: old(self).elapsed_ms }),
            !sample && old(self).elapsed_ms < old(self).timeout_ms ==> final(self).elapsed_ms
                == old(self).elapsed_ms + old(self).interval_ms && final(self).verdict is None && r
                == WaitStep::SleepRetry(old(self).interval_ms),
    {
        if sample {
            let v = WaitOutcome::Satisfied { elapsed_ms: self.elapsed_ms };
            self.verdict = Some(v);
            WaitStep::Done(v)
        } else if self.elapsed_ms >= self.timeout_ms {
            let v = WaitOutcome::TimedOut { elapsed_ms: self.elapsed_ms };
            self.verdict = Some(v);
            WaitStep::Done(v)
        } else {
            self.elapsed_ms = self.elapsed_ms + self.interval_ms;
            WaitStep::SleepRetry(self.interval_ms)
        }
    }
}

/// The verdict of a whole wait over a given sample trace: `samples[k]` is
/// the condition as sampled `started + k` intervals in.  `None` means the
/// trace is too short to reach a verdict.
pub open spec fn wait_verdict(samples: Seq<bool>, interval: int, timeout: int, elapsed: int) -> Option<
    WaitOutcome,
>
    decreases samples.len(),
{
    if samples.len() == 0 {
        None
    } else if samples[0] {
        Some(WaitOutcome::Satisfied { elapsed_ms: elapsed as u64 })
    } else if elapsed >= timeout {
        Some(WaitOutcome::TimedOut { elapsed_ms: elapsed as u64 })
    } else {
        wait_verdict(samples.subrange(1, samples.len() as int), interval, timeout, elapsed
            + interval)
    }
}

/// Drive a fresh wait over a recorded sample trace: `samples[k]` is the
/// condition as sampled `k` intervals in.  The trace must be long enough to
/// reach a verdict, and the result is exactly the wait's verdict over the
/// trace, so the timing lemmas below speak for this machine.
pub fn run_wait(timeout_ms: u64, samples: &Vec<bool>) -> (r: WaitOutcome)
    requires
        timeout_ms <= u64::MAX - 200,
        (samples@.len() - 1) * 200 >= timeout_ms,
    ensures
        Some(r) == wait_verdict(samples@, 200, timeout_ms as int, 0),
{
    let mut w = NodeWait::new(timeout_ms);
    let n = samples.len();
    let mut i: usize = 0;
    proof {
        assert(samples@.subrange(0, n as int) =~= samples@);
    }
    loop
        invariant
            w.wf(),
            w.interval_ms == 200,
            w.timeout_ms == timeout_ms,
            w.verdict is None,
            0 <= i <= n,
            n == samples@.len(),
            (n - 1) * 200 >= timeout_ms,
            timeout_ms <= u64::MAX - 200,
            w.elapsed_ms == 200 * i,
            200 * i < timeout_ms + 200,
            wait_verdict(samples@, 200, timeout_ms as int, 0) == wait_verdict(
                samples@.subrange(i as int, n as int),
                200,
                timeout_ms as int,
                w.elapsed_ms as int,
            ),
        decreases n - i,
    {
        proof {
            assert(200 * i < (n - 1) * 200 + 200);
            assert(i < n);
        }
        let s = samples[i];
        proof {
            let seg = samples@.subrange(i as int, n as int);
            assert(seg[0] == samples@[i as int]);
            assert(seg.subrange(1, seg.len() as int) =~= samples@.subrange(
                i as int + 1,
                n as int,
            ));
        }
        let step = w.observe(s);
        match step {
            WaitStep::Done(v) => {
                return v;
            },
            WaitStep::SleepRetry(_) => {
                i += 1;
            },
        }
    }
}

/// A condition that first holds at sample `k`, reached within the budget, is
/// reported satisfied at exactly `k` whole polling intervals: the first
/// polling boundary at or after the moment the condition began to hold.
pub proof fn lemma_wait_satisfied(samples: Seq<bool>, interval: int, timeout: int, k: int)
    requires
        0 < interval,
        0 <= k < samples.len(),
        forall|j: int| 0 <= j < k ==> !samples[j],
        samples[k],
        (k - 1) * interval < timeout,
        k * interval <= u64::MAX,
    ensures
        wait_verdict(samples, interval, timeout, 0) == Some(
            WaitOutcome::Satisfied { elapsed_ms: (k * interval) as u64 },
        ),
{
    lemma_wait_satisfied_from(samples, interval, timeout, k, 0);
}

proof fn lemma_wait_satisfied_from(samples: Seq<bool>, interval: int, timeout: int, k: int, e: int)
    requires
        0 < interval,
        0 <= e,
        0 <= k < samples.len(),
        forall|j: int| 0 <= j < k ==> !samples[j],
        samples[k],
        e + (k - 1) * interval < timeout,
        e + k * interval <= u64::MAX,
    ensures
        wait_verdict(samples, interval, timeout, e) == Some(
            WaitOutcome::Satisfied { elapsed_ms: (e + k * interval) as u64 },
        ),
    decreases k,
{
    if k == 0 {
        assert(k * interval == 0) by (nonlinear_arith)
            requires
                k == 0,
        ;
    } else {
        let rest = samples.subrange(1, samples.len() as int);
        assert(!samples[0]);
        assert(rest[k - 1] == samples[k]);
        assert(e < timeout) by {
            assert((k - 1) * interval >= 0) by (nonlinear_arith)
                requires
                    k >= 1,
                    interval > 0,
            ;
        }
        assert(forall|j: int| 0 <= j < k - 1 ==> !rest[j]);
        assert((e + interval) + (k - 2) * interval == e + (k - 1) * interval) by (nonlinear_arith);
        assert((e + interval) + (k - 1) * interval == e + k * interval) by (nonlinear_arith);
        lemma_wait_satisfied_from(rest, interval, timeout, k - 1, e + interval);
    }
}

/// A condition that never holds is reported timed out at the first polling
/// boundary at or after the timeout: no earlier than the budget, no later
/// than the budget plus one interval.
pub proof fn lemma_wait_timeout(samples: Seq<bool>, interval: int, timeout: int)
    requires
        0 < interval,
        0 <= timeout,
        timeout + interval <= u64::MAX,
        forall|j: int| 0 <= j < samples.len() ==> !samples[j],
        (samples.len() - 1) * interval >= timeout,
    ensures
        wait_verdict(samples, interval, timeout, 0) matches Some(WaitOutcome::TimedOut {
            elapsed_ms }) && timeout <= elapsed_ms < timeout + interval,
{
    assert(samples.len() * interval == (samples.len() - 1) * interval + interval) by (
    nonlinear_arith);
    lemma_wait_timeout_from(samples, interval, timeout, 0);
}

proof fn lemma_wait_timeout_from(samples: Seq<bool>, interval: int, timeout: int, e: int)
    requires
        0 < interval,
        0 <= e,
        e < timeout + interval,
        timeout + interval <= u64::MAX,
        forall|j: int| 0 <= j < samples.len() ==> !samples[j],
        e + samples.len() * interval >= timeout + interval,
    ensures
        wait_verdict(samples, interval, timeout, e) matches Some(WaitOutcome::TimedOut {
            elapsed_ms }) && timeout <= elapsed_ms < timeout + interval,
    decreases samples.len(),
{
    assert(samples.len() > 0) by {
        assert(samples.len() == 0 ==> e + samples.len() * interval == e);
    }
    assert(!samples[0]);
    if e >= timeout {
    } else {
        let rest = samples.subrange(1, samples.len() as int);
        assert((e + interval) + rest.len() * interval == e + samples.len() * interval) by (
        nonlinear_arith)
            requires
                rest.len() == samples.len() - 1,
        ;
        lemma_wait_timeout_from(rest, interval, timeout, e + interval);
    }
}

} // verus!
