//! The dispatch engine's shared run state: reserving a slot for the next
//! request, folding a completed request into the statistics, and the laws that
//! hold of every run.
//!
//! Workers hold this state behind one lock. Each of them loops: reserve a slot
//! with `try_reserve`, leave the loop if it is refused, issue the request, then
//! fold its outcome in with `complete`. Reservation and folding are each one
//! step of the state, so the counters cannot overshoot under any interleaving.

use crate::stats::{
    code_count, codes_total, lemma_code_count_bounded, latency_sigfig, Aggregates, AggregatesError, NetErrKind,
    LATENCY_SIGFIG,
};
use vstd::prelude::*;

verus! {

/// What came of one request: a received status code, or a classified failure.
#[derive(Debug, Clone, Copy, PartialEq, Eq, Structural)]
pub enum Outcome {
    Status(u16),
    Failed(NetErrKind),
}

/// Why a run stopped handing out slots.
#[derive(Debug, Clone, Copy, PartialEq, Eq, Structural)]
pub enum StopCause {
    /// The request-count target was reached.
    TargetReached,
    /// The deadline passed.
    DeadlinePassed,
    /// An open-ended run exhausted its `u64` counter.
    CounterExhausted,
}

/// The state shared by the workers of one run.
pub struct LoadState {
    /// The request-count target, if any.
    pub limit: Option<u64>,
    /// Requests granted a slot.
    pub sent: u64,
    /// Requests whose outcome has been folded into `aggregates`.
    pub completed: u64,
    /// Completions that received a response.
    pub successes: u64,
    /// Completions that failed before a response.
    pub failures: u64,
    /// Set once, when the first worker is refused a slot.
    pub stop_cause: Option<StopCause>,
    pub aggregates: Aggregates,
}

/// Whether a run may hand out one more slot, its stopping conditions aside.
pub open spec fn below_limit(limit: Option<u64>, sent: u64) -> bool {
    match limit {
        Some(n) => sent < n,
        None => sent < u64::MAX,
    }
}

/// One reservation on state `s`: the next state, and whether a slot was
/// granted.
pub open spec fn reserve_step(s: LoadState, deadline_passed: bool) -> (LoadState, bool) {
    if s.stop_cause is Some {
        (s, false)
    } else if deadline_passed {
        (LoadState { stop_cause: Some(StopCause::DeadlinePassed), ..s }, false)
    } else if !below_limit(s.limit, s.sent) {
        (
            LoadState {
                stop_cause: Some(
                    if s.limit is Some {
                        StopCause::TargetReached
                    } else {
                        StopCause::CounterExhausted
                    },
                ),
                ..s
            },
            false,
        )
    } else {
        (LoadState { sent: (s.sent + 1) as u64, ..s }, true)
    }
}

impl LoadState {
    /// The invariant of the shared state.
    pub open spec fn wf(self) -> bool {
        &&& self.limit matches Some(n) ==> self.sent <= n
        &&& self.completed <= self.sent
        &&& self.successes + self.failures == self.completed
        &&& codes_total(self.aggregates.status_exact@) == self.successes
        &&& self.aggregates.status_class.total() == self.successes
        &&& self.aggregates.net_errors.sum() == self.failures
        &&& self.aggregates.samples().len() == self.completed
        &&& latency_sigfig(self.aggregates.latency_micros) == LATENCY_SIGFIG
        &&& forall|v: u64| #[trigger] self.aggregates.samples().count(v) > 0 ==> v >= 1
        &&& self.stop_cause == Some(StopCause::TargetReached) ==> self.limit == Some(self.sent)
        &&& self.stop_cause == Some(StopCause::CounterExhausted) ==> self.limit is None
            && self.sent == u64::MAX
    }

    /// Whether a worker may no longer reserve a slot.
    pub open spec fn stopping(self) -> bool {
        self.stop_cause is Some
    }

    /// A fresh run with an optional request-count target.
    pub fn new(limit: Option<u64>) -> (r: Result<LoadState, AggregatesError>)
        ensures
            r is Ok,
            r matches Ok(s) ==> {
                &&& s.wf()
                &&& s.limit == limit
                &&& s.sent == 0 && s.completed == 0
                &&& s.stop_cause is None
                &&& s.aggregates.status_exact@ == Map::<u16, u64>::empty()
            },
    {
        match Aggregates::new() {
            Ok(aggregates) => {
                proof {
                    lemma_empty_codes_total(aggregates.status_exact@, 65536);
                }
                Ok(
                    LoadState {
                        limit,
                        sent: 0,
                        completed: 0,
                        successes: 0,
                        failures: 0,
                        stop_cause: None,
                        aggregates,
                    },
                )
            },
            Err(e) => Err(e),
        }
    }

    /// Asks for a slot for one more request. `deadline_passed` says whether the
    /// run's deadline, if it has one, has been reached. The slot is granted
    /// exactly when the run is not stopping, the deadline has not passed and
    /// the target (or, without one, the counter's range) leaves room; a refusal
    /// makes the run stop for good.
    pub fn try_reserve(&mut self, deadline_passed: bool) -> (granted: bool)
        requires
            old(self).wf(),
        ensures
            final(self).wf(),
            (*final(self), granted) == reserve_step(*old(self), deadline_passed),
            granted == (!old(self).stopping() && !deadline_passed && below_limit(
                old(self).limit,
                old(self).sent,
            )),
            granted ==> final(self).sent == old(self).sent + 1 && final(self).stop_cause is None,
            !granted ==> final(self).sent == old(self).sent && final(self).stopping(),
            !granted && old(self).stopping() ==> final(self).stop_cause == old(self).stop_cause,
            !granted && !old(self).stopping() ==> final(self).stop_cause == Some(
                if deadline_passed {
                    StopCause::DeadlinePassed
                } else if old(self).limit is Some {
                    StopCause::TargetReached
                } else {
                    StopCause::CounterExhausted
                },
            ),
            final(self).limit == old(self).limit,
            final(self).completed == old(self).completed,
            final(self).successes == old(self).successes,
            final(self).failures == old(self).failures,
            final(self).aggregates == old(self).aggregates,
    {
        if self.stop_cause.is_some() {
            return false;
        }
        if deadline_passed {
            self.stop_cause = Some(StopCause::DeadlinePassed);
            return false;
        }
        match self.limit {
            Some(n) => {
                if self.sent >= n {
                    self.stop_cause = Some(StopCause::TargetReached);
                    return false;
                }
            },
            None => {
                if self.sent == u64::MAX {
                    self.stop_cause = Some(StopCause::CounterExhausted);
                    return false;
                }
            },
        }
        self.sent = self.sent + 1;
        true
    }

    /// Folds the outcome and latency of one request that held a slot into the
    /// statistics, and returns the new number of completed requests.
    pub fn complete(&mut self, outcome: Outcome, micros: u64) -> (done: u64)
        requires
            old(self).wf(),
            old(self).completed < old(self).sent,
        ensures
            final(self).wf(),
            done == final(self).completed,
            final(self).completed == old(self).completed + 1,
            final(self).sent == old(self).sent,
            final(self).limit == old(self).limit,
            final(self).stop_cause == old(self).stop_cause,
            match outcome {
                Outcome::Status(code) => {
                    &&& final(self).successes == old(self).successes + 1
                    &&& final(self).failures == old(self).failures
                    &&& final(self).aggregates.status_exact@ == old(
                        self,
                    ).aggregates.status_exact@.insert(
                        code,
                        (code_count(old(self).aggregates.status_exact@, code as int) + 1) as u64,
                    )
                    &&& final(self).aggregates.status_class == old(
                        self,
                    ).aggregates.status_class.counted(code)
                    &&& final(self).aggregates.net_errors == old(self).aggregates.net_errors
                },
                Outcome::Failed(kind) => {
                    &&& final(self).successes == old(self).successes
                    &&& final(self).failures == old(self).failures + 1
                    &&& final(self).aggregates.net_errors == old(
                        self,
                    ).aggregates.net_errors.counted(kind)
                    &&& final(self).aggregates.status_exact@ == old(self).aggregates.status_exact@
                    &&& final(self).aggregates.status_class == old(self).aggregates.status_class
                },
            },
            final(self).aggregates.samples() == old(self).aggregates.samples().insert(
                if micros == 0 {
                    1
                } else {
                    micros
                },
            ),
    {
        let ghost before = self.aggregates.samples();
        self.aggregates.record_latency(micros);
        match outcome {
            Outcome::Status(code) => {
                proof {
                    lemma_code_count_bounded(self.aggregates.status_exact@, code as int, 65536);
                }
                self.aggregates.record_status(code);
                self.successes = self.successes + 1;
            },
            Outcome::Failed(kind) => {
                self.aggregates.record_error(kind);
                self.failures = self.failures + 1;
            },
        }
        self.completed = self.completed + 1;
        proof {
            assert forall|v: u64| #[trigger] self.aggregates.samples().count(v) > 0 implies v
                >= 1 by {
                {
                    assert(self.aggregates.samples() == before.insert(
                        if micros == 0 {
                            1
                        } else {
                            micros
                        },
                    ));
                }
            }
        }
        self.completed
    }

    /// Requests that hold a slot and have not been folded in yet.
    pub fn in_flight(&self) -> (r: u64)
        requires
            self.wf(),
        ensures
            r == self.sent - self.completed,
    {
        self.sent - self.completed
    }
}

/// A run never hands out more slots than its request-count target and never
/// completes more requests than it sent. Once it has stopped for any cause but
/// its deadline, exactly the target was sent; once no request is in flight
/// either, exactly the target was completed.
pub proof fn lemma_count_target_exact(s: LoadState, n: u64)
    requires
        s.wf(),
        s.limit == Some(n),
    ensures
        s.sent <= n,
        s.completed <= s.sent,
        s.stopping() && s.stop_cause != Some(StopCause::DeadlinePassed) ==> s.sent == n,
        s.stopping() && s.stop_cause != Some(StopCause::DeadlinePassed) && s.completed == s.sent
            ==> s.completed == n,
{
    match s.stop_cause {
        Some(StopCause::TargetReached) => {},
        Some(StopCause::CounterExhausted) => {},
        _ => {},
    }
}

/// Once a run has stopped, by its deadline or otherwise, no reservation is
/// granted and none changes the state: the requests sent so far are all that
/// will be sent, and none of them is lost, since completions never outrun them.
pub proof fn lemma_stopped_run_settles(s: LoadState, deadline_passed: bool)
    requires
        s.wf(),
        s.stopping(),
    ensures
        reserve_step(s, deadline_passed) == (s, false),
        s.completed <= s.sent,
{
}

/// A deadline that has passed stops a run at its next reservation, whatever
/// its target: no slot is granted and the run is stopping from then on.
pub proof fn lemma_deadline_stops_run(s: LoadState)
    requires
        s.wf(),
    ensures
        !reserve_step(s, true).1,
        reserve_step(s, true).0.stopping(),
        reserve_step(s, true).0.sent == s.sent,
        reserve_step(s, true).0.wf(),
{
}

/// The status-class rollup and the exact status counts each sum to the number
/// of completions that received a response.
pub proof fn lemma_status_rollups_agree(s: LoadState)
    requires
        s.wf(),
    ensures
        s.aggregates.status_class.total() == s.successes,
        codes_total(s.aggregates.status_exact@) == s.successes,
        s.aggregates.statuses_agree(),
{
}

/// The network-error total is the number of failed completions, and successful
/// and failed completions together make up all completions.
pub proof fn lemma_failures_counted(s: LoadState)
    requires
        s.wf(),
    ensures
        s.aggregates.net_errors.sum() == s.failures,
        s.successes + s.failures == s.completed,
{
}

/// Every completion, successful or failed, leaves exactly one latency sample,
/// and every sample is at least one microsecond.
pub proof fn lemma_latency_samples_counted(s: LoadState)
    requires
        s.wf(),
    ensures
        s.aggregates.samples().len() == s.completed,
        forall|v: u64| #[trigger] s.aggregates.samples().count(v) > 0 ==> v >= 1,
{
}

/// Whether a progress notice is due after `done` completions, when notices
/// come every `every` completions (0: never).
pub fn progress_due(done: u64, every: u64) -> (r: bool)
    ensures
        r == (every > 0 && done % every == 0),
{
    every > 0 && done % every == 0
}

proof fn lemma_empty_codes_total(m: Map<u16, u64>, n: nat)
    requires
        m == Map::<u16, u64>::empty(),
    ensures
        crate::stats::codes_total_below(m, n) == 0,
    decreases n,
{
    if n > 0 {
        lemma_empty_codes_total(m, (n - 1) as nat);
    }
}

} // verus!
