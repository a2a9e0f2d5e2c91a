use vstd::prelude::*;

verus! {

/// Identifier of a bounded channel endpoint. The runtime hosting the
/// pipeline maps each identifier to a real channel; the core only records
/// which endpoint a stage was wired to.
#[derive(Debug, Clone, Copy, PartialEq, Eq, Structural)]
pub struct ChannelId {
    pub id: u64,
}

/// Cooperative shutdown state of one stage: the shutdown request signal and
/// the drain-complete barrier. The runtime's signalling primitives carry
/// these two bits between tasks; the core tracks what they mean.
#[derive(Debug)]
pub struct FinishHandle {
    pub shutdown_requested: bool,
    pub finished: bool,
}

impl FinishHandle {
    pub fn new() -> (r: FinishHandle)
        ensures
            !r.shutdown_requested,
            !r.finished,
    {
        FinishHandle { shutdown_requested: false, finished: false }
    }

    /// Non-blocking probe of the shutdown signal.
    pub fn is_shutdown_requested(&self) -> (b: bool)
        ensures
            b == self.shutdown_requested,
    {
        self.shutdown_requested
    }

    /// The controller's fan-out lands here; once requested, the signal never
    /// clears.
    pub fn request_shutdown(&mut self)
        ensures
            final(self).shutdown_requested,
            final(self).finished == old(self).finished,
    {
        self.shutdown_requested = true;
    }

    /// Called exactly once, when the stage has drained and will neither send
    /// nor persist anything further.
    pub fn finish(&mut self)
        requires
            !old(self).finished,
        ensures
            final(self).finished,
            final(self).shutdown_requested == old(self).shutdown_requested,
    {
        self.finished = true;
    }
}

/// How many entries of a sequence equal the given value.
pub open spec fn count_occurrences<T>(s: Seq<T>, x: T) -> nat
    decreases s.len(),
{
    if s.len() == 0 {
        0
    } else {
        (if s[0] == x {
            1nat
        } else {
            0nat
        }) + count_occurrences(s.drop_first(), x)
    }
}

/// Counting over a sequence that starts with one known entry.
pub proof fn lemma_count_cons<T>(a: T, rest: Seq<T>, x: T)
    ensures
        count_occurrences(seq![a] + rest, x) == (if a == x {
            1nat
        } else {
            0nat
        }) + count_occurrences(rest, x),
{
    assert((seq![a] + rest).drop_first() =~= rest);
    assert((seq![a] + rest)[0] == a);
}

/// Error returned when a stage builder is finalized although a required
/// channel or parameter is still missing.
#[derive(Debug, Clone, Copy, PartialEq, Eq, Structural)]
pub enum BuildError {
    ConfigurationIncomplete,
}

/// Process-wide shutdown controller: fans the shutdown request out to every
/// stage's finish handle, then awaits each drain-complete report. Once every
/// stage has reported, no stage machine emits an action or writes a record
/// any more.
#[derive(Debug)]
pub struct ShutdownController {
    pub total_stages: usize,
    pub requested: bool,
    pub finished_stages: usize,
}

impl ShutdownController {
    pub fn new(total_stages: usize) -> (r: ShutdownController)
        ensures
            r.total_stages == total_stages,
            !r.requested,
            r.finished_stages == 0,
    {
        ShutdownController { total_stages, requested: false, finished_stages: 0 }
    }

    /// Fan the request out; the runtime relays it to each finish handle.
    pub fn request_all(&mut self)
        ensures
            final(self).requested,
            final(self).total_stages == old(self).total_stages,
            final(self).finished_stages == old(self).finished_stages,
    {
        self.requested = true;
    }

    /// One stage's drain-complete barrier fired.
    pub fn on_stage_finished(&mut self)
        requires
            old(self).finished_stages < old(self).total_stages,
        ensures
            final(self).finished_stages == old(self).finished_stages + 1,
            final(self).total_stages == old(self).total_stages,
            final(self).requested == old(self).requested,
    {
        self.finished_stages = self.finished_stages + 1;
    }

    /// Whether every stage has drained; the pipeline is then inert.
    pub fn all_finished(&self) -> (b: bool)
        ensures
            b == (self.finished_stages == self.total_stages),
    {
        self.finished_stages == self.total_stages
    }
}

/// Fixed-delay retry discipline: an operation is attempted until it succeeds
/// or `max_attempts` tries have failed, with `delay_secs` between tries; the
/// last error is surfaced on exhaustion.
#[derive(Debug, Clone, Copy, PartialEq, Eq, Structural)]
pub struct RetryPolicy {
    pub max_attempts: u32,
    pub delay_secs: u64,
}

/// What to do after one failed attempt.
#[derive(Debug, Clone, Copy, PartialEq, Eq, Structural)]
pub enum RetryDecision {
    RetryAfterDelay { delay_secs: u64 },
    GiveUp,
}

/// Progress of one retried operation under a fixed policy.
#[derive(Debug)]
pub struct RetryState {
    pub policy: RetryPolicy,
    pub failures: u32,
}

impl RetryState {
    pub fn new(policy: RetryPolicy) -> (r: RetryState)
        ensures
            r.policy == policy,
            r.failures == 0,
    {
        RetryState { policy, failures: 0 }
    }

    /// Record one failed attempt: retry after the fixed delay while the
    /// budget lasts, and give up exactly when it is exhausted.
    pub fn on_failure(&mut self) -> (d: RetryDecision)
        requires
            old(self).failures < old(self).policy.max_attempts,
        ensures
            final(self).policy == old(self).policy,
            final(self).failures == old(self).failures + 1,
            d == RetryDecision::GiveUp <==> final(self).failures
                == final(self).policy.max_attempts,
            d != RetryDecision::GiveUp ==> d == (RetryDecision::RetryAfterDelay {
                delay_secs: final(self).policy.delay_secs,
            }),
    {
        self.failures = self.failures + 1;
        if self.failures == self.policy.max_attempts {
            RetryDecision::GiveUp
        } else {
            RetryDecision::RetryAfterDelay { delay_secs: self.policy.delay_secs }
        }
    }
}

} // verus!
