//! Command dispatcher: fans one encoded frame out to every registered light
//! and aggregates the per-target outcomes.
//!
//! The transport performs each characteristic write (independently, in any
//! order) and reports one outcome per target; the aggregation here pairs each
//! outcome with its target and answers how many writes succeeded. A single
//! failed target is recorded, never silently swallowed and never a reason to
//! drop the other targets' results.

use vstd::prelude::*;

use crate::resolver::ReadyLight;

verus! {

/// The transport-level outcome of writing the frame to one target.
#[derive(Clone, Copy, Debug, PartialEq, Eq, Structural)]
pub enum WriteOutcome {
    /// The transport confirmed the send (fire-and-forget: no application
    /// level acknowledgment is awaited).
    Sent,
    /// The transport reported a write failure for this target.
    TransportWriteError,
}

/// One target's recorded result inside an aggregate.
#[derive(Clone, Copy, Debug, PartialEq, Eq, Structural)]
pub struct TargetReport {
    /// The device the write addressed.
    pub device_id: u64,
    /// What the transport reported for it.
    pub outcome: WriteOutcome,
}

/// Number of successful writes among the first `n` reports.
pub open spec fn sent_count_prefix(s: Seq<TargetReport>, n: int) -> int
    decreases n,
{
    if n <= 0 {
        0
    } else {
        sent_count_prefix(s, n - 1) + if s[n - 1].outcome is Sent {
            1int
        } else {
            0int
        }
    }
}

/// Number of successful writes among all reports.
pub open spec fn sent_count(s: Seq<TargetReport>) -> int {
    sent_count_prefix(s, s.len() as int)
}

/// Per-target outcomes of one dispatch call, one report per registered
/// light, in registry order. Available only once every target has completed
/// or failed; whether any single failure escalates to an overall failure is
/// the caller's policy.
#[derive(Debug, PartialEq, Eq)]
pub struct AggregateResult {
    reports: Vec<TargetReport>,
}

impl View for AggregateResult {
    type V = Seq<TargetReport>;

    closed spec fn view(&self) -> Seq<TargetReport> {
        self.reports@
    }
}

/// Bound used below: there are never more successes than reports.
pub proof fn lemma_sent_count_bounds(s: Seq<TargetReport>, n: int)
    requires
        0 <= n <= s.len(),
    ensures
        0 <= sent_count_prefix(s, n) <= n,
    decreases n,
{
    if n > 0 {
        lemma_sent_count_bounds(s, n - 1);
    }
}

impl AggregateResult {
    /// Number of targets this dispatch addressed.
    pub fn len(&self) -> (n: usize)
        ensures
            n == self@.len(),
    {
        self.reports.len()
    }

    /// The report for the target at position `i` (registry order).
    pub fn get(&self, i: usize) -> (r: &TargetReport)
        requires
            i < self@.len(),
        ensures
            *r == self@[i as int],
    {
        &self.reports[i]
    }

    /// How many targets' writes the transport confirmed.
    #[verifier::loop_isolation(false)]
    pub fn success_count(&self) -> (n: usize)
        ensures
            n == sent_count(self@),
    {
        let mut n: usize = 0;
        let mut i: usize = 0;
        while i < self.reports.len()
            invariant
                i <= self@.len(),
                n == sent_count_prefix(self@, i as int),
                n <= i,
            decreases self@.len() - i,
        {
            if let WriteOutcome::Sent = self.reports[i].outcome {
                n = n + 1;
            }
            i = i + 1;
        }
        n
    }

    /// How many targets' writes failed.
    pub fn failure_count(&self) -> (n: usize)
        ensures
            n == self@.len() - sent_count(self@),
    {
        proof {
            lemma_sent_count_bounds(self@, self@.len() as int);
        }
        self.reports.len() - self.success_count()
    }

    /// True iff every target's write was confirmed.
    #[verifier::loop_isolation(false)]
    pub fn all_sent(&self) -> (r: bool)
        ensures
            r == (forall|i: int| 0 <= i < self@.len() ==> self@[i].outcome is Sent),
    {
        let mut i: usize = 0;
        while i < self.reports.len()
            invariant
                i <= self@.len(),
                forall|j: int| 0 <= j < i ==> self@[j].outcome is Sent,
            decreases self@.len() - i,
        {
            if let WriteOutcome::TransportWriteError = self.reports[i].outcome {
                return false;
            }
            i = i + 1;
        }
        true
    }
}

/// Pairs each dispatch target with the outcome the transport reported for
/// it, in order: the aggregate result of one fan-out send.
#[verifier::loop_isolation(false)]
pub fn aggregate(targets: &Vec<ReadyLight>, outcomes: &Vec<WriteOutcome>) -> (r: AggregateResult)
    requires
        outcomes@.len() == targets@.len(),
    ensures
        r@.len() == targets@.len(),
        forall|i: int|
            0 <= i < targets@.len() ==> r@[i] == (TargetReport {
                device_id: targets@[i].device_id,
                outcome: outcomes@[i],
            }),
{
    let mut reports: Vec<TargetReport> = Vec::new();
    let mut i: usize = 0;
    while i < targets.len()
        invariant
            i <= targets@.len(),
            reports@.len() == i,
            forall|j: int|
                0 <= j < i ==> reports@[j] == (TargetReport {
                    device_id: targets@[j].device_id,
                    outcome: outcomes@[j],
                }),
        decreases targets@.len() - i,
    {
        reports.push(TargetReport { device_id: targets[i].device_id, outcome: outcomes[i] });
        i = i + 1;
    }
    AggregateResult { reports }
}

} // verus!
