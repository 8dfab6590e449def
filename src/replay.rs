use vstd::prelude::*;

use crate::oracle::{judge, passes, Mismatch};
use crate::workload::QueryRecord;
use vstd::arithmetic::div_mod::{lemma_add_mod_noop_right, lemma_mod_multiples_basic, lemma_small_mod};

verus! {

/// The clock is read after every query whose count is a multiple of
/// `SAMPLE_MASK + 1` (65536).
pub const SAMPLE_MASK: u64 = 0xffff;

/// The interval between clock readings, in queries.
pub const SAMPLE_INTERVAL: u64 = 0x1_0000;

/// The time budget of a run, in milliseconds: the first clock reading at or
/// past it stops the run.
pub const TIME_BUDGET_MS: u64 = 60000;

/// A replay could not start because the workload holds no record: with none
/// the run would never reach a clock reading, and so never stop.
#[derive(Debug, Clone, Copy, PartialEq, Eq, Structural)]
pub struct EmptyWorkload;

/// What the caller does after a lookup that agreed with the workload.
#[derive(Debug, Clone, Copy, PartialEq, Eq, Structural)]
pub enum Step {
    /// Go on with the next lookup.
    Continue,
    /// Read the clock and hand the elapsed time to `record_sample`.
    SampleClock,
}

/// The replay's progress as plain values: the index of the record looked up
/// next, the number of queries made, and whether the run goes on.
pub struct ReplayState {
    pub position: nat,
    pub query_count: nat,
    pub running: bool,
}

/// The state in which a replay starts.
pub open spec fn initial_state() -> ReplayState {
    ReplayState { position: 0, query_count: 0, running: true }
}

/// The state after one more lookup that agreed, in a workload of `m` records:
/// the count grows by one and the position cycles through the records.
pub open spec fn advance(s: ReplayState, m: nat) -> ReplayState {
    ReplayState { position: (s.position + 1) % m, query_count: s.query_count + 1, ..s }
}

/// The state after a clock reading of `elapsed_ms`: the run stops once the
/// budget is spent.
pub open spec fn after_sample(s: ReplayState, elapsed_ms: u64) -> ReplayState {
    ReplayState { running: s.running && elapsed_ms < TIME_BUDGET_MS, ..s }
}

/// The state after `k` lookups that agreed, with no clock reading that
/// stopped the run, from `s` in a workload of `m` records.
pub open spec fn replayed(s: ReplayState, m: nat, k: nat) -> ReplayState
    decreases k,
{
    if k == 0 {
        s
    } else {
        advance(replayed(s, m, (k - 1) as nat), m)
    }
}

/// Whether the clock is read after the query that brought the count to `c`.
pub open spec fn samples_at(c: nat) -> bool {
    c % (SAMPLE_INTERVAL as nat) == 0
}

/// A timed replay of a workload against an index. The caller makes each
/// lookup and reads the clock; the replay judges every result, counts the
/// queries, and says when the clock must be read and when the run is over.
pub struct Replay {
    workload: Vec<QueryRecord>,
    position: usize,
    query_count: u64,
    running: bool,
}

impl Replay {
    pub closed spec fn view(&self) -> ReplayState {
        ReplayState {
            position: self.position as nat,
            query_count: self.query_count as nat,
            running: self.running,
        }
    }

    /// The workload that the replay cycles through.
    pub closed spec fn records(&self) -> Seq<QueryRecord> {
        self.workload@
    }

    pub closed spec fn wf(&self) -> bool {
        self.workload@.len() > 0 && self.position < self.workload@.len()
    }

    /// Starts a replay of `workload`, which it then cycles through in order.
    pub fn start(workload: Vec<QueryRecord>) -> (r: Result<Replay, EmptyWorkload>)
        ensures
            r is Err <==> workload@.len() == 0,
            r matches Ok(s) ==> s.wf() && s.view() == initial_state() && s.records()
                == workload@,
    {
        if workload.len() == 0 {
            Err(EmptyWorkload)
        } else {
            Ok(Replay { workload, position: 0, query_count: 0, running: true })
        }
    }

    /// The number of queries made so far.
    pub fn query_count(&self) -> (r: u64)
        ensures
            r as nat == self.view().query_count,
    {
        self.query_count
    }

    /// Whether the run goes on.
    pub fn is_running(&self) -> (r: bool)
        ensures
            r == self.view().running,
    {
        self.running
    }

    /// The record whose key is looked up next.
    pub fn current(&self) -> (r: &QueryRecord)
        requires
            self.wf(),
        ensures
            *r == self.records()[self.view().position as int],
    {
        &self.workload[self.position]
    }

    /// Takes the result of looking up the current record's key. On a
    /// disagreement it returns the mismatch, on which the run must stop, and
    /// changes nothing. Otherwise it counts the query, moves to the next
    /// record (after the last, the first) and says whether the clock is due.
    pub fn record_lookup(&mut self, actual: Option<u64>) -> (r: Result<Step, Mismatch>)
        requires
            old(self).wf(),
            old(self).view().running,
            old(self).view().query_count < u64::MAX,
        ensures
            final(self).wf(),
            final(self).records() == old(self).records(),
            ({
                let rec = old(self).records()[old(self).view().position as int];
                &&& r is Ok <==> passes(rec.expected, actual)
                &&& r matches Err(m) ==> m.key@ == rec.key@ && m.expected == rec.expected
                    && m.actual == actual && final(self).view() == old(self).view()
                &&& r matches Ok(step) ==> final(self).view() == advance(
                    old(self).view(),
                    old(self).records().len(),
                ) && (step == Step::SampleClock <==> samples_at(
                    final(self).view().query_count,
                ))
            }),
    {
        let rec = &self.workload[self.position];
        match judge(rec.key.as_str(), rec.expected, actual) {
            Err(m) => Err(m),
            Ok(()) => {
                let len = self.workload.len();
                proof {
                    let p = self.position as int;
                    if p + 1 < len {
                        lemma_small_mod((p + 1) as nat, len as nat);
                    } else {
                        lemma_mod_multiples_basic(1, len as int);
                    }
                }
                if self.position + 1 == len {
                    self.position = 0;
                } else {
                    self.position = self.position + 1;
                }
                self.query_count = self.query_count + 1;
                let c = self.query_count;
                assert((c & 0xffff) == 0 <==> c % 0x1_0000 == 0) by (bit_vector);
                if (self.query_count & SAMPLE_MASK) == 0 {
                    Ok(Step::SampleClock)
                } else {
                    Ok(Step::Continue)
                }
            },
        }
    }

    /// Takes a clock reading: the time elapsed since the run began, in whole
    /// milliseconds. The run stops once the budget is spent.
    pub fn record_sample(&mut self, elapsed_ms: u64)
        requires
            old(self).wf(),
        ensures
            final(self).wf(),
            final(self).records() == old(self).records(),
            final(self).view() == after_sample(old(self).view(), elapsed_ms),
    {
        if elapsed_ms >= TIME_BUDGET_MS {
            self.running = false;
        }
    }
}

/// From the start, `k` lookups that agree leave the count at `k` and the
/// position at `k` modulo the workload's size.
pub proof fn lemma_replayed_from_start(m: nat, k: nat)
    requires
        m > 0,
    ensures
        replayed(initial_state(), m, k) == (ReplayState {
            position: k % m,
            query_count: k,
            running: true,
        }),
    decreases k,
{
    if k == 0 {
        lemma_small_mod(0, m);
    } else {
        lemma_replayed_from_start(m, (k - 1) as nat);
        lemma_add_mod_noop_right(1, (k - 1) as int, m as int);
        assert(((k - 1) as nat % m + 1) % m == k % m);
    }
}

/// After `n` full cycles through a workload of `m` records, with no stop on
/// the way, the query count is `n * m` and the next lookup is of the first
/// record again.
pub proof fn lemma_full_cycles(m: nat, n: nat)
    requires
        m > 0,
    ensures
        replayed(initial_state(), m, n * m).query_count == n * m,
        replayed(initial_state(), m, n * m).position == 0,
        replayed(initial_state(), m, n * m).running,
{
    lemma_replayed_from_start(m, n * m);
    lemma_mod_multiples_basic(n as int, m as int);
}

} // verus!
