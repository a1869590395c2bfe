//! Two-bit saturating branch predictor.

use vstd::prelude::*;

verus! {

/// Number of counters of the processor's predictor.
pub const NUM_COUNTERS: usize = 64;

/// A two-bit counter: how strongly the last branches at an address say that
/// the next one is taken.
#[derive(Debug, Clone, Copy, PartialEq, Eq, Structural)]
pub enum SaturatingCounter {
    StronglyUntaken,
    WeaklyUntaken,
    WeaklyTaken,
    StronglyTaken,
}

impl SaturatingCounter {
    /// Position of the state, from 0 for `StronglyUntaken` to 3 for `StronglyTaken`.
    pub open spec fn rank(self) -> int {
        match self {
            SaturatingCounter::StronglyUntaken => 0,
            SaturatingCounter::WeaklyUntaken => 1,
            SaturatingCounter::WeaklyTaken => 2,
            SaturatingCounter::StronglyTaken => 3,
        }
    }

    /// The state predicts a taken branch.
    pub open spec fn spec_taken(self) -> bool {
        self.rank() >= 2
    }

    /// The state after one more observation.
    pub open spec fn observe(self, taken: bool) -> Self {
        match (self, taken) {
            (SaturatingCounter::StronglyUntaken, true) => SaturatingCounter::WeaklyUntaken,
            (SaturatingCounter::WeaklyUntaken, true) => SaturatingCounter::WeaklyTaken,
            (SaturatingCounter::WeaklyTaken, true) => SaturatingCounter::StronglyTaken,
            (SaturatingCounter::StronglyTaken, true) => SaturatingCounter::StronglyTaken,
            (SaturatingCounter::StronglyUntaken, false) => SaturatingCounter::StronglyUntaken,
            (SaturatingCounter::WeaklyUntaken, false) => SaturatingCounter::StronglyUntaken,
            (SaturatingCounter::WeaklyTaken, false) => SaturatingCounter::WeaklyUntaken,
            (SaturatingCounter::StronglyTaken, false) => SaturatingCounter::WeaklyTaken,
        }
    }

    /// One step toward taken.
    pub fn next(self) -> (s: Self)
        ensures
            s == self.observe(true),
            s.rank() == if self.rank() < 3 { self.rank() + 1 } else { 3 },
    {
        match self {
            SaturatingCounter::StronglyUntaken => SaturatingCounter::WeaklyUntaken,
            SaturatingCounter::WeaklyUntaken => SaturatingCounter::WeaklyTaken,
            SaturatingCounter::WeaklyTaken => SaturatingCounter::StronglyTaken,
            SaturatingCounter::StronglyTaken => SaturatingCounter::StronglyTaken,
        }
    }

    /// One step toward untaken.
    pub fn prev(self) -> (s: Self)
        ensures
            s == self.observe(false),
            s.rank() == if self.rank() > 0 { self.rank() - 1 } else { 0 },
    {
        match self {
            SaturatingCounter::StronglyUntaken => SaturatingCounter::StronglyUntaken,
            SaturatingCounter::WeaklyUntaken => SaturatingCounter::StronglyUntaken,
            SaturatingCounter::WeaklyTaken => SaturatingCounter::WeaklyUntaken,
            SaturatingCounter::StronglyTaken => SaturatingCounter::WeaklyTaken,
        }
    }
}

/// Counters indexed by address modulo their number.
pub struct BranchPredictor<const NCOUNTERS: usize> {
    inner: Vec<SaturatingCounter>,
}

impl<const NCOUNTERS: usize> BranchPredictor<NCOUNTERS> {
    /// The states of the counters.
    pub closed spec fn view(&self) -> Seq<SaturatingCounter> {
        self.inner@
    }

    pub open spec fn wf(&self) -> bool {
        self@.len() == NCOUNTERS && NCOUNTERS > 0
    }

    /// A predictor whose counters all start at `WeaklyTaken`.
    pub fn new() -> (p: Self)
        requires
            NCOUNTERS > 0,
        ensures
            p.wf(),
            p@ == Seq::new(NCOUNTERS as nat, |i: int| SaturatingCounter::WeaklyTaken),
    {
        let p = Self { inner: vec![SaturatingCounter::WeaklyTaken; NCOUNTERS] };
        assert(p@ =~= Seq::new(NCOUNTERS as nat, |i: int| SaturatingCounter::WeaklyTaken));
        p
    }

    /// Whether the branch at `addr` is predicted taken.
    pub fn predict(&self, addr: usize) -> (taken: bool)
        requires
            self.wf(),
        ensures
            taken == self@[addr as int % NCOUNTERS as int].spec_taken(),
    {
        let counter_state = self.inner[addr % NCOUNTERS];
        counter_state == SaturatingCounter::StronglyTaken || counter_state
            == SaturatingCounter::WeaklyTaken
    }

    /// Trains the counter of `addr` with the outcome of a branch.
    pub fn update_state(&mut self, addr: usize, result: bool)
        requires
            old(self).wf(),
        ensures
            final(self).wf(),
            final(self)@ == old(self)@.update(
                addr as int % NCOUNTERS as int,
                old(self)@[addr as int % NCOUNTERS as int].observe(result),
            ),
    {
        let state = self.inner[addr % NCOUNTERS];
        let next = if result {
            state.next()
        } else {
            state.prev()
        };
        self.inner.set(addr % NCOUNTERS, next);
    }

    /// The state of the counter of `addr`.
    pub fn state(&self, addr: usize) -> (s: SaturatingCounter)
        requires
            self.wf(),
        ensures
            s == self@[addr as int % NCOUNTERS as int],
    {
        self.inner[addr % NCOUNTERS]
    }
}

/// A counter moves by one position per observation and stays within its four
/// states; after three equal observations it has reached the end it moves to.
pub proof fn lemma_counter_saturates(s: SaturatingCounter, taken: bool)
    ensures
        0 <= s.observe(taken).rank() <= 3,
        taken ==> s.observe(taken).rank() >= s.rank() && s.observe(taken).rank() - s.rank() <= 1,
        !taken ==> s.observe(taken).rank() <= s.rank() && s.rank() - s.observe(taken).rank() <= 1,
        s.observe(true).observe(true).observe(true) == SaturatingCounter::StronglyTaken,
        s.observe(false).observe(false).observe(false) == SaturatingCounter::StronglyUntaken,
{
}

} // verus!
