use vstd::prelude::*;

use crate::runner::mix;
use crate::runner::next_state;
use crate::runner::Reject;
use crate::runner::TestRunner;
use crate::strategy::Strategy;
use crate::strategy::ValueTree;

verus! {

/// A strategy for integers drawn uniformly from the inclusive range
/// `[lo, hi]`.
#[derive(Clone, Copy, Debug)]
pub struct IntRangeStrategy {
    /// The smallest value the strategy produces.
    pub lo: u64,
    /// The largest value the strategy produces.
    pub hi: u64,
}

/// The value that a range `[lo, hi]` derives from one raw entropy word.
pub open spec fn value_from_word(lo: u64, hi: u64, word: u64) -> u64 {
    if lo == 0 && hi == u64::MAX {
        word
    } else {
        (lo as int + (word as int) % (hi as int - lo as int + 1)) as u64
    }
}

/// The value that a range strategy draws from a runner in state `s`.
pub open spec fn range_draw(lo: u64, hi: u64, s: u64) -> u64 {
    value_from_word(lo, hi, mix(next_state(s)))
}

impl IntRangeStrategy {
    /// A strategy for the inclusive range `[lo, hi]`.
    pub fn new(lo: u64, hi: u64) -> (r: IntRangeStrategy)
        requires
            lo <= hi,
        ensures
            r == (IntRangeStrategy { lo, hi }),
    {
        IntRangeStrategy { lo, hi }
    }
}

/// The shrink cursor of an integer draw: a binary search between the lowest
/// candidate not yet ruled out and the current value.
#[derive(Clone, Copy, Debug)]
pub struct IntValueTree {
    curr: u64,
    low_bound: u64,
    hi: u64,
    prev: Option<u64>,
}

impl IntValueTree {
    /// The lowest candidate the search has not yet ruled out: the current
    /// value never lies below it, `simplify` succeeds exactly while the
    /// current value lies above it, and an undo raises it just past the
    /// abandoned smaller candidate.
    pub closed spec fn floor(&self) -> u64 {
        self.low_bound
    }
}

impl ValueTree for IntValueTree {
    type Value = u64;

    closed spec fn wf(&self) -> bool {
        &&& self.low_bound <= self.curr <= self.hi
        &&& (self.prev matches Some(p) ==> {
            &&& self.curr < p <= self.hi
            &&& p - self.curr - 1 <= self.curr - self.low_bound
        })
    }

    closed spec fn current_model(&self) -> u64 {
        self.curr
    }

    closed spec fn can_simplify(&self) -> bool {
        self.curr > self.low_bound
    }

    closed spec fn has_undo(&self) -> bool {
        self.prev is Some
    }

    closed spec fn undo_model(&self) -> u64 {
        self.prev->0
    }

    closed spec fn size(&self) -> nat {
        (self.curr - self.low_bound) as nat
    }

    fn current(&self) -> (v: u64) {
        let v = self.curr;
        proof {
            assert(v == self.current_model());
            assert(crate::strategy::Modeled::model(&v) == v);
        }
        v
    }

    fn simplify(&mut self) -> (r: bool)
        ensures
            r == old(self).can_simplify(),
            r == (old(self).current_model() > old(self).floor()),
            r ==> final(self).current_model() < old(self).current_model(),
            final(self).floor() == old(self).floor(),
            final(self).current_model() >= final(self).floor(),
    {
        if self.curr == self.low_bound {
            return false;
        }
        let mid = self.low_bound + (self.curr - self.low_bound) / 2;
        self.prev = Some(self.curr);
        self.curr = mid;
        true
    }

    fn complicate(&mut self) -> (r: bool)
        ensures
            !old(self).has_undo() ==> *final(self) == *old(self),
            r ==> final(self).floor() == old(self).current_model() + 1,
            !r ==> final(self).floor() == old(self).floor(),
            final(self).current_model() >= final(self).floor(),
    {
        match self.prev {
            Some(p) => {
                self.low_bound = self.curr + 1;
                self.curr = p;
                self.prev = None;
                true
            },
            None => false,
        }
    }
}

impl Strategy for IntRangeStrategy {
    type Tree = IntValueTree;

    open spec fn wf(&self) -> bool {
        self.lo <= self.hi
    }

    open spec fn accepts(&self, t: IntValueTree) -> bool {
        self.lo <= t.current_model() <= self.hi
    }

    fn new_tree(&self, runner: &mut TestRunner) -> (r: Result<IntValueTree, Reject>)
        ensures
            r is Ok,
            final(runner).model() == next_state(old(runner).model()),
            r matches Ok(t) ==> t.current_model() == range_draw(self.lo, self.hi, old(
                runner,
            ).model()),
    {
        let word = runner.next_u64();
        let value = if self.lo == 0 && self.hi == u64::MAX {
            word
        } else {
            self.lo + word % (self.hi - self.lo + 1)
        };
        Ok(IntValueTree { curr: value, low_bound: self.lo, hi: self.hi, prev: None })
    }
}

} // verus!
