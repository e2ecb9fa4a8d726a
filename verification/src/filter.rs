use vstd::prelude::*;

use crate::num::range_draw;
use crate::num::IntRangeStrategy;
use crate::num::IntValueTree;
use crate::runner::next_state;
use crate::runner::state_after;
use crate::runner::Reject;
use crate::runner::TestRunner;
use crate::strategy::Modeled;
use crate::strategy::Strategy;
use crate::strategy::ValueTree;

verus! {

/// How many draws a filter makes before it gives the attempt up as rejected.
pub const FILTER_MAX_RETRIES: u32 = 32;

/// A predicate handed to a [`FilterStrategy`]: `pred` is its meaning at the
/// model level, `eval` decides it on one value.
pub trait FilterFn<T: ValueTree>: Sized {
    /// The predicate at the model level.
    spec fn pred(&self, m: <T::Value as Modeled>::Model) -> bool;

    /// Decides the predicate on one value.
    fn eval(&self, v: &T::Value) -> (r: bool)
        ensures
            r == self.pred(v.model()),
    ;
}

/// A strategy transformer that rejects the draws of an inner strategy that
/// fail a predicate, with a bounded retry budget.
#[derive(Clone, Copy, Debug)]
pub struct FilterStrategy<S, P> {
    source: S,
    predicate: P,
    whence: &'static str,
}

impl<S, P> FilterStrategy<S, P> {
    /// The strategy whose draws are filtered.
    pub closed spec fn source_strategy(&self) -> S {
        self.source
    }

    /// The predicate every exposed value satisfies.
    pub closed spec fn predicate_spec(&self) -> P {
        self.predicate
    }

    /// Wraps `source` so that only values satisfying `predicate` are exposed;
    /// `whence` describes the predicate in the rejection it reports when the
    /// retry budget runs out.
    pub fn new(source: S, whence: &'static str, predicate: P) -> (r: Self)
        ensures
            r.source_strategy() == source,
            r.predicate_spec() == predicate,
    {
        FilterStrategy { source, predicate, whence }
    }
}

/// The tree of a [`FilterStrategy`]. Its well-formedness carries the filter's
/// guarantee: the current value always satisfies the predicate, and so does
/// the recorded undo value, so no shrink step ever exposes a rejected value.
#[derive(Clone, Copy, Debug)]
pub struct FilterValueTree<T, P> {
    source: T,
    predicate: P,
}

impl<T, P> FilterValueTree<T, P> {
    /// The inner tree.
    pub closed spec fn source_tree(&self) -> T {
        self.source
    }

    /// The predicate.
    pub closed spec fn predicate_spec(&self) -> P {
        self.predicate
    }
}

impl<T: ValueTree, P: FilterFn<T>> ValueTree for FilterValueTree<T, P> {
    type Value = T::Value;

    open spec fn wf(&self) -> bool {
        &&& self.source_tree().wf()
        &&& self.predicate_spec().pred(self.source_tree().current_model())
        &&& (self.source_tree().has_undo() ==> self.predicate_spec().pred(
            self.source_tree().undo_model(),
        ))
    }

    open spec fn current_model(&self) -> <T::Value as Modeled>::Model {
        self.source_tree().current_model()
    }

    open spec fn can_simplify(&self) -> bool {
        self.source_tree().can_simplify()
    }

    open spec fn has_undo(&self) -> bool {
        self.source_tree().has_undo()
    }

    open spec fn undo_model(&self) -> <T::Value as Modeled>::Model {
        self.source_tree().undo_model()
    }

    open spec fn size(&self) -> nat {
        self.source_tree().size()
    }

    fn current(&self) -> (v: T::Value) {
        self.source.current()
    }

    fn simplify(&mut self) -> (r: bool)
        ensures
            final(self).predicate_spec() == old(self).predicate_spec(),
    {
        if !self.source.simplify() {
            return false;
        }
        loop
            invariant
                self.predicate == old(self).predicate,
                self.source.wf(),
                self.source.has_undo(),
                self.source.undo_model() == old(self).source.current_model(),
                self.predicate_spec().pred(old(self).source.current_model()),
                old(self).source.can_simplify(),
                self.source.size() < old(self).source.size(),
            decreases self.source.size(),
        {
            let v = self.source.current();
            if self.predicate.eval(&v) {
                return true;
            }
            // the step just taken is recorded, so the undo cannot refuse
            let undone = self.source.complicate();
            proof {
                assert(undone);
            }
            if !self.source.simplify() {
                return false;
            }
        }
    }

    fn complicate(&mut self) -> (r: bool)
        ensures
            final(self).predicate_spec() == old(self).predicate_spec(),
    {
        self.source.complicate()
    }
}

impl<S: Strategy, P: FilterFn<S::Tree> + Copy> Strategy for FilterStrategy<S, P> {
    type Tree = FilterValueTree<S::Tree, P>;

    open spec fn wf(&self) -> bool {
        self.source_strategy().wf()
    }

    open spec fn accepts(&self, t: FilterValueTree<S::Tree, P>) -> bool {
        &&& self.source_strategy().accepts(t.source_tree())
        &&& t.predicate_spec() == self.predicate_spec()
    }

    fn new_tree(&self, runner: &mut TestRunner) -> (r: Result<FilterValueTree<S::Tree, P>, Reject>)
        ensures
            r matches Ok(t) ==> self.predicate_spec().pred(t.current_model()),
    {
        let mut attempts: u32 = 0;
        while attempts < FILTER_MAX_RETRIES
            invariant
                self.wf(),
            decreases FILTER_MAX_RETRIES - attempts,
        {
            let t = match self.source.new_tree(runner) {
                Ok(t) => t,
                Err(e) => {
                    return Err(e);
                },
            };
            let v = t.current();
            if self.predicate.eval(&v) {
                return Ok(FilterValueTree { source: t, predicate: self.predicate });
            }
            attempts = attempts + 1;
        }
        Err(Reject { reason: self.whence })
    }
}

/// Whether each of the next `budget` draws of the range `[lo, hi]`, made
/// from runner state `s` on, violates the predicate.
pub open spec fn rejects_all_draws<P: FilterFn<IntValueTree>>(
    p: P,
    lo: u64,
    hi: u64,
    s: u64,
    budget: nat,
) -> bool
    decreases budget,
{
    if budget == 0 {
        true
    } else {
        &&& !p.pred(range_draw(lo, hi, s))
        &&& rejects_all_draws(p, lo, hi, next_state(s), (budget - 1) as nat)
    }
}

proof fn lemma_state_after_shift(s: u64, n: nat)
    ensures
        state_after(next_state(s), n) == state_after(s, n + 1),
    decreases n,
{
    assert(state_after(s, n + 1) == next_state(state_after(s, n)));
    if n == 0 {
        assert(state_after(next_state(s), 0) == next_state(s));
        assert(state_after(s, 0) == s);
    } else {
        lemma_state_after_shift(s, (n - 1) as nat);
        assert(state_after(next_state(s), n) == next_state(state_after(next_state(s), (n - 1) as nat)));
    }
}

proof fn lemma_rejects_all_prefix<P: FilterFn<IntValueTree>>(
    p: P,
    lo: u64,
    hi: u64,
    s: u64,
    budget: nat,
    k: nat,
)
    requires
        k < budget,
        rejects_all_draws(p, lo, hi, s, budget),
    ensures
        !p.pred(range_draw(lo, hi, state_after(s, k))),
    decreases k,
{
    if k > 0 {
        lemma_rejects_all_prefix(p, lo, hi, next_state(s), (budget - 1) as nat, (k - 1) as nat);
        lemma_state_after_shift(s, (k - 1) as nat);
    }
}

proof fn lemma_rejects_all_extend<P: FilterFn<IntValueTree>>(
    p: P,
    lo: u64,
    hi: u64,
    s: u64,
    k: nat,
)
    requires
        rejects_all_draws(p, lo, hi, s, k),
        !p.pred(range_draw(lo, hi, state_after(s, k))),
    ensures
        rejects_all_draws(p, lo, hi, s, k + 1),
    decreases k,
{
    if k == 0 {
        assert(state_after(s, 0) == s);
        assert(rejects_all_draws(p, lo, hi, next_state(s), 0));
        assert(rejects_all_draws(p, lo, hi, s, 1));
    } else {
        lemma_state_after_shift(s, (k - 1) as nat);
        lemma_rejects_all_extend(p, lo, hi, next_state(s), (k - 1) as nat);
        assert(rejects_all_draws(p, lo, hi, s, k + 1));
    }
}

impl<P: FilterFn<IntValueTree> + Copy> FilterStrategy<IntRangeStrategy, P> {
    /// Law (rejection): a filter over an integer range, whose draws are an
    /// exact function of the runner state, returns `Reject` if — and only if
    /// — every draw of the whole retry budget violates the predicate, and a
    /// tree otherwise.
    pub fn new_tree_from_range(&self, runner: &mut TestRunner) -> (r: Result<
        FilterValueTree<IntValueTree, P>,
        Reject,
    >)
        requires
            self.wf(),
        ensures
            (r is Err) == rejects_all_draws(
                self.predicate_spec(),
                self.source_strategy().lo,
                self.source_strategy().hi,
                old(runner).model(),
                FILTER_MAX_RETRIES as nat,
            ),
            r matches Ok(t) ==> t.wf() && self.accepts(t) && !t.has_undo()
                && self.predicate_spec().pred(t.current_model()),
    {
        let ghost s0 = runner.model();
        let ghost lo = self.source.lo;
        let ghost hi = self.source.hi;
        let mut attempts: u32 = 0;
        while attempts < FILTER_MAX_RETRIES
            invariant
                self.wf(),
                attempts <= FILTER_MAX_RETRIES,
                s0 == old(runner).model(),
                runner.model() == state_after(s0, attempts as nat),
                lo == self.source_strategy().lo,
                hi == self.source_strategy().hi,
                rejects_all_draws(self.predicate_spec(), lo, hi, s0, attempts as nat),
            decreases FILTER_MAX_RETRIES - attempts,
        {
            let t = match self.source.new_tree(runner) {
                Ok(t) => t,
                Err(e) => {
                    proof {
                        assert(false);
                    }
                    return Err(e);
                },
            };
            let v = t.current();
            proof {
                assert(crate::strategy::Modeled::model(&v) == v);
            }
            if self.predicate.eval(&v) {
                proof {
                    assert(self.predicate_spec().pred(range_draw(lo, hi, state_after(s0, attempts as nat))));
                    if rejects_all_draws(
                        self.predicate_spec(),
                        lo,
                        hi,
                        s0,
                        FILTER_MAX_RETRIES as nat,
                    ) {
                        lemma_rejects_all_prefix(
                            self.predicate_spec(),
                            lo,
                            hi,
                            s0,
                            FILTER_MAX_RETRIES as nat,
                            attempts as nat,
                        );
                    }
                }
                return Ok(FilterValueTree { source: t, predicate: self.predicate });
            }
            proof {
                lemma_rejects_all_extend(self.predicate_spec(), lo, hi, s0, attempts as nat);
            }
            attempts = attempts + 1;
        }
        Err(Reject { reason: self.whence })
    }
}

} // verus!
