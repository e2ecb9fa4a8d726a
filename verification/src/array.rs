use vstd::prelude::*;

use crate::num::range_draw;
use crate::num::IntRangeStrategy;
use crate::num::IntValueTree;
use crate::runner::state_after;
use crate::runner::Reject;
use crate::runner::TestRunner;
use crate::strategy::Modeled;
use crate::strategy::Strategy;
use crate::strategy::ValueTree;

verus! {

/// The models of the current values of a sequence of trees.
pub open spec fn current_models<T: ValueTree>(s: Seq<T>) -> Seq<<T::Value as Modeled>::Model> {
    s.map_values(|t: T| t.current_model())
}

/// The sum of the sizes of a sequence of trees: the termination measure of a
/// composite shrink search.
pub open spec fn sum_sizes<T: ValueTree>(s: Seq<T>) -> nat
    decreases s.len(),
{
    if s.len() == 0 {
        0
    } else {
        s[0].size() + sum_sizes(s.drop_first())
    }
}

/// Replacing one tree of a sequence moves the sum of sizes by exactly the
/// move of that tree's size.
proof fn lemma_sum_sizes_update<T: ValueTree>(s: Seq<T>, j: int, t: T)
    requires
        0 <= j < s.len(),
    ensures
        sum_sizes(s.update(j, t)) + s[j].size() == sum_sizes(s) + t.size(),
    decreases s.len(),
{
    if j == 0 {
        assert(s.update(0, t).drop_first() =~= s.drop_first());
        assert(s.update(0, t)[0] == t);
    } else {
        lemma_sum_sizes_update(s.drop_first(), j - 1, t);
        assert(s.update(j, t).drop_first() =~= s.drop_first().update(j - 1, t));
        assert(s.update(j, t)[0] == s[0]);
    }
}

/// A strategy for fixed-length arrays whose elements are all drawn from one
/// inner strategy.
#[derive(Clone, Copy, Debug)]
pub struct UniformArrayStrategy<S> {
    strategy: S,
    n: usize,
}

impl<S> UniformArrayStrategy<S> {
    /// The strategy each element is drawn from.
    pub closed spec fn element_strategy(&self) -> S {
        self.strategy
    }

    /// The fixed length of the arrays this strategy produces.
    pub closed spec fn arity(&self) -> usize {
        self.n
    }

    /// Directly create a `UniformArrayStrategy` of the given arity.
    pub fn new(strategy: S, n: usize) -> (r: Self)
        ensures
            r.element_strategy() == strategy,
            r.arity() == n,
    {
        UniformArrayStrategy { strategy, n }
    }
}

/// Create a strategy to generate fixed-length arrays, each element drawn
/// from the given strategy.
pub fn uniform<S>(strategy: S, n: usize) -> (r: UniformArrayStrategy<S>)
    ensures
        r.element_strategy() == strategy,
        r.arity() == n,
{
    UniformArrayStrategy { strategy, n }
}

/// A `ValueTree` operating over a fixed-size array of sub-trees.
///
/// The shrink search is left-to-right with a single level of undo: a cursor
/// exploits one sub-tree to exhaustion before moving to the next, and the
/// index of the most recent successful shrink is kept so that exactly that
/// step can be undone.
#[derive(Clone, Debug)]
pub struct ArrayValueTree<T> {
    trees: Vec<T>,
    shrinker: usize,
    last_shrinker: Option<usize>,
}

impl<T: ValueTree> ArrayValueTree<T> {
    /// The sub-trees, in order.
    pub closed spec fn sub_trees(&self) -> Seq<T> {
        self.trees@
    }

    /// The index of the sub-tree the shrink search currently works on; it
    /// moves right as sub-trees exhaust, and only a `complicate` moves it
    /// back, to the recorded index.
    pub closed spec fn cursor(&self) -> int {
        self.shrinker as int
    }

    /// The index of the most recent successful shrink, if one is recorded.
    pub closed spec fn last_index(&self) -> Option<usize> {
        self.last_shrinker
    }

    /// Every sub-tree individually refuses to simplify further.
    pub open spec fn all_exhausted(&self) -> bool {
        forall|i: int|
            0 <= i < self.sub_trees().len() ==> !(#[trigger] self.sub_trees()[i]).can_simplify()
    }

    /// Law: when a composite tree refuses to simplify, every sub-tree
    /// individually also refuses — the whole array is exhausted at once.
    pub proof fn lemma_refusal_is_full_exhaustion(&self)
        requires
            self.wf(),
            !self.can_simplify(),
        ensures
            self.all_exhausted(),
    {
        assert forall|i: int|
            0 <= i < self.sub_trees().len() implies !(#[trigger] self.sub_trees()[i]).can_simplify() by {
            if self.shrinker <= i {
                assert(!self.trees@[i].can_simplify());
            }
        }
    }

    /// Law: a composite shrink search terminates. Repeated `simplify` calls
    /// eventually return false, and at that point every sub-tree individually
    /// refuses to simplify.
    pub fn simplify_fully(&mut self)
        requires
            old(self).wf(),
        ensures
            final(self).wf(),
            final(self).all_exhausted(),
    {
        let mut more = self.simplify();
        while more
            invariant
                self.wf(),
                !more ==> !self.can_simplify(),
            decreases self.size(), (if more { 1int } else { 0int }),
        {
            more = self.simplify();
        }
        proof {
            self.lemma_refusal_is_full_exhaustion();
        }
    }
}

impl<T: ValueTree> ValueTree for ArrayValueTree<T> {
    type Value = Vec<T::Value>;

    open spec fn wf(&self) -> bool {
        &&& self.cursor() <= self.sub_trees().len()
        &&& forall|i: int| 0 <= i < self.sub_trees().len() ==> (#[trigger] self.sub_trees()[i]).wf()
        &&& forall|i: int|
            0 <= i < self.cursor() ==> !(#[trigger] self.sub_trees()[i]).can_simplify()
        &&& (self.last_index() matches Some(j) ==> j < self.sub_trees().len() && j
            <= self.cursor())
    }

    open spec fn current_model(&self) -> Seq<<T::Value as Modeled>::Model> {
        current_models(self.sub_trees())
    }

    open spec fn can_simplify(&self) -> bool {
        exists|i: int|
            self.cursor() <= i < self.sub_trees().len() && (
            #[trigger] self.sub_trees()[i]).can_simplify()
    }

    open spec fn has_undo(&self) -> bool {
        self.last_index() matches Some(j) && self.sub_trees()[j as int].has_undo()
    }

    open spec fn undo_model(&self) -> Seq<<T::Value as Modeled>::Model> {
        match self.last_index() {
            Some(j) => current_models(self.sub_trees()).update(
                j as int,
                self.sub_trees()[j as int].undo_model(),
            ),
            None => current_models(self.sub_trees()),
        }
    }

    open spec fn size(&self) -> nat {
        sum_sizes(self.sub_trees())
    }

    fn current(&self) -> (v: Vec<T::Value>) {
        let mut out: Vec<T::Value> = Vec::new();
        let mut i: usize = 0;
        while i < self.trees.len()
            invariant
                self.wf(),
                i <= self.trees@.len(),
                out@.len() == i,
                forall|k: int|
                    0 <= k < i ==> (#[trigger] out@[k]).model() == self.trees@[k].current_model(),
            decreases self.trees@.len() - i,
        {
            let sub = &self.trees[i];
            out.push(sub.current());
            i = i + 1;
        }
        proof {
            let m1 = out.model();
            let m2 = self.current_model();
            assert forall|k: int| 0 <= k < m1.len() implies m1[k] == m2[k] by {
                assert(out@[k].model() == self.trees@[k].current_model());
            }
            assert(m1 =~= m2);
        }
        out
    }

    fn simplify(&mut self) -> (r: bool)
        ensures
            final(self).sub_trees().len() == old(self).sub_trees().len(),
            old(self).cursor() <= final(self).cursor(),
            r ==> final(self).cursor() < final(self).sub_trees().len(),
            r ==> (final(self).last_index() matches Some(j) && j as int == final(self).cursor()),
            r ==> forall|k: int|
                0 <= k < final(self).sub_trees().len() && k != final(self).cursor() ==> (
                #[trigger] final(self).sub_trees()[k]).current_model()
                    == old(self).sub_trees()[k].current_model(),
            !r ==> final(self).cursor() == final(self).sub_trees().len(),
            !r ==> final(self).last_index() == old(self).last_index(),
    {
        while self.shrinker < self.trees.len()
            invariant
                old(self).wf(),
                self.wf(),
                self.trees@.len() == old(self).trees@.len(),
                old(self).shrinker <= self.shrinker,
                self.last_shrinker == old(self).last_shrinker,
                forall|k: int|
                    0 <= k < self.trees@.len() ==> (#[trigger] self.trees@[k]).current_model()
                        == old(self).trees@[k].current_model(),
                forall|k: int|
                    self.shrinker <= k < self.trees@.len() ==> self.trees@[k] == old(
                        self,
                    ).trees@[k],
                sum_sizes(self.trees@) <= sum_sizes(old(self).trees@),
                self.has_undo() ==> old(self).has_undo(),
                self.has_undo() ==> self.undo_model() == old(self).undo_model(),
            decreases self.trees@.len() - self.shrinker,
        {
            let ghost pre = *self;
            let j = self.shrinker;
            let mut sub = self.trees.remove(j);
            let ok = sub.simplify();
            self.trees.insert(j, sub);
            proof {
                assert(self.trees@ =~= pre.trees@.update(j as int, self.trees@[j as int]));
                lemma_sum_sizes_update(pre.trees@, j as int, self.trees@[j as int]);
            }
            if ok {
                self.last_shrinker = Some(j);
                proof {
                    assert(old(self).trees@[j as int].can_simplify());
                    assert(old(self).can_simplify());
                    let m1 = self.undo_model();
                    let m2 = old(self).current_model();
                    assert forall|k: int| 0 <= k < m1.len() implies m1[k] == m2[k] by {
                        if k != j {
                            assert(self.trees@[k].current_model() == old(
                                self,
                            ).trees@[k].current_model());
                        }
                    }
                    assert(m1 =~= m2);
                }
                return true;
            }
            self.shrinker = j + 1;
            proof {
                if self.has_undo() {
                    let jj = self.last_shrinker->0 as int;
                    assert(pre.trees@[jj].has_undo());
                    assert(pre.has_undo());
                    let m1 = self.undo_model();
                    let m2 = pre.undo_model();
                    assert forall|k: int| 0 <= k < m1.len() implies m1[k] == m2[k] by {
                        if k != jj {
                            assert(self.trees@[k].current_model()
                                == pre.trees@[k].current_model());
                        } else {
                            assert(self.trees@[jj].undo_model() == pre.trees@[jj].undo_model());
                        }
                    }
                    assert(m1 =~= m2);
                }
            }
        }
        proof {
            let m1 = self.current_model();
            let m2 = old(self).current_model();
            assert forall|k: int| 0 <= k < m1.len() implies m1[k] == m2[k] by {
                assert(self.trees@[k].current_model() == old(self).trees@[k].current_model());
            }
            assert(m1 =~= m2);
        }
        false
    }

    fn complicate(&mut self) -> (r: bool)
        ensures
            final(self).sub_trees().len() == old(self).sub_trees().len(),
            old(self).last_index() is None ==> *final(self) == *old(self),
            old(self).last_index() matches Some(j) ==> final(self).cursor() == j as int,
            r ==> final(self).last_index() == old(self).last_index(),
            !r ==> final(self).last_index() is None,
    {
        match self.last_shrinker {
            Some(j) => {
                self.shrinker = j;
                let ghost before = self.trees@;
                let mut sub = self.trees.remove(j);
                let ok = sub.complicate();
                self.trees.insert(j, sub);
                proof {
                    assert(self.trees@ =~= before.update(j as int, self.trees@[j as int]));
                    lemma_sum_sizes_update(before, j as int, self.trees@[j as int]);
                    let m1 = self.current_model();
                    let m2 = if ok {
                        old(self).undo_model()
                    } else {
                        old(self).current_model()
                    };
                    assert forall|k: int| 0 <= k < m1.len() implies m1[k] == m2[k] by {
                        if k != j {
                            assert(self.trees@[k].current_model() == old(
                                self,
                            ).trees@[k].current_model());
                        }
                    }
                    assert(m1 =~= m2);
                }
                if ok {
                    true
                } else {
                    self.last_shrinker = None;
                    false
                }
            },
            None => false,
        }
    }
}

impl<S: Strategy> Strategy for UniformArrayStrategy<S> {
    type Tree = ArrayValueTree<S::Tree>;

    open spec fn wf(&self) -> bool {
        self.element_strategy().wf()
    }

    open spec fn accepts(&self, t: ArrayValueTree<S::Tree>) -> bool {
        &&& t.sub_trees().len() == self.arity()
        &&& forall|i: int|
            0 <= i < t.sub_trees().len() ==> self.element_strategy().accepts(
                #[trigger] t.sub_trees()[i],
            )
    }

    fn new_tree(&self, runner: &mut TestRunner) -> (r: Result<ArrayValueTree<S::Tree>, Reject>)
        ensures
            self.arity() == 0 ==> r is Ok,
            r matches Ok(t) ==> t.last_index() is None && t.cursor() == 0,
    {
        let mut trees: Vec<S::Tree> = Vec::new();
        let mut k: usize = 0;
        while k < self.n
            invariant
                self.wf(),
                k <= self.n,
                trees@.len() == k,
                forall|i: int| 0 <= i < k ==> (#[trigger] trees@[i]).wf(),
                forall|i: int|
                    0 <= i < k ==> self.element_strategy().accepts(#[trigger] trees@[i]),
                forall|i: int| 0 <= i < k ==> !(#[trigger] trees@[i]).has_undo(),
            decreases self.n - k,
        {
            let t = match self.strategy.new_tree(runner) {
                Ok(t) => t,
                Err(e) => {
                    return Err(e);
                },
            };
            trees.push(t);
            k = k + 1;
        }
        Ok(ArrayValueTree { trees, shrinker: 0, last_shrinker: None })
    }
}

impl<S: Strategy> Strategy for Vec<S> {
    type Tree = ArrayValueTree<S::Tree>;

    open spec fn wf(&self) -> bool {
        forall|i: int| 0 <= i < self@.len() ==> (#[trigger] self@[i]).wf()
    }

    open spec fn accepts(&self, t: ArrayValueTree<S::Tree>) -> bool {
        &&& t.sub_trees().len() == self@.len()
        &&& forall|i: int|
            0 <= i < self@.len() ==> (#[trigger] self@[i]).accepts(t.sub_trees()[i])
    }

    fn new_tree(&self, runner: &mut TestRunner) -> (r: Result<ArrayValueTree<S::Tree>, Reject>)
        ensures
            self@.len() == 0 ==> r is Ok,
            r matches Ok(t) ==> t.last_index() is None && t.cursor() == 0,
    {
        let mut trees: Vec<S::Tree> = Vec::new();
        let mut k: usize = 0;
        while k < self.len()
            invariant
                self.wf(),
                k <= self@.len(),
                trees@.len() == k,
                forall|i: int| 0 <= i < k ==> (#[trigger] trees@[i]).wf(),
                forall|i: int| 0 <= i < k ==> self@[i].accepts(#[trigger] trees@[i]),
                forall|i: int| 0 <= i < k ==> !(#[trigger] trees@[i]).has_undo(),
            decreases self@.len() - k,
        {
            let s = &self[k];
            let t = match s.new_tree(runner) {
                Ok(t) => t,
                Err(e) => {
                    return Err(e);
                },
            };
            trees.push(t);
            k = k + 1;
        }
        Ok(ArrayValueTree { trees, shrinker: 0, last_shrinker: None })
    }
}

impl UniformArrayStrategy<IntRangeStrategy> {
    /// Law (reproducibility): over an integer range the composite draw is an
    /// exact function of the runner state — it always succeeds, consumes one
    /// entropy word per element in index order, and element `i` holds the
    /// `i`-th draw of the element range. Two runners in equal states
    /// therefore yield equal values.
    pub fn new_tree_from_ranges(&self, runner: &mut TestRunner) -> (r: Result<
        ArrayValueTree<IntValueTree>,
        Reject,
    >)
        requires
            self.wf(),
        ensures
            r is Ok,
            final(runner).model() == state_after(old(runner).model(), self.arity() as nat),
            r matches Ok(t) ==> {
                &&& t.wf()
                &&& self.accepts(t)
                &&& !t.has_undo()
                &&& t.last_index() is None
                &&& t.cursor() == 0
                &&& t.sub_trees().len() == self.arity()
                &&& forall|i: int|
                    0 <= i < self.arity() ==> (#[trigger] t.sub_trees()[i]).current_model()
                        == range_draw(
                        self.element_strategy().lo,
                        self.element_strategy().hi,
                        state_after(old(runner).model(), i as nat),
                    )
            },
    {
        let ghost s0 = runner.model();
        let mut trees: Vec<IntValueTree> = Vec::new();
        let mut k: usize = 0;
        while k < self.n
            invariant
                self.wf(),
                k <= self.n,
                trees@.len() == k,
                s0 == old(runner).model(),
                runner.model() == state_after(s0, k as nat),
                forall|i: int| 0 <= i < k ==> (#[trigger] trees@[i]).wf(),
                forall|i: int|
                    0 <= i < k ==> self.element_strategy().accepts(#[trigger] trees@[i]),
                forall|i: int| 0 <= i < k ==> !(#[trigger] trees@[i]).has_undo(),
                forall|i: int|
                    0 <= i < k ==> (#[trigger] trees@[i]).current_model() == range_draw(
                        self.element_strategy().lo,
                        self.element_strategy().hi,
                        state_after(s0, i as nat),
                    ),
            decreases self.n - k,
        {
            let t = match self.strategy.new_tree(runner) {
                Ok(t) => t,
                Err(e) => {
                    proof {
                        assert(false);
                    }
                    return Err(e);
                },
            };
            trees.push(t);
            k = k + 1;
        }
        Ok(ArrayValueTree { trees, shrinker: 0, last_shrinker: None })
    }
}

/// Law (reproducibility), for the form that takes one strategy per element:
/// the draw always succeeds, consumes one entropy word per element in index
/// order, and element `i` holds the `i`-th draw of the `i`-th range.
pub fn new_tree_from_range_vec(strategies: &Vec<IntRangeStrategy>, runner: &mut TestRunner) -> (r:
    Result<ArrayValueTree<IntValueTree>, Reject>)
    requires
        strategies.wf(),
    ensures
        r is Ok,
        final(runner).model() == state_after(old(runner).model(), strategies@.len() as nat),
        r matches Ok(t) ==> {
            &&& t.wf()
            &&& strategies.accepts(t)
            &&& !t.has_undo()
            &&& t.last_index() is None
            &&& t.cursor() == 0
            &&& t.sub_trees().len() == strategies@.len()
            &&& forall|i: int|
                0 <= i < strategies@.len() ==> (#[trigger] t.sub_trees()[i]).current_model()
                    == range_draw(
                    strategies@[i].lo,
                    strategies@[i].hi,
                    state_after(old(runner).model(), i as nat),
                )
        },
{
    let ghost s0 = runner.model();
    let mut trees: Vec<IntValueTree> = Vec::new();
    let mut k: usize = 0;
    while k < strategies.len()
        invariant
            strategies.wf(),
            k <= strategies@.len(),
            trees@.len() == k,
            s0 == old(runner).model(),
            runner.model() == state_after(s0, k as nat),
            forall|i: int| 0 <= i < k ==> (#[trigger] trees@[i]).wf(),
            forall|i: int| 0 <= i < k ==> strategies@[i].accepts(#[trigger] trees@[i]),
            forall|i: int| 0 <= i < k ==> !(#[trigger] trees@[i]).has_undo(),
            forall|i: int|
                0 <= i < k ==> (#[trigger] trees@[i]).current_model() == range_draw(
                    strategies@[i].lo,
                    strategies@[i].hi,
                    state_after(s0, i as nat),
                ),
        decreases strategies@.len() - k,
    {
        let elem = &strategies[k];
        let t = match elem.new_tree(runner) {
            Ok(t) => t,
            Err(e) => {
                proof {
                    assert(false);
                }
                return Err(e);
            },
        };
        trees.push(t);
        k = k + 1;
    }
    Ok(ArrayValueTree { trees, shrinker: 0, last_shrinker: None })
}

} // verus!
