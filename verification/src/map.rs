use vstd::prelude::*;

use crate::runner::Reject;
use crate::runner::TestRunner;
use crate::strategy::Modeled;
use crate::strategy::Strategy;
use crate::strategy::ValueTree;

verus! {

/// A pure, total translation handed to a [`MapStrategy`]: it turns each value
/// of the inner tree into an outer value, and `map_model` is the same
/// translation at the model level.
///
/// The translation must be total: it is applied to every value the inner
/// tree can ever hold, also while it shrinks.
pub trait MapFn<T: ValueTree>: Sized {
    /// The outer value type.
    type Output: Modeled;

    /// The translation at the model level.
    spec fn map_model(&self, m: <T::Value as Modeled>::Model) -> <Self::Output as Modeled>::Model;

    /// Applies the translation to one value.
    fn apply(&self, v: T::Value) -> (o: Self::Output)
        ensures
            o.model() == self.map_model(v.model()),
    ;
}

/// A strategy transformer that translates every value of an inner strategy
/// through a pure function.
#[derive(Clone, Copy, Debug)]
pub struct MapStrategy<S, F> {
    source: S,
    func: F,
}

impl<S, F> MapStrategy<S, F> {
    /// The strategy whose values are translated.
    pub closed spec fn source_strategy(&self) -> S {
        self.source
    }

    /// The translation.
    pub closed spec fn func_spec(&self) -> F {
        self.func
    }

    /// Wraps `source` so that every value it produces is translated through
    /// `func`.
    pub fn new(source: S, func: F) -> (r: Self)
        ensures
            r.source_strategy() == source,
            r.func_spec() == func,
    {
        MapStrategy { source, func }
    }
}

/// The tree of a [`MapStrategy`]: the shrink search delegates verbatim to the
/// inner tree, only `current` translates.
#[derive(Clone, Copy, Debug)]
pub struct MapValueTree<T, F> {
    source: T,
    func: F,
}

impl<T, F> MapValueTree<T, F> {
    /// The inner tree.
    pub closed spec fn source_tree(&self) -> T {
        self.source
    }

    /// The translation.
    pub closed spec fn func_spec(&self) -> F {
        self.func
    }
}

impl<T: ValueTree, F: MapFn<T>> ValueTree for MapValueTree<T, F> {
    type Value = F::Output;

    open spec fn wf(&self) -> bool {
        self.source_tree().wf()
    }

    open spec fn current_model(&self) -> <F::Output as Modeled>::Model {
        self.func_spec().map_model(self.source_tree().current_model())
    }

    open spec fn can_simplify(&self) -> bool {
        self.source_tree().can_simplify()
    }

    open spec fn has_undo(&self) -> bool {
        self.source_tree().has_undo()
    }

    open spec fn undo_model(&self) -> <F::Output as Modeled>::Model {
        self.func_spec().map_model(self.source_tree().undo_model())
    }

    open spec fn size(&self) -> nat {
        self.source_tree().size()
    }

    fn current(&self) -> (v: F::Output) {
        self.func.apply(self.source.current())
    }

    fn simplify(&mut self) -> (r: bool)
        ensures
            final(self).func_spec() == old(self).func_spec(),
    {
        self.source.simplify()
    }

    fn complicate(&mut self) -> (r: bool)
        ensures
            final(self).func_spec() == old(self).func_spec(),
    {
        self.source.complicate()
    }
}

impl<S: Strategy, F: MapFn<S::Tree> + Copy> Strategy for MapStrategy<S, F> {
    type Tree = MapValueTree<S::Tree, F>;

    open spec fn wf(&self) -> bool {
        self.source_strategy().wf()
    }

    open spec fn accepts(&self, t: MapValueTree<S::Tree, F>) -> bool {
        &&& self.source_strategy().accepts(t.source_tree())
        &&& t.func_spec() == self.func_spec()
    }

    fn new_tree(&self, runner: &mut TestRunner) -> (r: Result<MapValueTree<S::Tree, F>, Reject>) {
        match self.source.new_tree(runner) {
            Ok(t) => Ok(MapValueTree { source: t, func: self.func }),
            Err(e) => Err(e),
        }
    }
}

} // verus!
