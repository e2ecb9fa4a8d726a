use vstd::prelude::*;

use crate::runner::Reject;
use crate::runner::TestRunner;

verus! {

/// A value type together with its mathematical model, the shape that
/// contracts speak about (a machine integer models itself, a vector models
/// itself as the sequence of its elements' models, an opaque foreign value
/// models itself as the data it carries).
pub trait Modeled: Sized {
    /// The type of the mathematical model.
    type Model;

    /// The model of this value.
    spec fn model(&self) -> Self::Model;
}

impl Modeled for u64 {
    type Model = u64;

    open spec fn model(&self) -> u64 {
        *self
    }
}

impl<V: Modeled> Modeled for Vec<V> {
    type Model = Seq<V::Model>;

    open spec fn model(&self) -> Seq<V::Model> {
        self@.map_values(|v: V| v.model())
    }
}

/// A mutable cursor over one concrete candidate value plus the private state
/// of a shrink search.
///
/// A driver queries `current`, and on a failing candidate walks the search:
/// `simplify` moves to a smaller candidate, `complicate` undoes the most
/// recent successful `simplify` (one level of undo, never more).
pub trait ValueTree: Sized {
    /// The type of the candidate values this tree ranges over.
    type Value: Modeled;

    /// Well-formedness of the search state; established by `Strategy::new_tree`
    /// and preserved by every operation.
    spec fn wf(&self) -> bool;

    /// The model of the value the tree currently represents.
    spec fn current_model(&self) -> <Self::Value as Modeled>::Model;

    /// Whether a call to `simplify` may still find a smaller candidate.
    /// When this is false, `simplify` is guaranteed to refuse.
    spec fn can_simplify(&self) -> bool;

    /// Whether one `simplify` step is recorded and can be undone.
    spec fn has_undo(&self) -> bool;

    /// The model of the value that `complicate` would restore.
    spec fn undo_model(&self) -> <Self::Value as Modeled>::Model;

    /// An upper bound on the number of further successful `simplify` calls;
    /// each success strictly shrinks it, so every shrink search terminates.
    spec fn size(&self) -> nat;

    /// The value the tree currently represents. Pure: consumes no entropy and
    /// moves no search state.
    fn current(&self) -> (v: Self::Value)
        requires
            self.wf(),
        ensures
            v.model() == self.current_model(),
    ;

    /// Tries to replace the current value with a smaller candidate.
    ///
    /// On success the step is recorded as the one undoable step: the value
    /// that was current before the call becomes the undo value. On failure
    /// the tree is exhausted: the current value is unchanged and further
    /// calls keep failing until a `complicate` reopens the search.
    fn simplify(&mut self) -> (r: bool)
        requires
            old(self).wf(),
        ensures
            final(self).wf(),
            r ==> old(self).can_simplify(),
            r ==> final(self).size() < old(self).size(),
            r ==> final(self).has_undo(),
            r ==> final(self).undo_model() == old(self).current_model(),
            !r ==> !final(self).can_simplify(),
            !r ==> final(self).current_model() == old(self).current_model(),
            !r ==> (final(self).has_undo() ==> old(self).has_undo() && final(self).undo_model()
                == old(self).undo_model()),
            final(self).size() <= old(self).size(),
    ;

    /// Undoes the most recent successful `simplify`, restoring the value that
    /// was current before it. The undo budget is exactly one level: with no
    /// recorded step the call refuses and the current value is unchanged, and
    /// after any call the recorded step is consumed.
    fn complicate(&mut self) -> (r: bool)
        requires
            old(self).wf(),
        ensures
            final(self).wf(),
            r == old(self).has_undo(),
            r ==> final(self).current_model() == old(self).undo_model(),
            !r ==> final(self).current_model() == old(self).current_model(),
            !final(self).has_undo(),
            final(self).size() <= old(self).size(),
    ;
}

/// An immutable descriptor of a value distribution; its sole duty is to
/// materialize a fresh [`ValueTree`] from an entropy source.
pub trait Strategy: Sized {
    /// The type of tree this strategy materializes.
    type Tree: ValueTree;

    /// Well-formedness of the descriptor itself.
    spec fn wf(&self) -> bool;

    /// What this strategy guarantees of every tree it hands out (the drawn
    /// value lies in the described distribution's support).
    spec fn accepts(&self, t: Self::Tree) -> bool;

    /// Draws one candidate, consuming entropy from `runner`. `Err` means the
    /// strategy could not produce a valid value (for example a filter ran out
    /// of retries); the driver discards the attempt and draws again.
    ///
    /// A fresh tree has no recorded shrink step, so a `complicate` with no
    /// prior successful `simplify` refuses and changes nothing.
    fn new_tree(&self, runner: &mut TestRunner) -> (r: Result<Self::Tree, Reject>)
        requires
            self.wf(),
        ensures
            r matches Ok(t) ==> t.wf() && self.accepts(t) && !t.has_undo(),
    ;
}

} // verus!
