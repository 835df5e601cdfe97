//! A monotonic-order guard for staged construction.
//!
//! Builders go through a fixed sequence of named stages.  The tracker holds
//! the stage most recently reached and admits a new stage only when it comes
//! strictly after the current one; reaching a stage at or before the current
//! one is a usage error and is fatal.

use vstd::prelude::*;
use vstd::pervasive::runtime_assert;

verus! {

/// A named construction stage with a fixed position in the build order.
pub trait BuildStage: Sized {
    /// Position of this stage in the build order.
    spec fn ord(&self) -> int;

    /// Returns the stage's position as a machine integer.
    fn ordinal(&self) -> (r: u64)
        ensures
            r == self.ord(),
    ;
}

/// Tracks the construction stage most recently reached and admits only
/// strictly increasing stage transitions.
pub struct BuilderOrderChecker<O> {
    stage: O,
}

impl<O: BuildStage> BuilderOrderChecker<O> {
    /// The stage most recently reached.
    pub closed spec fn current_stage(&self) -> O {
        self.stage
    }

    /// Creates a tracker starting at `stage`.
    pub fn new(stage: O) -> (r: Self)
        ensures
            r.current_stage() == stage,
    {
        Self { stage }
    }

    /// Admits `other` only when it comes strictly after the current stage.
    /// An out-of-order request is a usage error and aborts the process; the
    /// precondition proves that verified callers never reach that path.
    pub fn check_order(&self, other: &O)
        requires
            self.current_stage().ord() < other.ord(),
    {
        runtime_assert(self.stage.ordinal() < other.ordinal());
    }

    /// Like `check_order`, but on an out-of-order request invokes `f`
    /// instead of failing.
    pub fn check_order_else<F: Fn() -> ()>(&self, other: &O, f: F)
        requires
            call_requires(f, ()),
    {
        if !(self.stage.ordinal() < other.ordinal()) {
            f();
        }
    }

    /// Checks that `other` comes strictly after the current stage, then
    /// makes it the current stage.
    pub fn check_and_change(&mut self, other: O)
        requires
            old(self).current_stage().ord() < other.ord(),
        ensures
            final(self).current_stage() == other,
    {
        self.check_order(&other);
        self.stage = other;
    }

    /// Makes `other` the current stage, invoking `f` first when `other`
    /// does not come strictly after the current stage.
    pub fn check_and_change_else<F: Fn() -> ()>(&mut self, other: O, f: F)
        requires
            call_requires(f, ()),
        ensures
            final(self).current_stage() == other,
    {
        self.check_order_else(&other, f);
        self.stage = other;
    }
}

/// Whether a tracker at ordinal `start` admits the ordinals in `targets`,
/// presented one after the other: each must come strictly after the one
/// before it, exactly as `check_and_change` demands of each advance.
pub open spec fn accepts(start: int, targets: Seq<int>) -> bool
    decreases targets.len(),
{
    targets.len() == 0 || (start < targets[0] && accepts(targets[0], targets.drop_first()))
}

/// Whether the ordinals in `targets` are strictly increasing, starting
/// strictly above `start`.
pub open spec fn strictly_increasing_from(start: int, targets: Seq<int>) -> bool {
    &&& (targets.len() > 0 ==> start < targets[0])
    &&& (forall|i: int| 0 < i < targets.len() ==> targets[i - 1] < #[trigger] targets[i])
}

/// The tracker accepts a sequence of stage ordinals exactly when the
/// sequence is strictly increasing from the starting ordinal.
pub proof fn lemma_accepts_iff_strictly_increasing(start: int, targets: Seq<int>)
    ensures
        accepts(start, targets) <==> strictly_increasing_from(start, targets),
    decreases targets.len(),
{
    if targets.len() > 0 {
        let rest = targets.drop_first();
        lemma_accepts_iff_strictly_increasing(targets[0], rest);
        assert(forall|j: int| 0 <= j < rest.len() ==> #[trigger] rest[j] == targets[j + 1]);
        if accepts(start, targets) {
            assert forall|i: int| 0 < i < targets.len() implies targets[i - 1] < #[trigger] targets[i] by {
                if i == 1 {
                    assert(targets[0] < rest[0]);
                } else {
                    assert(rest[i - 2] < rest[i - 1]);
                }
            }
        }
        if strictly_increasing_from(start, targets) {
            assert forall|i: int| 0 < i < rest.len() implies rest[i - 1] < #[trigger] rest[i] by {
                assert(targets[i] < targets[i + 1]);
            }
            assert(strictly_increasing_from(targets[0], rest));
        }
    }
}

/// One advance of the tracker is admissible exactly when the tracker
/// accepts the one-element sequence of its ordinal: the precondition of
/// `check_and_change` coincides with `accepts`, step by step.
pub proof fn lemma_single_advance_matches_accepts(current: int, target: int)
    ensures
        (current < target) <==> accepts(current, seq![target]),
{
    let s = seq![target];
    assert(s.len() == 1 && s[0] == target);
    assert(s.drop_first() =~= Seq::<int>::empty());
    assert(accepts(target, s.drop_first()));
    assert(accepts(current, s) == (current < target && accepts(target, s.drop_first())));
}

/// A single out-of-order ordinal anywhere in the sequence makes the whole
/// sequence unacceptable to the tracker.
pub proof fn lemma_out_of_order_rejected(start: int, targets: Seq<int>, i: int)
    requires
        0 <= i < targets.len(),
        targets[i] <= (if i == 0 { start } else { targets[i - 1] }),
    ensures
        !accepts(start, targets),
{
    lemma_accepts_iff_strictly_increasing(start, targets);
}

} // verus!
