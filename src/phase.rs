//! The phases of an election and the order in which they follow one another.

use vstd::prelude::*;

verus! {

/// The phase an election is in. Phases only move forward, in declaration order,
/// and `Completed` is final.
#[derive(Clone, Copy, Debug, PartialEq, Eq, Structural)]
pub enum ElectionPhase {
    Unset,
    Initialization,
    Registration,
    BiasedSigner,
    Voting,
    Counting,
    Completed,
}

impl ElectionPhase {
    /// Position of the phase in the fixed order, `Unset` first.
    pub open spec fn rank(self) -> nat {
        match self {
            ElectionPhase::Unset => 0,
            ElectionPhase::Initialization => 1,
            ElectionPhase::Registration => 2,
            ElectionPhase::BiasedSigner => 3,
            ElectionPhase::Voting => 4,
            ElectionPhase::Counting => 5,
            ElectionPhase::Completed => 6,
        }
    }

    /// The phase that follows this one; `Completed` follows itself.
    pub open spec fn next(self) -> ElectionPhase {
        match self {
            ElectionPhase::Unset => ElectionPhase::Initialization,
            ElectionPhase::Initialization => ElectionPhase::Registration,
            ElectionPhase::Registration => ElectionPhase::BiasedSigner,
            ElectionPhase::BiasedSigner => ElectionPhase::Voting,
            ElectionPhase::Voting => ElectionPhase::Counting,
            ElectionPhase::Counting => ElectionPhase::Completed,
            ElectionPhase::Completed => ElectionPhase::Completed,
        }
    }

    /// The phase reached from this one after `n` steps.
    pub open spec fn advanced(self, n: nat) -> ElectionPhase
        decreases n,
    {
        if n == 0 {
            self
        } else {
            self.next().advanced((n - 1) as nat)
        }
    }

    /// Returns the phase that follows this one.
    pub fn increment(&self) -> (r: ElectionPhase)
        ensures
            r == self.next(),
    {
        match *self {
            ElectionPhase::Unset => ElectionPhase::Initialization,
            ElectionPhase::Initialization => ElectionPhase::Registration,
            ElectionPhase::Registration => ElectionPhase::BiasedSigner,
            ElectionPhase::BiasedSigner => ElectionPhase::Voting,
            ElectionPhase::Voting => ElectionPhase::Counting,
            ElectionPhase::Counting => ElectionPhase::Completed,
            ElectionPhase::Completed => ElectionPhase::Completed,
        }
    }
}

/// A step moves one place forward in the order, except from `Completed`, which
/// it leaves in place.
pub proof fn lemma_next_steps_forward(p: ElectionPhase)
    ensures
        p != ElectionPhase::Completed ==> p.next().rank() == p.rank() + 1,
        p == ElectionPhase::Completed ==> p.next() == p,
        p.rank() <= 6,
        p.rank() == 6 <==> p == ElectionPhase::Completed,
{
}

/// However many steps are taken from any phase, the rank never goes back.
pub proof fn lemma_advance_never_goes_back(p: ElectionPhase, n: nat)
    ensures
        p.rank() <= p.advanced(n).rank(),
    decreases n,
{
    if n > 0 {
        lemma_advance_never_goes_back(p.next(), (n - 1) as nat);
    }
}

/// Six steps from `Unset` reach `Completed`; more generally, from any phase, six
/// or more steps end in `Completed`, and `Completed` stays where it is.
pub proof fn lemma_advance_reaches_completed(p: ElectionPhase, n: nat)
    requires
        n >= 6,
    ensures
        p.advanced(n) == ElectionPhase::Completed,
        ElectionPhase::Unset.advanced(6) == ElectionPhase::Completed,
        ElectionPhase::Completed.next() == ElectionPhase::Completed,
{
    lemma_completed_within(p, n);
    reveal_with_fuel(ElectionPhase::advanced, 7);
}

proof fn lemma_completed_within(p: ElectionPhase, n: nat)
    requires
        p.rank() + n >= 6,
    ensures
        p.advanced(n) == ElectionPhase::Completed,
    decreases n,
{
    if n == 0 {
    } else {
        lemma_completed_within(p.next(), (n - 1) as nat);
    }
}

} // verus!
