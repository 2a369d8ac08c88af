//! The one-shot latch: a state machine that guards an action so that it
//! starts at most once and, once finished or failed, stays so forever.
//!
//! The latch itself holds no value; pairing it with a storage slot is the job
//! of [`crate::lazy::Lazy`].  The latch contributes the decisions of the
//! run-once protocol: who may run the action (the one caller whose
//! [`Once::try_claim`] succeeds), when the result may be read (only in phase
//! [`OnceState::Complete`]), and what a failure leaves behind
//! ([`OnceState::Poisoned`], permanently).

use vstd::prelude::*;

verus! {

/// The phase of a one-shot latch.
///
/// Transitions only move forward: `Uninitialized` to `Running` (claiming),
/// `Running` to `Complete` (the action finished) or `Running` to `Poisoned`
/// (the action failed).  No transition ever returns to `Uninitialized`, and
/// `Complete` and `Poisoned` are permanent.
#[derive(Clone, Copy, PartialEq, Eq, Structural, Debug)]
pub enum OnceState {
    /// Nothing has claimed the latch yet.
    Uninitialized,
    /// Exactly one caller holds the claim and its action is in progress.
    Running,
    /// The action finished normally; the guarded result may be read.
    Complete,
    /// The action failed; the latch is permanently unusable.
    Poisoned,
}

impl OnceState {
    /// A single step a latch may take: stay put, or one of the three forward
    /// transitions.
    pub open spec fn steps_to(self, post: OnceState) -> bool {
        ||| post == self
        ||| (self == OnceState::Uninitialized && post == OnceState::Running)
        ||| (self == OnceState::Running && post == OnceState::Complete)
        ||| (self == OnceState::Running && post == OnceState::Poisoned)
    }

    /// All phases reachable from `self` by any number of steps.
    pub open spec fn reaches(self, post: OnceState) -> bool {
        match self {
            OnceState::Uninitialized => true,
            OnceState::Running => post != OnceState::Uninitialized,
            OnceState::Complete => post == OnceState::Complete,
            OnceState::Poisoned => post == OnceState::Poisoned,
        }
    }

    /// A terminal phase: one that is never left again.
    pub open spec fn is_terminal(self) -> bool {
        self == OnceState::Complete || self == OnceState::Poisoned
    }

    /// A claim succeeds exactly on a latch nothing has claimed yet.
    pub open spec fn claim_wins(self) -> bool {
        self == OnceState::Uninitialized
    }
}

/// One step is a special case of reachability.
pub proof fn lemma_step_reaches(pre: OnceState, post: OnceState)
    requires
        pre.steps_to(post),
    ensures
        pre.reaches(post),
{
}

/// Reachability is reflexive and transitive.
pub proof fn lemma_reaches_trans(a: OnceState, b: OnceState, c: OnceState)
    requires
        a.reaches(b),
        b.reaches(c),
    ensures
        a.reaches(a),
        a.reaches(c),
{
}

/// No run of steps ever returns a latch to `Uninitialized`.
pub proof fn lemma_no_return_to_uninitialized(pre: OnceState, post: OnceState)
    requires
        pre != OnceState::Uninitialized,
        pre.reaches(post),
    ensures
        post != OnceState::Uninitialized,
{
}

/// A terminal phase is permanent: whatever is reachable from it is itself.
pub proof fn lemma_terminal_is_permanent(pre: OnceState, post: OnceState)
    requires
        pre.is_terminal(),
        pre.reaches(post),
    ensures
        post == pre,
{
}

/// A history of phases in which each state follows from the previous one by a
/// single step.  Concurrent callers of one latch each observe some prefix of
/// such a history; stuttering steps stand for the observations that change
/// nothing.
pub open spec fn valid_history(h: Seq<OnceState>) -> bool {
    forall|i: int| 0 <= i < h.len() - 1 ==> h[i].steps_to(#[trigger] h[i + 1])
}

/// Along a valid history, every later phase is reachable from every earlier
/// one.
pub proof fn lemma_history_reaches(h: Seq<OnceState>, i: int, j: int)
    requires
        valid_history(h),
        0 <= i <= j < h.len(),
    ensures
        h[i].reaches(h[j]),
    decreases j - i,
{
    if i < j {
        lemma_history_reaches(h, i, j - 1);
        assert(h[j - 1].steps_to(h[j - 1 + 1]));
        lemma_step_reaches(h[j - 1], h[j]);
        lemma_reaches_trans(h[i], h[j - 1], h[j]);
    }
}

/// Exactly one claim ever wins on a given latch.  If the claim at position
/// `i` of a history won — the phase was `Uninitialized` there and had been
/// left by the next state — then no claim at any later position can win
/// again, because the history never returns to `Uninitialized`.
pub proof fn lemma_at_most_one_winning_claim(h: Seq<OnceState>, i: int, j: int)
    requires
        valid_history(h),
        0 <= i,
        i + 1 <= j,
        j < h.len(),
        h[i].claim_wins(),
        h[i + 1] != OnceState::Uninitialized,
    ensures
        !h[j].claim_wins(),
{
    lemma_history_reaches(h, i + 1, j);
    lemma_no_return_to_uninitialized(h[i + 1], h[j]);
}

/// The first claim on a fresh latch always wins: on a history that starts
/// `Uninitialized`, the first position whose claim would lose must be
/// preceded by a position whose claim won.
pub proof fn lemma_at_least_one_winning_claim(h: Seq<OnceState>, j: int)
    requires
        valid_history(h),
        0 < h.len(),
        h[0] == OnceState::Uninitialized,
        0 <= j < h.len(),
        !h[j].claim_wins(),
    ensures
        exists|i: int| 0 <= i < j && #[trigger] h[i].claim_wins() && h[i + 1]
            != OnceState::Uninitialized,
    decreases j,
{
    if h[j - 1].claim_wins() {
        assert(h[j - 1].claim_wins() && h[j] != OnceState::Uninitialized);
    } else {
        lemma_at_least_one_winning_claim(h, j - 1);
    }
}

/// A coarser history in which each phase is merely reachable from the one
/// before, possibly by several steps at a time.  A chain of calls to
/// [`crate::lazy::Lazy::get`] or [`crate::lazy::Lazy::try_get`] leaves such a
/// history behind: each call's contract guarantees [`OnceState::reaches`]
/// between its pre- and post-phase.
pub open spec fn valid_evolution(h: Seq<OnceState>) -> bool {
    forall|i: int| 0 <= i < h.len() - 1 ==> h[i].reaches(#[trigger] h[i + 1])
}

/// Along a valid evolution, every later phase is reachable from every
/// earlier one.
pub proof fn lemma_evolution_reaches(h: Seq<OnceState>, i: int, j: int)
    requires
        valid_evolution(h),
        0 <= i <= j < h.len(),
    ensures
        h[i].reaches(h[j]),
    decreases j - i,
{
    if i < j {
        lemma_evolution_reaches(h, i, j - 1);
        assert(h[j - 1].reaches(h[j - 1 + 1]));
        lemma_reaches_trans(h[i], h[j - 1], h[j]);
    }
}

/// A terminal phase is permanent along any evolution.  In particular,
/// poisoning propagates: a cell once `Poisoned` is `Poisoned` at every later
/// point, so every later read fails; and a cell once `Complete` is
/// `Complete` at every later point, so every later read succeeds with the
/// stored value.
pub proof fn lemma_terminal_along_evolution(h: Seq<OnceState>, i: int, j: int)
    requires
        valid_evolution(h),
        0 <= i <= j < h.len(),
        h[i].is_terminal(),
    ensures
        h[j] == h[i],
{
    lemma_evolution_reaches(h, i, j);
    lemma_terminal_is_permanent(h[i], h[j]);
}

/// `Uninitialized` is left at most once along any evolution: after any point
/// where the phase is no longer `Uninitialized`, no later read can find it
/// so, and hence no later read can run a producer.
pub proof fn lemma_producer_runs_at_most_once(h: Seq<OnceState>, i: int, j: int)
    requires
        valid_evolution(h),
        0 <= i <= j < h.len(),
        h[i] != OnceState::Uninitialized,
    ensures
        !h[j].claim_wins(),
{
    lemma_evolution_reaches(h, i, j);
    lemma_no_return_to_uninitialized(h[i], h[j]);
}

/// A one-shot latch.
///
/// The phase can only be moved through the methods below, so every value of
/// this type evolves along the transitions of [`OnceState::steps_to`]: the
/// lemmas above apply to any history a caller observes.
pub struct Once {
    state: OnceState,
}

impl Once {
    /// The current phase of the latch.
    pub closed spec fn phase(self) -> OnceState {
        self.state
    }

    /// A fresh latch, in phase `Uninitialized`.  Nothing runs at
    /// construction.
    pub fn new() -> (g: Once)
        ensures
            g.phase() == OnceState::Uninitialized,
    {
        Once { state: OnceState::Uninitialized }
    }

    /// Read the current phase.
    pub fn state(&self) -> (s: OnceState)
        ensures
            s == self.phase(),
    {
        self.state
    }

    /// Attempt to claim the right to run the guarded action.
    ///
    /// Exactly the caller that finds the phase `Uninitialized` wins and moves
    /// it to `Running`; every other caller loses and changes nothing.
    pub fn try_claim(&mut self) -> (won: bool)
        ensures
            won == old(self).phase().claim_wins(),
            won ==> final(self).phase() == OnceState::Running,
            !won ==> final(self).phase() == old(self).phase(),
            old(self).phase().steps_to(final(self).phase()),
    {
        match self.state {
            OnceState::Uninitialized => {
                self.state = OnceState::Running;
                true
            },
            _ => false,
        }
    }

    /// Record that the claimed action finished normally.  Only the winner of
    /// the claim, while its action runs, may call this.
    pub fn complete(&mut self)
        requires
            old(self).phase() == OnceState::Running,
        ensures
            final(self).phase() == OnceState::Complete,
            old(self).phase().steps_to(final(self).phase()),
    {
        self.state = OnceState::Complete;
    }

    /// Record that the claimed action failed.  Only the winner of the claim,
    /// while its action runs, may call this; the latch is then permanently
    /// poisoned.
    pub fn poison(&mut self)
        requires
            old(self).phase() == OnceState::Running,
        ensures
            final(self).phase() == OnceState::Poisoned,
            old(self).phase().steps_to(final(self).phase()),
    {
        self.state = OnceState::Poisoned;
    }
}

} // verus!
