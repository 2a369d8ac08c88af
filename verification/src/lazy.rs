//! The lazy value cell: an empty-or-filled slot paired with one one-shot
//! latch ([`crate::once::Once`]).

use vstd::prelude::*;

use crate::once::Once;
use crate::once::OnceState;

verus! {

/// The one failure the cell itself adds: its latch was poisoned because an
/// earlier producer failed.  A poisoned cell is permanently unusable.
#[derive(Clone, Copy, PartialEq, Eq, Structural, Debug)]
pub struct PoisonedError;

/// Failure of a fallible read ([`Lazy::try_get`]).
#[derive(PartialEq, Eq, Debug)]
pub enum TryGetError<E> {
    /// The cell was poisoned before this call; the original failure went to
    /// the caller that ran the producer, and nobody else learns its details.
    Poisoned(PoisonedError),
    /// This call's own producer ran and failed; the cell is poisoned now.
    Producer(E),
}

/// A cell holding a value that is produced on first demand.
pub struct Lazy<T: Sync> {
    slot: Option<T>,
    once: Once,
}

impl<T: Sync> Lazy<T> {
    /// The cell's latch phase.  A cell at rest is never `Running`: that phase
    /// exists only while a read operation drives the producer.
    pub closed spec fn phase(self) -> OnceState {
        self.once.phase()
    }

    /// The stored value, meaningful once the cell is initialized.
    pub closed spec fn value(self) -> T {
        self.slot->Some_0
    }

    /// Well-formedness: the slot is filled exactly when the phase is
    /// `Complete`, and the latch is not mid-claim.
    pub closed spec fn wf(self) -> bool {
        &&& (self.phase() == OnceState::Complete <==> self.slot is Some)
        &&& self.phase() != OnceState::Running
    }

    /// The producer has run to completion and the slot is filled.
    pub open spec fn is_initialized(self) -> bool {
        self.phase() == OnceState::Complete
    }

    /// A producer failed here earlier; every read fails from now on.
    pub open spec fn is_poisoned(self) -> bool {
        self.phase() == OnceState::Poisoned
    }

    /// An empty cell.  No producer is known yet, let alone run: a fresh cell
    /// holds nothing and has observed no side effect.
    pub fn new() -> (c: Lazy<T>)
        ensures
            c.wf(),
            !c.is_initialized(),
            !c.is_poisoned(),
    {
        Lazy { slot: None, once: Once::new() }
    }

    /// Read the cell, producing the value on the first call.
    ///
    /// The first call on a fresh cell runs `producer`, stores its result, and
    /// returns a reference to it; every later call returns a reference to
    /// that same stored value, and `producer` goes unused — the cell is left
    /// exactly as it was.  The call fails, with [`PoisonedError`], precisely
    /// when the cell was already poisoned by an earlier failed producer.
    ///
    /// The producer must not read the same cell itself: the cell is borrowed
    /// exclusively for the whole call, so such a producer cannot even be
    /// written.
    pub fn get<F: FnOnce() -> T>(&mut self, producer: F) -> (r: Result<&T, PoisonedError>)
        requires
            old(self).wf(),
            old(self).phase().claim_wins() ==> call_requires(producer, ()),
        ensures
            final(self).wf(),
            old(self).phase().reaches(final(self).phase()),
            r is Err <==> old(self).is_poisoned(),
            old(self).is_poisoned() ==> *final(self) == *old(self),
            old(self).is_initialized() ==> *final(self) == *old(self) && (r matches Ok(v) && *v
                == old(self).value()),
            r is Ok ==> final(self).is_initialized(),
            r matches Ok(v) ==> *v == final(self).value(),
            !old(self).is_initialized() && r is Ok ==> call_ensures(
                producer,
                (),
                final(self).value(),
            ),
    {
        match self.once.state() {
            OnceState::Complete => {},
            OnceState::Poisoned => {
                return Err(PoisonedError);
            },
            _ => {
                let won = self.once.try_claim();
                assert(won);
                let v = producer();
                self.slot = Some(v);
                self.once.complete();
            },
        }
        match &self.slot {
            Some(x) => Ok(x),
            None => vstd::pervasive::unreached(),
        }
    }

    /// Read the cell with a producer that may fail.
    ///
    /// On an initialized cell the producer goes unused and the stored value
    /// comes back, as with [`Lazy::get`].  On a fresh cell the producer runs:
    /// if it returns a value, the value is stored and a reference to it comes
    /// back; if it fails, its error comes back to this caller — the only one
    /// ever to learn it — and the cell is poisoned for good.  On a poisoned
    /// cell the call fails with [`TryGetError::Poisoned`].
    pub fn try_get<E, F: FnOnce() -> Result<T, E>>(&mut self, producer: F) -> (r: Result<
        &T,
        TryGetError<E>,
    >)
        requires
            old(self).wf(),
            old(self).phase().claim_wins() ==> call_requires(producer, ()),
        ensures
            final(self).wf(),
            old(self).phase().reaches(final(self).phase()),
            old(self).is_poisoned() ==> *final(self) == *old(self) && (r matches Err(e) && e
                is Poisoned),
            old(self).is_initialized() ==> *final(self) == *old(self) && (r matches Ok(v) && *v
                == old(self).value()),
            r matches Ok(v) ==> final(self).is_initialized() && *v == final(self).value(),
            r matches Err(e) && e is Poisoned ==> old(self).is_poisoned(),
            r matches Err(e) && e is Producer ==> final(self).is_poisoned(),
            !old(self).is_poisoned() && !old(self).is_initialized() ==> {
                ||| (r is Ok && call_ensures(producer, (), Ok(final(self).value())))
                ||| (r matches Err(e) && e matches TryGetError::Producer(pe) && call_ensures(
                    producer,
                    (),
                    Err(pe),
                ) && final(self).is_poisoned())
            },
    {
        match self.once.state() {
            OnceState::Complete => {},
            OnceState::Poisoned => {
                return Err(TryGetError::Poisoned(PoisonedError));
            },
            _ => {
                let won = self.once.try_claim();
                assert(won);
                match producer() {
                    Ok(v) => {
                        self.slot = Some(v);
                        self.once.complete();
                    },
                    Err(e) => {
                        self.once.poison();
                        return Err(TryGetError::Producer(e));
                    },
                }
            },
        }
        match &self.slot {
            Some(x) => Ok(x),
            None => vstd::pervasive::unreached(),
        }
    }
}

} // verus!
