//! Deferred, one-shot initialization of values that need runtime computation.
//!
//! The crate has two layers, leaves first:
//!
//! * [`once`] — a one-shot latch: a minimal state machine that tracks whether
//!   a guarded action is yet to start, in progress, finished, or failed.
//!   Exactly one claim on a fresh latch succeeds, transitions only move
//!   forward, and the two terminal phases are permanent.
//! * [`lazy`] — a lazy value cell: an empty-or-filled slot paired with one
//!   latch.  Its read operation runs a caller-supplied producer on the first
//!   call, stores the result, and hands the same value back on every later
//!   call; a producer failure poisons the cell for good.

pub mod once;
pub mod lazy;
