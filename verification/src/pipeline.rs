//! Pipeline stages and the bookkeeping shared by every streaming tracker.
//!
//! A tracker is a composition of stages connected by typed channels:
//!
//! ```text
//! Source -> Detector -> Associator -> Filter -> Smoother -> Sink
//! ```
//!
//! Each stage maps an input to zero-or-more outputs and can be reset.

use vstd::prelude::*;
use crate::sample::Timestamp;

verus! {

/// Generic stage: input to optional output, plus a per-stage reset.
pub trait Stage {
    /// Per-tick input type.
    type In<'a>;
    /// Per-tick output type.
    type Out;

    /// Process one input. Returns `None` if the stage has no output this tick
    /// (a detector may skip frames, a filter may wait for a seed).
    fn step(&mut self, input: Self::In<'_>) -> Option<Self::Out>;

    /// Discard any internal state.
    fn reset(&mut self);
}

/// Nanoseconds between the previous timestamp `last` and `now`: zero when
/// there is no previous timestamp, and zero when `now` is not later than it
/// (out-of-order timestamps never rewind state).
pub open spec fn elapsed_nanos(last: Option<Timestamp>, now: Timestamp) -> u64 {
    match last {
        Some(prev) => if now.0 >= prev.0 { (now.0 - prev.0) as u64 } else { 0 },
        None => 0,
    }
}

/// Shared bookkeeping for streaming trackers wrapping a recursive filter:
/// the live filter, a snapshot of its construction-time state for `reset`,
/// and the previous timestamp for step-length computation.
#[derive(Clone, Debug)]
pub struct TrackerCommon<F: Clone> {
    /// Underlying filter. Public for direct access from the embedding tracker.
    pub filter: F,
    initial: F,
    last_t: Option<Timestamp>,
}

impl<F: Clone> TrackerCommon<F> {
    /// The live filter (the public `filter` field), as contracts see it.
    pub closed spec fn current_filter(&self) -> F {
        self.filter
    }

    /// The construction-time filter that `reset` restores.
    pub closed spec fn initial_filter(&self) -> F {
        self.initial
    }

    /// The timestamp handed to the previous step-length call, if any.
    pub closed spec fn last_timestamp(&self) -> Option<Timestamp> {
        self.last_t
    }

    /// New tracker housekeeping around `filter`. The initial state is
    /// captured by clone so that `reset` can restore it.
    pub fn new(filter: F) -> (tc: Self)
        ensures
            tc.current_filter() == filter,
            cloned(filter, tc.initial_filter()),
            tc.last_timestamp() is None,
    {
        let initial = filter.clone();
        TrackerCommon { filter, initial, last_t: None }
    }

    /// The live filter, for the embedding tracker to read.
    pub fn filter(&self) -> (f: &F)
        ensures
            *f == self.current_filter(),
    {
        &self.filter
    }

    /// Replace the live filter (the embedding tracker's predict / update
    /// result). The construction-time snapshot and the previous timestamp
    /// are left as they were.
    pub fn set_filter(&mut self, f: F)
        ensures
            final(self).current_filter() == f,
            final(self).initial_filter() == old(self).initial_filter(),
            final(self).last_timestamp() == old(self).last_timestamp(),
    {
        self.filter = f;
    }

    /// Returns the nanoseconds elapsed since the previous call (zero on the
    /// first call, and zero for an out-of-order timestamp) and stores `now`
    /// as the new previous timestamp.
    pub fn dt_nanos_since(&mut self, now: Timestamp) -> (dt: u64)
        ensures
            dt == elapsed_nanos(old(self).last_timestamp(), now),
            old(self).last_timestamp() is None ==> dt == 0,
            old(self).last_timestamp() matches Some(prev) ==> (prev.0 <= now.0 ==> dt == now.0 - prev.0),
            old(self).last_timestamp() matches Some(prev) ==> (now.0 < prev.0 ==> dt == 0),
            final(self).last_timestamp() == Some(now),
            final(self).current_filter() == old(self).current_filter(),
            final(self).initial_filter() == old(self).initial_filter(),
    {
        let dt = match self.last_t {
            Some(prev) => now.as_nanos().saturating_sub(prev.as_nanos()),
            None => 0,
        };
        self.last_t = Some(now);
        dt
    }

    /// Restore the filter to its construction-time state and forget the
    /// previous timestamp.
    pub fn reset(&mut self)
        ensures
            cloned(old(self).initial_filter(), final(self).current_filter()),
            final(self).initial_filter() == old(self).initial_filter(),
            final(self).last_timestamp() is None,
    {
        self.filter = self.initial.clone();
        self.last_t = None;
    }
}

/// After a reset the tracker behaves as freshly constructed: its first
/// step-length is zero whatever timestamp comes next, exactly as for a
/// tracker that was just built.
pub proof fn lemma_first_step_after_reset_is_zero<F: Clone>(tc: TrackerCommon<F>, now: Timestamp)
    requires
        tc.last_timestamp() is None,
    ensures
        elapsed_nanos(tc.last_timestamp(), now) == 0,
{
}

/// The step length between a timestamp and a later (or equal) one is the
/// difference of their nanoseconds, on the whole clock range.
pub proof fn lemma_step_length_is_nanos_difference(prev: Timestamp, now: Timestamp)
    requires
        prev.0 <= now.0,
    ensures
        elapsed_nanos(Some(prev), now) == now.0 - prev.0,
        elapsed_nanos(Some(prev), now) + prev.0 == now.0,
{
}

/// Step lengths telescope: for timestamps `a <= b <= c` handed in that
/// order, the two step lengths add up to the span from `a` to `c`.
pub proof fn lemma_step_lengths_add_up(a: Timestamp, b: Timestamp, c: Timestamp)
    requires
        a.0 <= b.0 <= c.0,
    ensures
        elapsed_nanos(Some(a), b) + elapsed_nanos(Some(b), c) == elapsed_nanos(Some(a), c),
{
}

/// Step lengths never rewind: a timestamp earlier than the previous one
/// yields a zero step.
pub proof fn lemma_out_of_order_step_is_zero(prev: Timestamp, now: Timestamp)
    requires
        now.0 < prev.0,
    ensures
        elapsed_nanos(Some(prev), now) == 0,
{
}

} // verus!
