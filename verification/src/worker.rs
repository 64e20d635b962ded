//! The recorder handle: a worker forwards quantities to an accumulator it
//! does not own.
//!
//! The accumulator is owned by the caller and handed to the worker at each
//! call as `&mut Option<StampingClock>`, so any number of workers can share
//! one accumulator, and `None` models a worker whose backing accumulator is
//! absent. Stamping through an absent accumulator is a deliberate, silent
//! no-op rather than an error.

use vstd::prelude::*;

use crate::stamping_clock::StampingClock;

verus! {

/// A recorder handle. A worker holds no state of its own: it only forwards
/// quantities to the accumulator it is handed.
pub struct Worker {}

impl Worker {
    /// Creates a worker handle.
    pub fn new() -> (worker: Worker) {
        Worker {}
    }

    /// Forwards `hours` to the bound clock. If the clock is absent, the
    /// call is a no-op and does not panic.
    pub fn stamp(&mut self, clock: &mut Option<StampingClock>, hours: u32)
        requires
            *old(clock) matches Some(c) ==> c@ + hours <= u32::MAX,
        ensures
            *old(clock) matches Some(c) ==> (*final(clock) matches Some(d) && d@ == c@ + hours),
            *old(clock) is None ==> *final(clock) is None,
    {
        match clock {
            Some(sc) => sc.stamp(hours),
            None => (),
        }
    }
}

} // verus!
