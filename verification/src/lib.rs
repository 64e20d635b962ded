//! A small counter-aggregation library.
//!
//! An accumulator ([`PunchClock`] or [`StampingClock`]) holds a single
//! running total of non-negative quantities. A [`Worker`] is a lightweight
//! recorder handle that forwards quantities to an accumulator it does not
//! own; the accumulator is owned by the caller and handed to the worker at
//! each call, so any number of workers can share one accumulator.

pub mod punch_clock;
pub mod stamping_clock;
pub mod tally;
pub mod worker;

pub use crate::punch_clock::PunchClock;
pub use crate::stamping_clock::StampingClock;
pub use crate::worker::Worker;
