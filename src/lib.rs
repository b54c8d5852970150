//! The scheduling heartbeat of a profiling agent: at every 10-second boundary of
//! wall-clock time, each attached listener is handed the boundary's timestamp.
//!
//! `clock` buckets time into periods, `registry` holds the listeners and delivers
//! to them, and `schedule` decides what the background unit does on each wake.

use vstd::prelude::*;

pub mod clock;
pub mod registry;
pub mod schedule;
