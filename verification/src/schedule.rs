//! When scheduled backups are due, and what keeps them from running.

use vstd::prelude::*;

pub mod requirements;

verus! {

/// How long the system must have been in use, in nanoseconds (ten
/// minutes), before a backup that depends on use (a catch-up, weekly or
/// hourly one) may start.
pub const USED_THRESHOLD_NANOS: u128 = 600_000_000_000;

} // verus!
