//! The system information endpoint's figures. Memory and connection counts
//! are fixed approximations, not measurements.

use vstd::prelude::*;
use crate::health::uptime_from;
use crate::outside::now_utc;

verus! {

/// Seconds since the Unix epoch at the moment of the call.
pub fn get_uptime() -> (r: u64) {
    uptime_from(now_utc())
}

/// The reported memory use in bytes: a fixed 64 MiB, not a measurement.
pub fn get_memory_usage() -> (r: u64)
    ensures
        r == 64 * 1024 * 1024,
{
    64 * 1024 * 1024
}

/// The reported number of open connections: a fixed 42, not a count.
pub fn get_active_connections() -> (r: u32)
    ensures
        r == 42,
{
    42
}

} // verus!
