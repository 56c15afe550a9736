//! Clock arithmetic on time-stamp-counter readings.
use vstd::prelude::*;

verus! {

/// Nanoseconds between two counter readings, taking three counter ticks per
/// nanosecond; zero when the counter went backwards.
pub open spec fn nanoseconds_between(previous_tsc: u64, current_tsc: u64) -> u64 {
    if current_tsc >= previous_tsc {
        ((current_tsc - previous_tsc) / 3) as u64
    } else {
        0
    }
}

/// The nanoseconds elapsed from the counter reading `previous_tsc` to the
/// reading `current_tsc`.
pub fn get_nanoseconds_since(previous_tsc: u64, current_tsc: u64) -> (ns: u64)
    ensures
        ns == nanoseconds_between(previous_tsc, current_tsc),
{
    let cycles = current_tsc.saturating_sub(previous_tsc);
    cycles / 3
}

} // verus!
