//! Delays on a timer that counts whole microseconds.

use vstd::prelude::*;

verus! {

/// How many waits of one microsecond make up a delay of `ns` nanoseconds: one
/// for each thousand nanoseconds until at most a thousand are left.
pub open spec fn microsecond_waits(ns: u32) -> int {
    if ns == 0 {
        0
    } else {
        (ns - 1) / 1000
    }
}

/// How many waits of one microsecond make up a delay of `ns` nanoseconds.
pub fn delay_ns(ns: u32) -> (waits: u32)
    ensures
        waits == microsecond_waits(ns),
{
    let mut left: u32 = ns;
    let mut waits: u32 = 0;
    while left > 1000
        invariant
            waits <= left + 1000 * waits == ns,
            ns > 0 ==> left > 0,
        decreases left,
    {
        waits = waits + 1;
        left = left.saturating_sub(1000);
    }
    waits
}

/// A delay never waits longer than asked for, and falls short by at most one
/// microsecond.
pub proof fn law_delay_falls_short_by_a_microsecond_at_most(ns: u32)
    ensures
        1000 * microsecond_waits(ns) <= ns <= 1000 * microsecond_waits(ns) + 1000,
{
}

/// The waits never use up a delay: some time is left over, a microsecond at
/// most, unless there was none to begin with.
pub proof fn law_some_time_is_left_over(ns: u32)
    ensures
        ns > 0 ==> 1000 * microsecond_waits(ns) < ns <= 1000 * microsecond_waits(ns) + 1000,
        ns == 0 ==> microsecond_waits(ns) == 0,
{
}

/// A delay that is a microsecond longer takes one wait more.
pub proof fn law_each_microsecond_is_one_wait(ns: u32)
    requires
        0 < ns,
        ns + 1000 <= u32::MAX,
    ensures
        microsecond_waits((ns + 1000) as u32) == microsecond_waits(ns) + 1,
{
}

} // verus!
