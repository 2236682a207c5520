//! The cadence policy: how long a loop pauses once an iteration's work is done.
//!
//! The interval is fixed. Elapsed time is counted in whole seconds, fractions
//! dropped, so a pause is a whole number of seconds from 1 to the interval, and
//! work and pause together last at least one interval and less than one
//! interval and a second. Work that took the interval or longer is followed
//! by no pause at all: nothing is skipped or shortened later to catch up.

use vstd::prelude::*;

verus! {

/// Seconds from the start of one iteration's work to the start of the next,
/// as long as the work is faster than that.
pub const INTERVAL_SECS: u64 = 60;

/// Nanoseconds in a second.
pub const NANOS_PER_SEC: u128 = 1_000_000_000;

/// Nanoseconds from the clock reading `since` to the reading `now`;
/// nothing where the clock reads less than before.
pub open spec fn elapsed_nanos(since: u128, now: u128) -> nat {
    if now >= since {
        (now - since) as nat
    } else {
        0
    }
}

/// The whole seconds in a number of nanoseconds.
pub open spec fn whole_secs(nanos: nat) -> nat {
    nanos / (NANOS_PER_SEC as nat)
}

/// The pause that follows work of `elapsed_secs` whole seconds.
pub open spec fn pause_after(elapsed_secs: nat) -> Option<u64> {
    if elapsed_secs < INTERVAL_SECS {
        Some((INTERVAL_SECS - elapsed_secs) as u64)
    } else {
        None
    }
}

/// The pause that follows work which began at the reading `since` and was
/// done at the reading `now`.
pub open spec fn pause_between(since: u128, now: u128) -> Option<u64> {
    pause_after(whole_secs(elapsed_nanos(since, now)))
}

/// Seconds to pause after work that took `elapsed_secs` whole seconds:
/// the rest of the interval where the work was faster, and `None`, start
/// again at once, where it took the interval or more.
pub fn remaining_pause(elapsed_secs: u64) -> (pause: Option<u64>)
    ensures
        pause == pause_after(elapsed_secs as nat),
        elapsed_secs < INTERVAL_SECS ==> pause == Some((INTERVAL_SECS - elapsed_secs) as u64),
        elapsed_secs >= INTERVAL_SECS ==> pause is None,
{
    if elapsed_secs < INTERVAL_SECS {
        Some(INTERVAL_SECS - elapsed_secs)
    } else {
        None
    }
}

/// Seconds to pause after work that ran from the clock reading `since` to
/// the reading `now`, both in nanoseconds of one clock. A clock that reads
/// less than before counts as no time gone.
pub fn pause_for(since: u128, now: u128) -> (pause: Option<u64>)
    ensures
        pause == pause_between(since, now),
{
    let elapsed: u128 = if now >= since {
        now - since
    } else {
        0
    };
    let secs: u128 = elapsed / NANOS_PER_SEC;
    if secs < INTERVAL_SECS as u128 {
        remaining_pause(secs as u64)
    } else {
        None
    }
}

/// Work and pause together fill the interval to the second: where the work
/// took less than the interval, the pause is at least what is left of it and
/// less than a second more; where it took the interval or longer, there is
/// no pause.
pub proof fn law_pause_fills_interval(since: u128, now: u128)
    ensures
        match pause_between(since, now) {
            Some(secs) => {
                let worked = elapsed_nanos(since, now);
                let paused = secs * NANOS_PER_SEC;
                let interval = INTERVAL_SECS * NANOS_PER_SEC;
                &&& worked < interval
                &&& 1 <= secs <= INTERVAL_SECS
                &&& interval <= worked + paused < interval + NANOS_PER_SEC
            },
            None => elapsed_nanos(since, now) >= INTERVAL_SECS * NANOS_PER_SEC,
        },
{
    let worked: nat = elapsed_nanos(since, now);
    let n: nat = NANOS_PER_SEC as nat;
    assert(worked == n * (worked / n) + worked % n) by {
        vstd::arithmetic::div_mod::lemma_fundamental_div_mod(worked as int, n as int);
    }
}

} // verus!
