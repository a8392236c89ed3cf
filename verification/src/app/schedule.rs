//! Timing decisions of the event loop, on a monotonic clock counted in
//! milliseconds: how long to wait for input, when to refresh playback
//! information and persist state, and when a debounced equalizer change is
//! applied. The caller reads the clock and waits.

use vstd::prelude::*;

verus! {

/// Input wait while the visualiser runs (about 60 frames a second).
pub const CAVA_TICK_MS: u64 = 16;

/// Input wait otherwise.
pub const IDLE_TICK_MS: u64 = 100;

/// Period of the playback information refresh.
pub const PLAYBACK_REFRESH_MS: u64 = 500;

/// Period at which the queue and the page state are compared with what was
/// saved last, and saved when they changed.
pub const PERSIST_CHECK_MS: u64 = 1000;

/// Delay before an equalizer change is applied; changes within the delay
/// push it back.
pub const EQ_APPLY_DEBOUNCE_MS: u64 = 1000;

/// How long to wait for input.
pub fn tick_millis(cava_active: bool) -> (ms: u64)
    ensures
        ms == if cava_active {
            CAVA_TICK_MS
        } else {
            IDLE_TICK_MS
        },
{
    if cava_active {
        CAVA_TICK_MS
    } else {
        IDLE_TICK_MS
    }
}

/// Whether a periodic task is due: `period` milliseconds or more have
/// passed since it last ran at `last` (a clock that went back counts as
/// no time passed).
pub open spec fn is_due_spec(last: u64, now: u64, period: u64) -> bool {
    now >= last && now - last >= period
}

/// Whether a periodic task is due.
pub fn is_due(last: u64, now: u64, period: u64) -> (due: bool)
    ensures
        due == is_due_spec(last, now, period),
{
    now >= last && now - last >= period
}

/// The deadline of an equalizer change made at `now` (it replaces any
/// earlier deadline).
pub fn equalizer_deadline(now: u64) -> (deadline: u64)
    ensures
        deadline == if now <= u64::MAX - EQ_APPLY_DEBOUNCE_MS {
            (now + EQ_APPLY_DEBOUNCE_MS) as u64
        } else {
            u64::MAX
        },
{
    if now <= u64::MAX - EQ_APPLY_DEBOUNCE_MS {
        now + EQ_APPLY_DEBOUNCE_MS
    } else {
        u64::MAX
    }
}

/// Whether the scheduled equalizer change is applied at `now`, and the
/// deadline that remains: none is applied without a deadline or before
/// it; once applied, the deadline is cleared.
pub open spec fn equalizer_due_spec(deadline: Option<u64>, now: u64) -> (bool, Option<u64>) {
    match deadline {
        Some(d) => if now < d {
            (false, deadline)
        } else {
            (true, None)
        },
        None => (false, None),
    }
}

/// Decides whether the scheduled equalizer change is applied now.
pub fn equalizer_due(deadline: Option<u64>, now: u64) -> (r: (bool, Option<u64>))
    ensures
        r == equalizer_due_spec(deadline, now),
{
    match deadline {
        Some(d) => if now < d {
            (false, deadline)
        } else {
            (true, None)
        },
        None => (false, None),
    }
}

/// A scheduled change is applied once: after it was applied, later checks
/// apply nothing until a new change is scheduled.
pub proof fn equalizer_applied_once(deadline: Option<u64>, now: u64, later: u64)
    requires
        equalizer_due_spec(deadline, now).0,
    ensures
        !equalizer_due_spec(equalizer_due_spec(deadline, now).1, later).0,
{
}

/// A scheduled change is applied no sooner than the debounce delay after
/// it was made, and it is applied at any check from then on.
pub proof fn equalizer_applied_after_delay(made: u64, now: u64)
    requires
        made <= u64::MAX - EQ_APPLY_DEBOUNCE_MS,
    ensures
        equalizer_due_spec(Some((made + EQ_APPLY_DEBOUNCE_MS) as u64), now).0 <==> now >= made
            + EQ_APPLY_DEBOUNCE_MS,
{
}

} // verus!
