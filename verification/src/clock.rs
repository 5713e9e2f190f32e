//! Clock sampling and the two wait primitives.
//!
//! The monotonic clock is read through a trusted wrapper that reports
//! nanoseconds elapsed since a fixed reference `Instant`; nothing is assumed
//! about the value it returns, so every caller is verified for an arbitrary
//! reading. Both wait primitives close the final stretch of a wait with a
//! verified spin loop, which alone guarantees that control resumes at or
//! after the requested instant. The optional thread suspension that makes
//! the wait cheap is handed in by the caller as a closure, since suspending
//! the thread is outside work that no verified code here performs.

use std::time::Instant;
use vstd::prelude::*;

verus! {

/// Largest clock reading the library works with, in nanoseconds (about 584
/// years of uptime). Readings are clamped here so that schedule arithmetic
/// stays clear of `u64` overflow.
pub const TIME_CAP: u64 = u64::MAX - 4_000_000_000_000_000;

/// Busy-spin margin of the coarse wait: the last millisecond of a wait is
/// spun, because thread suspension is not reliably accurate below that.
pub const COARSE_SPIN_NANOS: u64 = 1_000_000;

/// Busy-spin margin of the high-precision wait: only the last quarter of a
/// millisecond is spun, trading CPU for tighter wake-up accuracy.
pub const FINE_SPIN_NANOS: u64 = 250_000;

#[verifier::external_type_specification]
#[verifier::external_body]
pub struct ExInstant(Instant);

/// Relies on `std::time::Instant::now`: a fresh reading of the monotonic
/// clock, used as the fixed reference point that all later readings are
/// counted from.
#[verifier::external_body]
pub(crate) fn clock_reference() -> Instant {
    Instant::now()
}

/// Relies on `std::time::Instant::elapsed`: the time the monotonic clock has
/// advanced since `reference`, converted to nanoseconds. The value depends on
/// when the call runs, so nothing is promised of it; callers treat it as an
/// arbitrary reading.
#[verifier::external_body]
fn elapsed_nanos(reference: &Instant) -> u64 {
    reference.elapsed().as_nanos() as u64
}

/// Relies on `std::hint::spin_loop`: a CPU pause hint inside a busy-wait
/// loop. It computes nothing.
#[verifier::external_body]
fn spin_hint() {
    std::hint::spin_loop();
}

/// The current clock reading in nanoseconds since `reference`, clamped to
/// [`TIME_CAP`].
pub fn now_nanos(reference: &Instant) -> (t: u64)
    ensures
        t <= TIME_CAP,
{
    let raw: u64 = elapsed_nanos(reference);
    if raw > TIME_CAP {
        TIME_CAP
    } else {
        raw
    }
}

/// Spins, re-sampling the clock with a CPU yield hint each iteration, until
/// the clock reaches or passes `goal`; returns the reading that ended the
/// wait. The spin gives up after an astronomical number of samples and
/// reports the end of the clock's range instead; a nanosecond clock reaches
/// that point only after five centuries of uptime, far longer than the spins
/// themselves take.
pub fn busy_wait_until(reference: &Instant, goal: u64) -> (t: u64)
    requires
        goal <= TIME_CAP,
    ensures
        goal <= t,
        t <= TIME_CAP,
{
    let mut fuel: u64 = u64::MAX;
    let mut t: u64 = now_nanos(reference);
    while t < goal && fuel > 0
        invariant
            t <= TIME_CAP,
        decreases fuel,
    {
        spin_hint();
        t = now_nanos(reference);
        fuel = fuel - 1;
    }
    if t < goal {
        TIME_CAP
    } else {
        t
    }
}

/// Coarse wait until `goal`: if the clock is already at or past `goal` the
/// current reading is returned at once; otherwise the thread is suspended via
/// `suspend` for all but the last millisecond of the gap (skipped entirely
/// for gaps of at most a millisecond) and the remainder is spun. The
/// suspension is advisory: whatever `suspend` does, the result is a clock
/// reading at or past `goal`.
pub fn sleep_until<F: Fn(u64)>(reference: &Instant, goal: u64, suspend: F) -> (t: u64)
    requires
        goal <= TIME_CAP,
        forall|d: u64| call_requires(suspend, (d,)),
    ensures
        goal <= t,
        t <= TIME_CAP,
{
    let now: u64 = now_nanos(reference);
    if now >= goal {
        return now;
    }
    let gap: u64 = goal - now;
    if gap > COARSE_SPIN_NANOS {
        suspend(gap - COARSE_SPIN_NANOS);
    }
    busy_wait_until(reference, goal)
}

/// High-precision wait until `goal`: identical to [`sleep_until`] but keeps
/// only the last quarter of a millisecond for spinning, trading more CPU
/// burn for a tighter wake-up.
pub fn sleep_until_high_precision<F: Fn(u64)>(reference: &Instant, goal: u64, suspend: F) -> (t:
    u64)
    requires
        goal <= TIME_CAP,
        forall|d: u64| call_requires(suspend, (d,)),
    ensures
        goal <= t,
        t <= TIME_CAP,
{
    let now: u64 = now_nanos(reference);
    if now >= goal {
        return now;
    }
    let gap: u64 = goal - now;
    if gap > FINE_SPIN_NANOS {
        suspend(gap - FINE_SPIN_NANOS);
    }
    busy_wait_until(reference, goal)
}

} // verus!
