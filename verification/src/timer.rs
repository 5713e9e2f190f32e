//! The pacing state machine and its statistics window.
//!
//! A [`Timer`] holds its whole state as plain integers: nanoseconds since the
//! `epoch` reference instant taken at creation. One pacing call is split into
//! a deterministic scheduling step ([`Timer::plan_frame`]), an optional wait,
//! and a deterministic bookkeeping step ([`Timer::finish_frame`]);
//! [`Timer::frame`] composes the three against the real clock. The split
//! keeps every decision verified for arbitrary clock readings and lets the
//! deterministic steps be exercised directly on chosen timestamps.

use crate::clock::clock_reference;
use crate::clock::now_nanos;
use crate::clock::sleep_until;
use crate::clock::sleep_until_high_precision;
use crate::clock::TIME_CAP;
use std::time::Instant;
use vstd::prelude::*;

verus! {

/// Default target period: one sixtieth of a second.
pub const DEFAULT_PERIOD_NANOS: u64 = 16_666_667;

/// Default logging interval: one tenth of a second.
pub const DEFAULT_LOG_INTERVAL_NANOS: u64 = 100_000_000;

/// Default number of periods a frame may lag behind before the schedule is
/// reset to the present.
pub const DEFAULT_MAX_DELAY_FRAMES: u32 = 2;

/// Largest accepted target period (about eleven and a half days).
pub const MAX_PERIOD_NANOS: u64 = 1_000_000_000_000_000;

/// Largest accepted logging interval (about eleven and a half days).
pub const MAX_LOG_INTERVAL_NANOS: u64 = 1_000_000_000_000_000;

/// Largest lag allowance the slack policy works with, in periods.
pub const MAX_DELAY_FRAMES_LIMIT: u32 = 1000;

/// Nanoseconds from `then` to `now`, zero when the clock reads earlier than
/// `then`.
pub open spec fn time_since(now: u64, then: u64) -> u64 {
    if now >= then {
        (now - then) as u64
    } else {
        0
    }
}

/// How the schedule advances once a deadline has been used: exactly one
/// period later, saturating at the end of the clock's range, [`TIME_CAP`],
/// which pacing cannot outrun anyway.
pub open spec fn next_target(decided: u64, period: u64) -> u64 {
    if decided + period <= TIME_CAP {
        (decided + period) as u64
    } else {
        TIME_CAP
    }
}

/// A snapshot of the statistics window that just closed.
#[derive(Debug)]
pub struct Log {
    /// Average time between frames over the window, in nanoseconds.
    pub delta_avg: u64,
}

impl Log {
    /// Frame time averaged over the interval since the previous snapshot, in
    /// nanoseconds.
    pub fn delta_time_avg(&self) -> (d: u64)
        ensures
            d == self.delta_avg,
    {
        self.delta_avg
    }
}

/// The frame-pacing timer. All timestamps are nanoseconds since `epoch`.
pub struct Timer {
    /// Reference instant taken at creation; every timestamp counts from it.
    pub epoch: Instant,
    /// Timestamp of the previous completed pacing call.
    pub previous: u64,
    /// Timestamp of the previous produced log snapshot.
    pub previous_log: u64,
    /// Timestamp at which the next pacing call should unblock.
    pub target: u64,
    /// Timestamp from which the next log snapshot is due.
    pub log_target: u64,
    /// Target time between two frames; zero disables waiting entirely.
    pub delta_time: u64,
    /// Time between two log snapshots.
    pub log_interval: u64,
    /// Frame count at the previous log snapshot.
    pub prev_framecount: u64,
    /// Count of completed pacing calls.
    pub framecount: u64,
    /// Periods of lag tolerated before the schedule resets to the present.
    pub max_delay_frames: u32,
    /// Whether waits use the high-precision primitive.
    pub high_precision: bool,
}

/// The state a fired log snapshot leaves behind: the window is re-anchored at
/// the timestamp of the last pacing call, drift-free.
pub open spec fn log_fire(pre: Timer) -> Timer {
    Timer {
        log_target: (pre.previous + pre.log_interval) as u64,
        previous_log: pre.previous,
        prev_framecount: pre.framecount,
        ..pre
    }
}

/// Everything one pacing call does to the timer, given the clock reading
/// `sample` it started from. The reading taken after a wait is kept
/// abstract: it is some value at or past the decided deadline.
pub open spec fn frame_post(pre: Timer, post: Timer, dt: u64, sample: u64) -> bool {
    &&& post.epoch == pre.epoch
    &&& post.delta_time == pre.delta_time
    &&& post.log_interval == pre.log_interval
    &&& post.log_target == pre.log_target
    &&& post.previous_log == pre.previous_log
    &&& post.prev_framecount == pre.prev_framecount
    &&& post.max_delay_frames == pre.max_delay_frames
    &&& post.high_precision == pre.high_precision
    &&& post.framecount == pre.framecount + 1
    &&& post.previous <= TIME_CAP
    &&& dt == time_since(post.previous, pre.previous)
    &&& (pre.delta_time == 0 ==> post.target == pre.target && post.previous == sample)
    &&& (pre.delta_time > 0 ==> {
        let decided: u64 = pre.pace_target(sample);
        &&& post.target == next_target(decided, pre.delta_time)
        &&& (sample >= decided ==> post.previous == sample)
        &&& (sample < decided ==> post.previous >= decided)
    })
}

impl Timer {
    /// Maximum lag, in nanoseconds, that the catch-up policy tolerates.
    pub open spec fn slack_spec(&self) -> int {
        self.max_delay_frames as int * self.delta_time as int
    }

    /// The deadline a pacing call that starts at `current` waits toward: the
    /// scheduled target, unless the call is already more than the slack past
    /// it, in which case the schedule resynchronizes to `current`.
    pub open spec fn pace_target(&self, current: u64) -> u64 {
        if time_since(current, self.target) as int > self.slack_spec() {
            current
        } else {
            self.target
        }
    }

    /// Whether a log snapshot is due.
    pub open spec fn log_due(&self) -> bool {
        self.previous >= self.log_target
    }

    /// Pacing calls completed since the statistics window opened.
    pub open spec fn window_frames(&self) -> int {
        self.framecount - self.prev_framecount
    }

    /// Average frame duration over the open statistics window.
    pub open spec fn window_avg(&self) -> u64 {
        (time_since(self.previous, self.previous_log) as int / self.window_frames()) as u64
    }

    /// The snapshot a fired log produces.
    pub open spec fn snapshot_spec(&self) -> Log {
        Log { delta_avg: self.window_avg() }
    }

    /// Well-formedness: configuration within its documented bounds,
    /// timestamps within the clock's range, and the statistics window never
    /// due before at least one pacing call has run inside it.
    pub open spec fn wf(&self) -> bool {
        &&& self.prev_framecount <= self.framecount
        &&& 1 <= self.log_interval <= MAX_LOG_INTERVAL_NANOS
        &&& self.delta_time <= MAX_PERIOD_NANOS
        &&& self.max_delay_frames <= MAX_DELAY_FRAMES_LIMIT
        &&& self.previous <= TIME_CAP
        &&& self.previous_log <= TIME_CAP
        &&& self.target <= TIME_CAP
        &&& (self.previous >= self.log_target ==> self.prev_framecount < self.framecount)
    }

    /// Runtime check of [`Timer::wf`], for callers outside verified code.
    pub fn well_formed(&self) -> (r: bool)
        ensures
            r == self.wf(),
    {
        self.prev_framecount <= self.framecount && 1 <= self.log_interval
            && self.log_interval <= MAX_LOG_INTERVAL_NANOS && self.delta_time <= MAX_PERIOD_NANOS
            && self.max_delay_frames <= MAX_DELAY_FRAMES_LIMIT && self.previous <= TIME_CAP
            && self.previous_log <= TIME_CAP && self.target <= TIME_CAP && (self.previous
            < self.log_target || self.prev_framecount < self.framecount)
    }

    /// The slack of the timer: the amount of time a loop is allowed to lag
    /// behind while still being let to catch up. A loop further behind than
    /// this has its schedule relaxed instead, so it does not fall behind
    /// without bound.
    pub fn slack(&self) -> (s: u64)
        requires
            self.wf(),
        ensures
            s as int == self.slack_spec(),
    {
        proof {
            assert(self.max_delay_frames as int * self.delta_time as int <= MAX_DELAY_FRAMES_LIMIT
                as int * MAX_PERIOD_NANOS as int) by (nonlinear_arith)
                requires
                    self.max_delay_frames <= MAX_DELAY_FRAMES_LIMIT,
                    self.delta_time <= MAX_PERIOD_NANOS,
            ;
        }
        (self.max_delay_frames as u64) * self.delta_time
    }

    /// Sets the logging interval of this timer to `log_interval` and re-arms
    /// the next snapshot one interval after the last pacing call.
    pub fn log_interval(self, log_interval: u64) -> (t: Timer)
        requires
            self.wf(),
            1 <= log_interval <= MAX_LOG_INTERVAL_NANOS,
        ensures
            t.wf(),
            t.log_interval == log_interval,
            t.log_target == self.previous + log_interval,
            t == (Timer { log_interval, log_target: t.log_target, ..self }),
    {
        let log_target: u64 = self.previous + log_interval;
        Timer { log_interval, log_target, ..self }
    }

    /// Sets the target frame time to `delta` nanoseconds and schedules the
    /// next deadline one period after the last pacing call. Zero disables
    /// waiting entirely.
    pub fn frame_time(self, delta: u64) -> (t: Timer)
        requires
            self.wf(),
            delta <= MAX_PERIOD_NANOS,
        ensures
            t.wf(),
            t.delta_time == delta,
            t.target == next_target(self.previous, delta),
            t == (Timer { delta_time: delta, target: t.target, ..self }),
    {
        let sum: u64 = self.previous + delta;
        let target: u64 = if sum <= TIME_CAP {
            sum
        } else {
            TIME_CAP
        };
        Timer { delta_time: delta, target, ..self }
    }

    /// Enables or disables the high-precision wait: more accurate wake-ups
    /// at the cost of more busy-spinning.
    pub fn high_precision(self, enabled: bool) -> (t: Timer)
        ensures
            t == (Timer { high_precision: enabled, ..self }),
    {
        Timer { high_precision: enabled, ..self }
    }

    /// The scheduling step of one pacing call, at clock reading `current`:
    /// applies the catch-up policy, advances the schedule by one period, and
    /// returns the deadline still to be waited for, if any.
    pub fn plan_frame(&mut self, current: u64) -> (wait: Option<u64>)
        requires
            old(self).wf(),
            current <= TIME_CAP,
        ensures
            final(self).wf(),
            final(self).previous == old(self).previous,
            final(self).previous_log == old(self).previous_log,
            final(self).log_target == old(self).log_target,
            final(self).log_interval == old(self).log_interval,
            final(self).delta_time == old(self).delta_time,
            final(self).prev_framecount == old(self).prev_framecount,
            final(self).framecount == old(self).framecount,
            final(self).max_delay_frames == old(self).max_delay_frames,
            final(self).high_precision == old(self).high_precision,
            final(self).epoch == old(self).epoch,
            old(self).delta_time == 0 ==> final(self).target == old(self).target && wait is None,
            old(self).delta_time > 0 ==> final(self).target == next_target(
                old(self).pace_target(current),
                old(self).delta_time,
            ),
            old(self).delta_time > 0 && current < old(self).pace_target(current) ==> wait == Some(
                old(self).pace_target(current),
            ),
            old(self).delta_time > 0 && current >= old(self).pace_target(current) ==> wait
                is None,
    {
        if self.delta_time == 0 {
            return None;
        }
        let slack: u64 = self.slack();
        let behind: u64 = if current > self.target {
            current - self.target
        } else {
            0
        };
        if behind > slack {
            self.target = current;
        }
        let wait: Option<u64> = if current < self.target {
            Some(self.target)
        } else {
            None
        };
        let next: u64 = self.target + self.delta_time;
        self.target = if next <= TIME_CAP {
            next
        } else {
            TIME_CAP
        };
        wait
    }

    /// The bookkeeping step of one pacing call, at the clock reading
    /// `current` the call resumed with: counts the frame, reports the time
    /// elapsed since the previous call, and remembers `current` for the next
    /// one.
    pub fn finish_frame(&mut self, current: u64) -> (dt: u64)
        requires
            old(self).wf(),
            old(self).framecount < u64::MAX,
            current <= TIME_CAP,
        ensures
            final(self).wf(),
            final(self).previous == current,
            final(self).framecount == old(self).framecount + 1,
            dt == time_since(current, old(self).previous),
            *final(self) == (Timer {
                previous: current,
                framecount: final(self).framecount,
                ..*old(self)
            }),
    {
        self.framecount = self.framecount + 1;
        let dt: u64 = if current >= self.previous {
            current - self.previous
        } else {
            0
        };
        self.previous = current;
        dt
    }

    /// One pacing call: waits until the scheduled deadline is reached (per
    /// the catch-up policy), then returns the wall-clock nanoseconds elapsed
    /// since the previous call. `suspend` is the thread-suspend primitive
    /// the waits may use for the coarse part of the gap; it is advisory
    /// only, and a closure that does nothing merely shifts the whole wait
    /// onto the spin loop.
    pub fn frame<F: Fn(u64)>(&mut self, suspend: F) -> (dt: u64)
        requires
            old(self).wf(),
            old(self).framecount < u64::MAX,
            forall|d: u64| call_requires(suspend, (d,)),
        ensures
            final(self).wf(),
            final(self).framecount == old(self).framecount + 1,
            final(self).delta_time == old(self).delta_time,
            final(self).log_interval == old(self).log_interval,
            final(self).log_target == old(self).log_target,
            final(self).previous_log == old(self).previous_log,
            final(self).prev_framecount == old(self).prev_framecount,
            final(self).max_delay_frames == old(self).max_delay_frames,
            final(self).high_precision == old(self).high_precision,
            dt == time_since(final(self).previous, old(self).previous),
            exists|sample: u64|
                sample <= TIME_CAP && #[trigger] frame_post(*old(self), *final(self), dt, sample),
    {
        let ghost pre: Timer = *self;
        let current: u64 = now_nanos(&self.epoch);
        let wait: Option<u64> = self.plan_frame(current);
        let arrived: u64 = match wait {
            Some(goal) => {
                if self.high_precision {
                    sleep_until_high_precision(&self.epoch, goal, suspend)
                } else {
                    sleep_until(&self.epoch, goal, suspend)
                }
            },
            None => current,
        };
        let dt: u64 = self.finish_frame(arrived);
        proof {
            assert(frame_post(pre, *self, dt, current));
        }
        dt
    }

    /// Returns a snapshot of the statistics window every time the configured
    /// logging interval has passed, and `None` otherwise. A produced
    /// snapshot always covers at least one pacing call, and re-arms the next
    /// one a full interval after the last pacing call.
    pub fn log(&mut self) -> (snapshot: Option<Log>)
        requires
            old(self).wf(),
        ensures
            final(self).wf(),
            !old(self).log_due() ==> snapshot is None && *final(self) == *old(self),
            old(self).log_due() ==> {
                &&& snapshot == Some(old(self).snapshot_spec())
                &&& *final(self) == log_fire(*old(self))
                &&& old(self).window_frames() >= 1
            },
    {
        let current: u64 = self.previous;
        if current < self.log_target {
            return None;
        }
        let frames: u64 = self.framecount - self.prev_framecount;
        let span: u64 = if current >= self.previous_log {
            current - self.previous_log
        } else {
            0
        };
        let delta_avg: u64 = span / frames;
        self.log_target = current + self.log_interval;
        self.previous_log = current;
        self.prev_framecount = self.framecount;
        Some(Log { delta_avg })
    }
}

impl Default for Timer {
    /// A timer aiming at sixty frames a second, logging every tenth of a
    /// second, tolerating two periods of lag, with high-precision waits on.
    fn default() -> (t: Timer)
        ensures
            t.wf(),
            t.previous == 0,
            t.previous_log == 0,
            t.target == DEFAULT_PERIOD_NANOS,
            t.log_target == DEFAULT_LOG_INTERVAL_NANOS,
            t.delta_time == DEFAULT_PERIOD_NANOS,
            t.log_interval == DEFAULT_LOG_INTERVAL_NANOS,
            t.prev_framecount == 0,
            t.framecount == 0,
            t.max_delay_frames == DEFAULT_MAX_DELAY_FRAMES,
            t.high_precision == true,
    {
        Timer {
            epoch: clock_reference(),
            previous: 0,
            previous_log: 0,
            target: DEFAULT_PERIOD_NANOS,
            log_target: DEFAULT_LOG_INTERVAL_NANOS,
            delta_time: DEFAULT_PERIOD_NANOS,
            log_interval: DEFAULT_LOG_INTERVAL_NANOS,
            prev_framecount: 0,
            framecount: 0,
            max_delay_frames: DEFAULT_MAX_DELAY_FRAMES,
            high_precision: true,
        }
    }
}

} // verus!
