//! The laws of the pacer, stated over [`frame_post`] and the log-step
//! specification, and proved once and for all.

use crate::clock::TIME_CAP;
use crate::timer::frame_post;
use crate::timer::log_fire;
use crate::timer::next_target;
use crate::timer::time_since;
use crate::timer::Timer;
use vstd::arithmetic::mul::lemma_mul_inequality;
use vstd::arithmetic::mul::lemma_mul_nonnegative;
use vstd::prelude::*;

verus! {

/// A pacing call that starts no more than the slack past its deadline keeps
/// the schedule: the next deadline is exactly one period after the old one,
/// and the schedule is never resynchronized to the present mid-catch-up.
pub proof fn lemma_within_slack_keeps_schedule(pre: Timer, post: Timer, dt: u64, sample: u64)
    requires
        frame_post(pre, post, dt, sample),
        pre.delta_time > 0,
        time_since(sample, pre.target) as int <= pre.slack_spec(),
        pre.target + pre.delta_time <= TIME_CAP,
    ensures
        post.target == pre.target + pre.delta_time,
{
}

/// A pacing call that starts at or before its deadline does not complete
/// before that deadline: on-schedule loops run at most once per period.
pub proof fn lemma_frame_blocks_until_target(pre: Timer, post: Timer, dt: u64, sample: u64)
    requires
        frame_post(pre, post, dt, sample),
        pre.delta_time > 0,
        time_since(sample, pre.target) as int <= pre.slack_spec(),
    ensures
        post.previous >= pre.target || post.previous == sample,
        sample <= pre.target ==> post.previous >= pre.target,
{
}

/// A pacing call that starts late, but within the slack, does not block at
/// all: it completes at its own starting reading, so the loop is free to run
/// extra-fast iterations that absorb the backlog.
pub proof fn lemma_catch_up_is_not_delayed(pre: Timer, post: Timer, dt: u64, sample: u64)
    requires
        frame_post(pre, post, dt, sample),
        pre.delta_time > 0,
        sample >= pre.target,
        time_since(sample, pre.target) as int <= pre.slack_spec(),
    ensures
        post.previous == sample,
        post.target == next_target(pre.target, pre.delta_time),
        dt == time_since(sample, pre.previous),
{
}

/// A pacing call that starts more than the slack past its deadline abandons
/// the backlog: it does not block, the schedule is reset to its own starting
/// reading, and normal pacing resumes from there with the next deadline one
/// period later.
pub proof fn lemma_big_delay_resets_schedule(pre: Timer, post: Timer, dt: u64, sample: u64)
    requires
        pre.wf(),
        frame_post(pre, post, dt, sample),
        pre.delta_time > 0,
        time_since(sample, pre.target) as int > pre.slack_spec(),
    ensures
        post.previous == sample,
        post.target == next_target(sample, pre.delta_time),
        sample + pre.delta_time <= TIME_CAP ==> post.target == sample + pre.delta_time,
{
}

/// With a period of zero a pacing call never waits: it passes the clock
/// reading through, leaves the schedule untouched, and reports the elapsed
/// time directly.
pub proof fn lemma_uncapped_passes_through(pre: Timer, post: Timer, dt: u64, sample: u64)
    requires
        frame_post(pre, post, dt, sample),
        pre.delta_time == 0,
    ensures
        post.previous == sample,
        post.target == pre.target,
        dt == time_since(sample, pre.previous),
{
}

/// A due log snapshot covers at least one pacing call, and firing it leaves
/// a window that is not due again before another pacing call has advanced
/// the clock a full interval: exactly one snapshot per elapsed interval
/// boundary.
pub proof fn lemma_snapshot_closes_window(t: Timer)
    requires
        t.wf(),
        t.log_due(),
    ensures
        t.window_frames() >= 1,
        log_fire(t).wf(),
        !log_fire(t).log_due(),
{
}

/// Over any run of pacing calls in which no catch-up is triggered, the
/// schedule advances by exactly one period per call: the cadence does not
/// drift, whatever the individual clock readings were.
pub proof fn lemma_cadence_has_no_drift(states: Seq<Timer>, dts: Seq<u64>, samples: Seq<u64>)
    requires
        states.len() == dts.len() + 1,
        samples.len() == dts.len(),
        forall|i: int|
            #![trigger dts[i]]
            0 <= i < dts.len() ==> frame_post(states[i], states[i + 1], dts[i], samples[i]),
        forall|i: int|
            #![trigger samples[i]]
            0 <= i < dts.len() ==> time_since(samples[i], states[i].target) as int
                <= states[i].slack_spec(),
        states[0].delta_time > 0,
        states[0].target + dts.len() * states[0].delta_time <= TIME_CAP,
    ensures
        states.last().target == states[0].target + dts.len() * states[0].delta_time,
        states.last().delta_time == states[0].delta_time,
    decreases dts.len(),
{
    let n = dts.len() as int;
    let d = states[0].delta_time as int;
    if n == 0 {
        assert(states.last() == states[0]);
    } else {
        assert(frame_post(states[0], states[1], dts[0], samples[0]));
        assert(time_since(samples[0], states[0].target) as int <= states[0].slack_spec());
        lemma_mul_inequality(1, n, d);
        assert(states[1].target == states[0].target + d);
        let states2 = states.subrange(1, states.len() as int);
        let dts2 = dts.subrange(1, dts.len() as int);
        let samples2 = samples.subrange(1, samples.len() as int);
        assert forall|i: int|
            #![trigger dts2[i]]
            0 <= i < dts2.len() implies frame_post(
            states2[i],
            states2[i + 1],
            dts2[i],
            samples2[i],
        ) by {
            assert(frame_post(states[i + 1], states[i + 2], dts[i + 1], samples[i + 1]));
            assert(states2[i] == states[i + 1]);
            assert(states2[i + 1] == states[i + 2]);
        }
        assert forall|i: int|
            #![trigger samples2[i]]
            0 <= i < dts2.len() implies time_since(samples2[i], states2[i].target) as int
            <= states2[i].slack_spec() by {
            assert(time_since(samples[i + 1], states[i + 1].target) as int <= states[i
                + 1].slack_spec());
            assert(states2[i] == states[i + 1]);
        }
        assert((n - 1) * d == n * d - d) by (nonlinear_arith);
        lemma_cadence_has_no_drift(states2, dts2, samples2);
        assert(states2.last() == states.last());
        assert(states.last().target == states[0].target + n * d);
    }
}

/// A run of pacing calls that each arrive at or before their deadline is
/// held to its schedule: the run cannot complete before the last of its
/// deadlines, which stands exactly one period per call after the first.
/// Together with the drift-free cadence this bounds the pace of any
/// on-schedule run from below by one period per call.
pub proof fn lemma_paced_run_is_no_faster(states: Seq<Timer>, dts: Seq<u64>, samples: Seq<u64>)
    requires
        states.len() == dts.len() + 1,
        samples.len() == dts.len(),
        dts.len() >= 1,
        forall|i: int|
            #![trigger dts[i]]
            0 <= i < dts.len() ==> frame_post(states[i], states[i + 1], dts[i], samples[i]),
        forall|i: int| #![trigger samples[i]] 0 <= i < dts.len() ==> samples[i] <= states[i].target,
        states[0].delta_time > 0,
        states[0].target + dts.len() * states[0].delta_time <= TIME_CAP,
    ensures
        states.last().previous >= states[0].target + (dts.len() - 1) * states[0].delta_time,
{
    let n = dts.len() as int;
    let d = states[0].delta_time as int;
    let head = states.subrange(0, n);
    let dts1 = dts.subrange(0, n - 1);
    let samples1 = samples.subrange(0, n - 1);
    assert forall|i: int|
        #![trigger dts1[i]]
        0 <= i < dts1.len() implies frame_post(head[i], head[i + 1], dts1[i], samples1[i]) by {
        assert(frame_post(states[i], states[i + 1], dts[i], samples[i]));
        assert(head[i] == states[i]);
        assert(head[i + 1] == states[i + 1]);
    }
    assert forall|i: int|
        #![trigger samples1[i]]
        0 <= i < dts1.len() implies time_since(samples1[i], head[i].target) as int
        <= head[i].slack_spec() by {
        assert(samples[i] <= states[i].target);
        lemma_mul_nonnegative(states[i].max_delay_frames as int, states[i].delta_time as int);
        assert(head[i] == states[i]);
    }
    lemma_mul_inequality(n - 1, n, d);
    assert((n - 1) * d <= n * d);
    lemma_cadence_has_no_drift(head, dts1, samples1);
    assert(head.last() == states[n - 1]);
    assert(states[n - 1].target == states[0].target + (n - 1) * d);
    assert(frame_post(states[n - 1], states[n], dts[n - 1], samples[n - 1]));
    assert(states[n - 1].delta_time == states[0].delta_time);
    assert(samples[n - 1] <= states[n - 1].target);
    lemma_mul_nonnegative(states[n - 1].max_delay_frames as int, states[n - 1].delta_time as int);
    assert(time_since(samples[n - 1], states[n - 1].target) == 0);
    assert(states[n - 1].pace_target(samples[n - 1]) == states[n - 1].target);
    assert(states[n].previous >= states[n - 1].target);
    assert(states.last() == states[n]);
}

/// The sum of a run's frame times.
pub open spec fn total_time(dts: Seq<u64>) -> int
    decreases dts.len(),
{
    if dts.len() == 0 {
        0
    } else {
        dts[0] + total_time(dts.subrange(1, dts.len() as int))
    }
}

/// Over a run in which the clock never steps backwards from one completed
/// call to the next, the returned frame times account for the whole span and
/// nothing else: they sum to the time from the completion the run started
/// after to its last one.
pub proof fn lemma_frame_times_cover_the_run(states: Seq<Timer>, dts: Seq<u64>, samples: Seq<u64>)
    requires
        states.len() == dts.len() + 1,
        samples.len() == dts.len(),
        forall|i: int|
            #![trigger dts[i]]
            0 <= i < dts.len() ==> frame_post(states[i], states[i + 1], dts[i], samples[i]),
        forall|i: int|
            #![trigger states[i].previous]
            0 <= i < dts.len() ==> states[i].previous <= states[i + 1].previous,
    ensures
        total_time(dts) == states.last().previous - states[0].previous,
    decreases dts.len(),
{
    if dts.len() == 0 {
        assert(states.last() == states[0]);
    } else {
        assert(frame_post(states[0], states[1], dts[0], samples[0]));
        assert(states[0].previous <= states[1].previous);
        assert(dts[0] == time_since(states[1].previous, states[0].previous));
        let states2 = states.subrange(1, states.len() as int);
        let dts2 = dts.subrange(1, dts.len() as int);
        let samples2 = samples.subrange(1, samples.len() as int);
        assert forall|i: int|
            #![trigger dts2[i]]
            0 <= i < dts2.len() implies frame_post(
            states2[i],
            states2[i + 1],
            dts2[i],
            samples2[i],
        ) by {
            assert(frame_post(states[i + 1], states[i + 2], dts[i + 1], samples[i + 1]));
            assert(states2[i] == states[i + 1]);
            assert(states2[i + 1] == states[i + 2]);
        }
        assert forall|i: int|
            #![trigger states2[i].previous]
            0 <= i < dts2.len() implies states2[i].previous <= states2[i + 1].previous by {
            assert(states[i + 1].previous <= states[i + 2].previous);
            assert(states2[i] == states[i + 1]);
            assert(states2[i + 1] == states[i + 2]);
        }
        lemma_frame_times_cover_the_run(states2, dts2, samples2);
        assert(total_time(dts) == dts[0] + total_time(dts2));
        assert(states2.last() == states.last());
        assert(states2[0] == states[1]);
    }
}

} // verus!
