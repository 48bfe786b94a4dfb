//! The fixed-step clock. Host timestamps arrive at whatever rate the display
//! refreshes; the clock banks the elapsed time and pays it out in whole
//! simulation steps of one sixtieth of a second.
//!
//! Time is counted in ticks, sixty thousand to the second, so that both a
//! millisecond and a simulation step are a whole number of ticks.

use vstd::prelude::*;

verus! {

/// Ticks in one second.
pub const TICKS_PER_SECOND: u64 = 60_000;

/// Ticks in one millisecond.
pub const TICKS_PER_MILLI: u64 = 60;

/// Ticks in one simulation step: a sixtieth of a second.
pub const STEP_TICKS: u64 = 1_000;

/// The most time one frame may bank: a quarter of a second. A longer stall is
/// cut to this, so that the simulation never races to catch up.
pub const MAX_FRAME_TICKS: u64 = 15_000;

/// The most steps one frame can run.
pub const MAX_STEPS_PER_FRAME: u64 = 15;

/// The accumulator and the last timestamp seen. Until the first timestamp
/// arrives there is no last one.
#[derive(Clone, Copy, Debug, PartialEq, Eq, Structural)]
pub struct Clock {
    pub accumulator: i64,
    pub last_time: Option<u64>,
}

/// The time a frame banks when the host reports `now`: nothing on the first
/// timestamp ever, else the time since the last one, cut at the cap. A
/// timestamp that runs backwards banks a negative amount.
pub open spec fn frame_delta(last: Option<u64>, now: u64) -> int {
    match last {
        None => 0,
        Some(t) => if now - t > MAX_FRAME_TICKS {
            MAX_FRAME_TICKS as int
        } else {
            now - t
        },
    }
}

/// The accumulator after banking `delta`, before any step is paid out. It
/// stops at the least value the accumulator can hold.
pub open spec fn banked(accumulator: int, delta: int) -> int {
    if accumulator + delta < i64::MIN {
        i64::MIN as int
    } else {
        accumulator + delta
    }
}

/// The whole steps that a banked amount pays for.
pub open spec fn steps_due(total: int) -> int {
    if total >= STEP_TICKS {
        total / (STEP_TICKS as int)
    } else {
        0
    }
}

/// What stays in the accumulator once the steps due are paid out.
pub open spec fn left_over(total: int) -> int {
    total - steps_due(total) * STEP_TICKS
}

impl Clock {
    /// The accumulator never holds a whole step between frames.
    pub open spec fn wf(self) -> bool {
        self.accumulator < STEP_TICKS
    }

    /// The clock after the frame at `now`.
    pub open spec fn after(self, now: u64) -> Clock {
        Clock {
            accumulator: left_over(banked(self.accumulator as int, frame_delta(self.last_time, now))) as i64,
            last_time: Some(now),
        }
    }

    /// The steps that the frame at `now` runs.
    pub open spec fn steps_at(self, now: u64) -> int {
        steps_due(banked(self.accumulator as int, frame_delta(self.last_time, now)))
    }

    /// A clock that has seen no timestamp and banked no time.
    pub fn new() -> (clock: Clock)
        ensures
            clock.accumulator == 0,
            clock.last_time is None,
            clock.wf(),
    {
        Clock { accumulator: 0, last_time: None }
    }

    /// Takes the host timestamp `now`, banks the time since the last one and
    /// returns how many simulation steps this frame runs. The first timestamp
    /// only seeds the clock and runs no step. Between frames the accumulator
    /// holds less than a step, and then a frame runs 15 steps at most.
    pub fn advance(&mut self, now: u64) -> (steps: u64)
        ensures
            final(self).wf(),
            *final(self) == old(self).after(now),
            steps == old(self).steps_at(now),
            old(self).wf() ==> steps <= MAX_STEPS_PER_FRAME,
            old(self).last_time is None && old(self).wf() ==> steps == 0 && final(self).accumulator
                == old(self).accumulator,
            banked(old(self).accumulator as int, frame_delta(old(self).last_time, now))
                == steps * STEP_TICKS + final(self).accumulator,
            steps > 0 ==> 0 <= final(self).accumulator,
    {
        let delta: i128 = match self.last_time {
            None => 0,
            Some(t) => {
                let elapsed: i128 = now as i128 - t as i128;
                if elapsed > MAX_FRAME_TICKS as i128 {
                    MAX_FRAME_TICKS as i128
                } else {
                    elapsed
                }
            },
        };
        let sum: i128 = self.accumulator as i128 + delta;
        let total: i128 = if sum < i64::MIN as i128 {
            i64::MIN as i128
        } else {
            sum
        };
        let step: i128 = STEP_TICKS as i128;
        let steps: u64 = if total >= step {
            (total / step) as u64
        } else {
            0
        };
        proof {
            lemma_steps_split(total as int);
        }
        self.accumulator = (total - (steps as i128) * step) as i64;
        self.last_time = Some(now);
        steps
    }
}

/// Whether `times` is a run of timestamps that a steady host could deliver
/// after `start`: none runs backwards, and none comes later than the cap
/// after the one before it.
pub open spec fn paced(start: u64, times: Seq<u64>) -> bool
    decreases times.len(),
{
    if times.len() == 0 {
        true
    } else {
        let head = times.drop_last();
        let before = if head.len() == 0 { start } else { head.last() };
        &&& paced(start, head)
        &&& before <= times.last()
        &&& times.last() - before <= MAX_FRAME_TICKS
    }
}

/// The clock after the frames at `times`, taken in order.
pub open spec fn clock_after_all(clock: Clock, times: Seq<u64>) -> Clock
    decreases times.len(),
{
    if times.len() == 0 {
        clock
    } else {
        clock_after_all(clock, times.drop_last()).after(times.last())
    }
}

/// The steps run in all the frames at `times` together.
pub open spec fn steps_in_all(clock: Clock, times: Seq<u64>) -> int
    decreases times.len(),
{
    if times.len() == 0 {
        0
    } else {
        steps_in_all(clock, times.drop_last())
            + clock_after_all(clock, times.drop_last()).steps_at(times.last())
    }
}

/// The steps due and what is left over split a banked amount: the rest is
/// less than a step, and not negative unless the amount itself was.
pub proof fn lemma_steps_split(total: int)
    ensures
        total == steps_due(total) * STEP_TICKS + left_over(total),
        left_over(total) < STEP_TICKS,
        total >= 0 ==> 0 <= left_over(total) && steps_due(total) == total / 1000 && left_over(total)
            == total % 1000,
        total < STEP_TICKS ==> steps_due(total) == 0 && left_over(total) == total,
        steps_due(total) >= 0,
        steps_due(total) * STEP_TICKS <= total || total < 0,
{
    let step = STEP_TICKS as int;
    let due = steps_due(total);
    assert(step == 1000);
    assert(due * step == due * 1000) by (nonlinear_arith)
        requires
            step == 1000,
    ;
    if total >= 1000 {
        assert(due == total / 1000);
        assert(total / 1000 * 1000 + total % 1000 == total);
        assert(0 <= total % 1000 < 1000);
    }
}

/// One frame never runs more steps than the cap pays for, however long the
/// host stalled. The very first frame runs none: it only seeds the clock with
/// its timestamp and leaves the accumulator as it was.
pub proof fn lemma_frame_steps_bounded(clock: Clock, now: u64)
    requires
        clock.wf(),
    ensures
        0 <= clock.steps_at(now) <= MAX_FRAME_TICKS / STEP_TICKS,
        clock.steps_at(now) <= MAX_STEPS_PER_FRAME,
        clock.last_time is None ==> clock.steps_at(now) == 0 && clock.after(now) == (Clock {
            accumulator: clock.accumulator,
            last_time: Some(now),
        }),
        clock.after(now).wf(),
{
    lemma_steps_split(banked(clock.accumulator as int, frame_delta(clock.last_time, now)));
}

/// Every banked tick is either paid out in a step of exactly `STEP_TICKS` or
/// still in the accumulator: a frame conserves time.
pub proof fn lemma_frame_conserves_time(clock: Clock, now: u64)
    ensures
        banked(clock.accumulator as int, frame_delta(clock.last_time, now))
            == clock.steps_at(now) * STEP_TICKS + clock.after(now).accumulator,
{
    lemma_steps_split(banked(clock.accumulator as int, frame_delta(clock.last_time, now)));
}

/// Over a paced run of frames the steps run depend only on the time that
/// passed from the first frame to the last, not on how the host cut that time
/// into frames: they are the whole steps in the time banked at the start plus
/// the time passed, and the rest stays in the accumulator.
pub proof fn lemma_paced_run_total(clock: Clock, start: u64, times: Seq<u64>)
    requires
        clock.wf(),
        clock.last_time == Some(start),
        paced(start, times),
    ensures
        ({
            let end = if times.len() == 0 { start } else { times.last() };
            let passed = clock.accumulator + (end - start);
            &&& start <= end
            &&& steps_in_all(clock, times) == steps_due(passed)
            &&& clock_after_all(clock, times).accumulator == left_over(passed)
            &&& clock_after_all(clock, times).last_time == Some(end)
            &&& clock_after_all(clock, times).wf()
            &&& passed >= 0 ==> steps_in_all(clock, times) == passed / (STEP_TICKS as int)
                && clock_after_all(clock, times).accumulator == passed % (STEP_TICKS as int)
        }),
    decreases times.len(),
{
    let end = if times.len() == 0 { start } else { times.last() };
    lemma_steps_split(clock.accumulator + (end - start));
    if times.len() > 0 {
        let head = times.drop_last();
        lemma_paced_run_total(clock, start, head);
        let mid = clock_after_all(clock, head);
        let mid_end = if head.len() == 0 { start } else { head.last() };
        lemma_steps_split(clock.accumulator + (mid_end - start));
        lemma_steps_split(banked(mid.accumulator as int, frame_delta(mid.last_time, times.last())));
    }
}

/// Two paced runs of frames that start from the same clock and end at the
/// same time run the same number of steps and leave the same clock, whatever
/// the jitter between their frames.
pub proof fn lemma_jitter_does_not_matter(clock: Clock, start: u64, a: Seq<u64>, b: Seq<u64>)
    requires
        clock.wf(),
        clock.last_time == Some(start),
        paced(start, a),
        paced(start, b),
        a.len() > 0,
        b.len() > 0,
        a.last() == b.last(),
    ensures
        steps_in_all(clock, a) == steps_in_all(clock, b),
        clock_after_all(clock, a) == clock_after_all(clock, b),
{
    lemma_paced_run_total(clock, start, a);
    lemma_paced_run_total(clock, start, b);
}

} // verus!
