//! Fixed and semi-fixed stepping.
//!
//! The stepper decouples simulated time from wall-clock time: each frame
//! it credits the accumulator with the wall time the frame took, then
//! pays one timestep out of the accumulator per simulation step until the
//! accumulator runs dry or a per-frame limit is hit. Well-formedness
//! carries the conservation law: the time credited equals the time
//! consumed by steps plus what remains in the accumulator — no simulated
//! time is created or lost.
//!
//! The semi-fixed mode holds a ladder of candidate timesteps with
//! hysteresis: sustained slowness moves to a coarser step, and only after
//! a sustained fast period does it move back, so the rate cannot
//! oscillate faster than the hysteresis window.
//!
//! All times are nanosecond counts; the caller supplies the current
//! monotonic time, which must never decrease between calls.

use vstd::prelude::*;

verus! {

/// The largest time value the stepper accepts, both for timestamps and
/// for timestep deltas: about a century and a half of nanoseconds, which
/// keeps every internal sum inside the machine range.
pub const MAX_TIME: u64 = 0x4000_0000_0000_0000;

/// Errors from stepper operations performed on the wrong configuration.
#[derive(Clone, Copy, Debug, PartialEq, Eq, Structural)]
pub enum TimeError {
    /// The operation needs the other stepping mode — a semi-fixed
    /// operation was attempted on a fixed stepper, or the reverse.
    WrongStepType,
    /// The requested step index is not in bounds of the step list.
    OutOfSemiStepBounds,
}

/// Error when switching a semi-fixed ladder to a step that does not exist.
#[derive(Clone, Copy, Debug, PartialEq, Eq, Structural)]
pub struct OutOfBoundsError;

/// Effect applied to the rate-change qualifier when switching steps by
/// hand.
#[derive(Clone, Copy, Debug, PartialEq, Eq, Structural)]
pub enum SemiFixedQualifierState {
    /// Remove the slow-frame timestamps, as though no frames had recently
    /// been postponed. This is what happens internally when the
    /// fast-running threshold is hit and the ladder returns to its base
    /// step.
    NoPostponement,
    /// Restamp the slow-frame timestamps to begin a new slow period now,
    /// recorded under the given step number. This is what happens
    /// internally when the slow-running threshold is hit.
    StartPostponementNow(u64),
}

/// A constant timestep.
#[derive(Clone, Copy, Debug, PartialEq, Eq, Structural)]
pub struct FixedTimeStep(pub u64);

impl Default for FixedTimeStep {
    /// A sixtieth of a second.
    fn default() -> (r: FixedTimeStep)
        ensures
            r.0 == 16_666_666u64,
    {
        FixedTimeStep(16_666_666)
    }
}

/// A slow-frame report: whether the frame step limit was hit, and by how
/// much the frame time limit was exceeded, if it was.
#[derive(Clone, Copy, Debug, PartialEq, Eq, Structural)]
pub struct SlowFrameError(pub bool, pub Option<u64>);

impl SlowFrameError {
    /// What [`SlowFrameError::check_for`] reports for these inputs.
    pub open spec fn spec_check_for(
        frame_steps: u32,
        frame_duration: u64,
        max_steps_per_frame: Option<u32>,
        frame_time_limit: Option<u64>,
    ) -> Option<SlowFrameError> {
        let max_steps_failure = max_steps_per_frame is Some && frame_steps
            >= max_steps_per_frame->0;
        let frame_time_failure: Option<u64> = if frame_time_limit is Some && frame_duration
            > frame_time_limit->0 {
            Some((frame_duration - frame_time_limit->0) as u64)
        } else {
            None
        };
        if max_steps_failure || frame_time_failure is Some {
            Some(SlowFrameError(max_steps_failure, frame_time_failure))
        } else {
            None
        }
    }

    /// Checks a frame against the configured limits: reports whether the
    /// step-count limit was reached and by how much the frame time limit
    /// was exceeded, or nothing when the frame is within both limits.
    pub fn check_for(
        frame_steps: u32,
        frame_duration: u64,
        max_steps_per_frame: Option<u32>,
        frame_time_limit: Option<u64>,
    ) -> (r: Option<SlowFrameError>)
        ensures
            r == SlowFrameError::spec_check_for(
                frame_steps,
                frame_duration,
                max_steps_per_frame,
                frame_time_limit,
            ),
    {
        let max_steps_failure = match max_steps_per_frame {
            Some(max) => frame_steps >= max,
            None => false,
        };
        let frame_time_limit_failure = match frame_time_limit {
            Some(limit) => if frame_duration > limit {
                Some(frame_duration - limit)
            } else {
                None
            },
            None => None,
        };
        if max_steps_failure || frame_time_limit_failure.is_some() {
            Some(SlowFrameError(max_steps_failure, frame_time_limit_failure))
        } else {
            None
        }
    }
}

/// The semi-fixed ladder: candidate timesteps ordered from finest to
/// coarsest, the active index, and the hysteresis timers.
pub struct SemiFixedStep {
    /// Slowness must persist this long before the ladder degrades.
    pub minimum_time_running_slow: Option<u64>,
    /// Fast running must persist this long before the ladder upgrades.
    pub minimum_time_running_fast: Option<u64>,
    /// The candidate timesteps; index zero is the preferred, finest step.
    pub steps: Vec<u64>,
    /// The index of the timestep currently in use.
    pub active_step: usize,
    /// The step number and timestamp of the most recent slow frame.
    pub last_slow_step: Option<(u64, u64)>,
    /// The step number and timestamp at which the current slow series
    /// began.
    pub first_slow_step_in_last_series: Option<(u64, u64)>,
}

impl SemiFixedStep {
    /// The ladder is non-empty, the active index in bounds, and every
    /// step positive and within the supported range.
    pub open spec fn wf(self) -> bool {
        &&& self.steps@.len() > 0
        &&& self.active_step < self.steps@.len()
        &&& forall|i: int| 0 <= i < self.steps@.len() ==> 0 < #[trigger] self.steps@[i] <= MAX_TIME
    }

    /// Every recorded timestamp is at or before `now`.
    pub open spec fn stamps_le(self, now: u64) -> bool {
        &&& (self.last_slow_step is Some ==> (self.last_slow_step->0).1 <= now)
        &&& (self.first_slow_step_in_last_series is Some
            ==> (self.first_slow_step_in_last_series->0).1 <= now)
    }

    /// The timestep currently in use.
    pub open spec fn spec_current_time_step(self) -> u64 {
        self.steps@[self.active_step as int]
    }

    /// The timestep currently in use.
    pub fn current_time_step(&self) -> (r: u64)
        requires
            self.wf(),
        ensures
            r == self.spec_current_time_step(),
    {
        self.steps[self.active_step]
    }

    /// The state and outcome of a slow-frame report at `now`: begin a
    /// slow series if none is running; once slowness has persisted past
    /// the threshold, degrade to the next coarser step — or merely
    /// restamp when already at the coarsest; otherwise just restamp. The
    /// flag is whether the active step changed.
    pub open spec fn spec_degrade(self, step_number: u64, now: u64) -> (SemiFixedStep, bool) {
        let stamp = Some((step_number, now));
        if self.first_slow_step_in_last_series is None {
            (
                SemiFixedStep {
                    first_slow_step_in_last_series: stamp,
                    last_slow_step: stamp,
                    ..self
                },
                false,
            )
        } else {
            if self.last_slow_step is Some && self.minimum_time_running_slow is Some && now
                - (self.last_slow_step->0).1 > self.minimum_time_running_slow->0 {
                if self.active_step >= self.steps@.len() - 1 {
                    (SemiFixedStep { last_slow_step: stamp, ..self }, false)
                } else {
                    (
                        SemiFixedStep {
                            first_slow_step_in_last_series: stamp,
                            last_slow_step: stamp,
                            active_step: (self.active_step + 1) as usize,
                            ..self
                        },
                        true,
                    )
                }
            } else {
                (SemiFixedStep { last_slow_step: stamp, ..self }, false)
            }
        }
    }

    /// Records a slow frame at `now` and degrades the ladder when the
    /// slow period has lasted at least the configured minimum; returns
    /// whether the active step changed.
    pub fn degrade_from_being_slow(&mut self, step_number: u64, now: u64) -> (r: bool)
        requires
            old(self).wf(),
            old(self).stamps_le(now),
        ensures
            (*final(self), r) == old(self).spec_degrade(step_number, now),
            final(self).wf(),
            final(self).stamps_le(now),
            final(self).steps == old(self).steps,
            r ==> final(self).active_step == old(self).active_step + 1,
            !r ==> final(self).active_step == old(self).active_step,
    {
        let stamp = Some((step_number, now));
        if self.first_slow_step_in_last_series.is_none() {
            self.first_slow_step_in_last_series = stamp;
            self.last_slow_step = stamp;
            false
        } else {
            let threshold_hit = match (self.last_slow_step, self.minimum_time_running_slow) {
                (Some(last), Some(minimum)) => now - last.1 > minimum,
                _ => false,
            };
            if threshold_hit {
                if self.active_step >= self.steps.len() - 1 {
                    // The simulation is the bottleneck and no coarser
                    // step remains to fall back to.
                    self.last_slow_step = stamp;
                    false
                } else {
                    self.first_slow_step_in_last_series = stamp;
                    self.last_slow_step = stamp;
                    self.active_step = self.active_step + 1;
                    true
                }
            } else {
                self.last_slow_step = stamp;
                false
            }
        }
    }

    /// The state and outcome of a fast-frame report at `now`: if a finer
    /// step exists and no slow frame fell inside the hysteresis window,
    /// upgrade one rung — clearing the slow series when the base step is
    /// reached, restamping otherwise. The flag is whether the active step
    /// changed.
    pub open spec fn spec_upgrade(self, step_number: u64, now: u64) -> (SemiFixedStep, bool) {
        if self.minimum_time_running_fast is Some && self.active_step > 0 && (
        self.last_slow_step is None || now - (self.last_slow_step->0).1
            > self.minimum_time_running_fast->0) {
            if self.active_step == 1 {
                (
                    SemiFixedStep {
                        active_step: 0,
                        last_slow_step: None,
                        first_slow_step_in_last_series: None,
                        ..self
                    },
                    true,
                )
            } else {
                (
                    SemiFixedStep {
                        active_step: (self.active_step - 1) as usize,
                        last_slow_step: Some((step_number, now)),
                        first_slow_step_in_last_series: Some((step_number, now)),
                        ..self
                    },
                    true,
                )
            }
        } else {
            (self, false)
        }
    }

    /// Upgrades the ladder one rung after a sustained fast period;
    /// returns whether the active step changed. The upgrade is refused
    /// while the last slow frame is still inside the hysteresis window,
    /// so the rate cannot oscillate faster than that window.
    pub fn upgrade_from_being_fast(&mut self, step_number: u64, now: u64) -> (r: bool)
        requires
            old(self).wf(),
            old(self).stamps_le(now),
        ensures
            (*final(self), r) == old(self).spec_upgrade(step_number, now),
            final(self).wf(),
            final(self).stamps_le(now),
            final(self).steps == old(self).steps,
            r ==> old(self).active_step > 0 && final(self).active_step == old(self).active_step
                - 1,
            !r ==> final(self).active_step == old(self).active_step,
            r ==> (old(self).last_slow_step is None || now - (old(self).last_slow_step->0).1 > old(self).minimum_time_running_fast->0),
    {
        let eligible = self.minimum_time_running_fast.is_some() && self.active_step > 0 && (match (
            self.last_slow_step,
            self.minimum_time_running_fast,
        ) {
            (None, _) => true,
            (Some(last), Some(minimum)) => now - last.1 > minimum,
            (Some(_), None) => false,
        });
        if eligible {
            self.active_step = self.active_step - 1;
            if self.active_step == 0 {
                self.last_slow_step = None;
                self.first_slow_step_in_last_series = None;
            } else {
                let stamp = Some((step_number, now));
                self.first_slow_step_in_last_series = stamp;
                self.last_slow_step = stamp;
            }
            true
        } else {
            false
        }
    }

    /// Switches to the step at `index`, optionally rewriting the
    /// rate-change qualifier state; fails — changing nothing — when the
    /// index is out of bounds. Returns the new timestep.
    pub fn switch_to_step(
        &mut self,
        index: usize,
        qualifier_mod: Option<SemiFixedQualifierState>,
        now: u64,
    ) -> (r: Result<u64, OutOfBoundsError>)
        requires
            old(self).wf(),
            old(self).stamps_le(now),
        ensures
            final(self).wf(),
            final(self).stamps_le(now),
            final(self).steps == old(self).steps,
            final(self).minimum_time_running_slow == old(self).minimum_time_running_slow,
            final(self).minimum_time_running_fast == old(self).minimum_time_running_fast,
            r is Ok <==> index < old(self).steps@.len(),
            r is Err ==> *final(self) == *old(self),
            r matches Ok(delta) ==> {
                &&& final(self).active_step == index
                &&& delta == old(self).steps@[index as int]
                &&& (match qualifier_mod {
                    Some(SemiFixedQualifierState::NoPostponement) => final(self).last_slow_step
                        is None && final(self).first_slow_step_in_last_series is None,
                    Some(SemiFixedQualifierState::StartPostponementNow(frame)) => final(self).last_slow_step == Some((frame, now)) && final(self).first_slow_step_in_last_series == Some((frame, now)),
                    None => final(self).last_slow_step == old(self).last_slow_step && final(self).first_slow_step_in_last_series == old(self).first_slow_step_in_last_series,
                })
            },
    {
        if index < self.steps.len() {
            self.active_step = index;
            match qualifier_mod {
                Some(SemiFixedQualifierState::NoPostponement) => {
                    self.last_slow_step = None;
                    self.first_slow_step_in_last_series = None;
                },
                Some(SemiFixedQualifierState::StartPostponementNow(frame)) => {
                    let stamp = Some((frame, now));
                    self.last_slow_step = stamp;
                    self.first_slow_step_in_last_series = stamp;
                },
                None => {},
            }
            Ok(self.steps[index])
        } else {
            Err(OutOfBoundsError)
        }
    }
}

/// A stepping mode: a constant timestep, or a semi-fixed ladder.
pub enum TimeStep {
    Fixed(u64),
    SemiFixed(SemiFixedStep),
}

impl TimeStep {
    /// The mode's configuration is well formed.
    pub open spec fn wf(self) -> bool {
        match self {
            TimeStep::Fixed(delta) => 0 < delta <= MAX_TIME,
            TimeStep::SemiFixed(data) => data.wf(),
        }
    }

    /// Every recorded timestamp is at or before `now`.
    pub open spec fn stamps_le(self, now: u64) -> bool {
        match self {
            TimeStep::Fixed(_) => true,
            TimeStep::SemiFixed(data) => data.stamps_le(now),
        }
    }

    /// The timestep currently in effect.
    pub open spec fn spec_current(self) -> u64 {
        match self {
            TimeStep::Fixed(delta) => delta,
            TimeStep::SemiFixed(data) => data.spec_current_time_step(),
        }
    }
}

/// Converting a positive rate of at most a billion steps per second to a
/// nanosecond delta lands strictly between zero and the supported
/// maximum.
proof fn lemma_rate_to_delta_in_range(rate: u64)
    requires
        0 < rate <= 1_000_000_000,
    ensures
        0 < 1_000_000_000u64 / rate <= MAX_TIME,
{
    assert(1_000_000_000u64 / rate >= 1) by (nonlinear_arith)
        requires
            0 < rate <= 1_000_000_000u64,
    ;
    assert(1_000_000_000u64 / rate <= 1_000_000_000u64) by (nonlinear_arith)
        requires
            0 < rate,
    ;
}

/// Data describing one performed step.
#[derive(Clone, Copy, Debug, PartialEq, Eq, Structural)]
pub struct Step {
    pub delta: u64,
    pub step_dirty: bool,
    pub accumulator_remaining: u64,
    pub global_step_number: u64,
    pub frame_step_number: u32,
}

impl Step {
    /// Delta time of this step. With a fixed step this never changes.
    pub fn delta(&self) -> (r: u64)
        ensures
            r == self.delta,
    {
        self.delta
    }

    /// Time left in the stepper's accumulator after this step.
    pub fn accumulator_remaining(&self) -> (r: u64)
        ensures
            r == self.accumulator_remaining,
    {
        self.accumulator_remaining
    }

    /// Whether the delta changed since the previous step: the consumer
    /// should push the new timestep into the engine before stepping.
    pub fn step_dirty(&self) -> (r: bool)
        ensures
            r == self.step_dirty,
    {
        self.step_dirty
    }

    /// How many steps have been performed since the stepper was made.
    pub fn global_step_number(&self) -> (r: u64)
        ensures
            r == self.global_step_number,
    {
        self.global_step_number
    }

    /// How many steps have been performed in the current frame.
    pub fn frame_step_number(&self) -> (r: u32)
        ensures
            r == self.frame_step_number,
    {
        self.frame_step_number
    }

    /// Overwrites this step's data with `other`'s.
    pub fn update(&mut self, other: Step)
        ensures
            *final(self) == other,
    {
        self.delta = other.delta;
        self.step_dirty = other.step_dirty;
        self.accumulator_remaining = other.accumulator_remaining;
        self.global_step_number = other.global_step_number;
        self.frame_step_number = other.frame_step_number;
    }
}

/// The stepping resource: per-frame limits, the stepping mode, the time
/// accumulator and the step counters.
pub struct StepperRes {
    /// When set, at most this many steps are performed per frame; the
    /// rest are postponed to the next frame.
    pub max_steps_per_frame: Option<u32>,
    /// When set, remaining steps are postponed once a frame has been
    /// stepping for this long.
    pub frame_time_limit: Option<u64>,
    /// How far behind simulated time is on wall time.
    pub accumulator: u64,
    /// The stepping mode.
    pub time_step: TimeStep,
    /// Whether the timestep changed through an explicit switch since the
    /// last performed step.
    pub time_step_dirty: bool,
    /// The delta of the most recently performed step.
    pub last_delta: u64,
    /// Steps performed since construction.
    pub global_steps: u64,
    /// Steps performed in the current frame.
    pub frame_steps: u32,
    /// When the current frame began, if a frame has begun.
    pub frame_start: Option<u64>,
    /// Total wall-time credit received by the accumulator, including the
    /// initial seed.
    pub input_time: u64,
    /// Total simulated time consumed by performed steps.
    pub simulated_time: u64,
}

impl StepperRes {
    /// The configuration is well formed and the books balance: every
    /// nanosecond credited was either consumed by a step or still sits in
    /// the accumulator, and counters stay within range.
    pub open spec fn wf(self) -> bool {
        &&& self.time_step.wf()
        &&& self.input_time == self.simulated_time + self.accumulator
        &&& self.global_steps <= self.simulated_time
        &&& (match self.frame_start {
            Some(t) => t <= MAX_TIME && self.input_time as int <= MAX_TIME as int + t as int,
            None => self.input_time == 0 && self.accumulator == 0 && self.simulated_time == 0
                && self.global_steps == 0 && self.frame_steps == 0,
        })
    }

    /// Every recorded timestamp is at or before `now`.
    pub open spec fn stamps_le(self, now: u64) -> bool {
        &&& (self.frame_start is Some ==> self.frame_start->0 <= now)
        &&& self.time_step.stamps_le(now)
    }

    /// The timestep currently in effect.
    pub open spec fn spec_time_step(self) -> u64 {
        self.time_step.spec_current()
    }

    /// A stepper in the given mode with the given per-frame limits, with
    /// an empty accumulator and no frame begun.
    pub fn new_with_limits(
        time_step: TimeStep,
        max_steps_per_frame: Option<u32>,
        frame_time_limit: Option<u64>,
    ) -> (r: StepperRes)
        requires
            time_step.wf(),
            time_step.stamps_le(0),
        ensures
            r.wf(),
            r.stamps_le(0),
            r.time_step == time_step,
            r.max_steps_per_frame == max_steps_per_frame,
            r.frame_time_limit == frame_time_limit,
            r.accumulator == 0,
            r.global_steps == 0,
            r.frame_steps == 0,
            r.frame_start is None,
            r.time_step_dirty,
            r.input_time == 0,
            r.simulated_time == 0,
    {
        StepperRes {
            max_steps_per_frame,
            frame_time_limit,
            accumulator: 0,
            time_step,
            time_step_dirty: true,
            last_delta: 0,
            global_steps: 0,
            frame_steps: 0,
            frame_start: None,
            input_time: 0,
            simulated_time: 0,
        }
    }

    /// A stepper in the given mode without per-frame limits.
    pub fn new(time_step: TimeStep) -> (r: StepperRes)
        requires
            time_step.wf(),
            time_step.stamps_le(0),
        ensures
            r.wf(),
            r.stamps_le(0),
            r.time_step == time_step,
            r.accumulator == 0,
            r.global_steps == 0,
            r.frame_start is None,
    {
        StepperRes::new_with_limits(time_step, None, None)
    }

    /// A fixed stepper at `interval` steps per second.
    pub fn new_fixed(interval: u32) -> (r: StepperRes)
        requires
            0 < interval <= 1_000_000_000,
        ensures
            r.wf(),
            r.stamps_le(0),
            r.time_step == TimeStep::Fixed((1_000_000_000u64 / interval as u64) as u64),
            r.max_steps_per_frame is None,
            r.frame_time_limit is None,
            r.accumulator == 0,
            r.global_steps == 0,
            r.frame_steps == 0,
            r.frame_start is None,
            r.time_step_dirty,
            r.input_time == 0,
            r.simulated_time == 0,
    {
        proof {
            lemma_rate_to_delta_in_range(interval as u64);
        }
        StepperRes::new_fixed_exact(1_000_000_000u64 / (interval as u64), None, None)
    }

    /// A fixed stepper with an exact timestep and optional per-frame
    /// limits.
    pub fn new_fixed_exact(
        step_delta: u64,
        max_steps_per_frame: Option<u32>,
        frame_time_limit: Option<u64>,
    ) -> (r: StepperRes)
        requires
            0 < step_delta <= MAX_TIME,
        ensures
            r.wf(),
            r.stamps_le(0),
            r.time_step == TimeStep::Fixed(step_delta),
            r.max_steps_per_frame == max_steps_per_frame,
            r.frame_time_limit == frame_time_limit,
            r.accumulator == 0,
            r.global_steps == 0,
            r.frame_steps == 0,
            r.frame_start is None,
            r.time_step_dirty,
            r.input_time == 0,
            r.simulated_time == 0,
    {
        StepperRes::new_with_limits(
            TimeStep::Fixed(step_delta),
            max_steps_per_frame,
            frame_time_limit,
        )
    }

    /// Replaces the mode with a fixed timestep at `interval` steps per
    /// second and marks the timestep dirty.
    pub fn set_fixed_time_step(&mut self, interval: u32)
        requires
            old(self).wf(),
            0 < interval <= 1_000_000_000,
        ensures
            final(self).wf(),
            final(self).time_step == TimeStep::Fixed((1_000_000_000u64 / interval as u64) as u64),
            final(self).time_step_dirty,
            *final(self) == (StepperRes {
                time_step: final(self).time_step,
                time_step_dirty: true,
                ..*old(self)
            }),
    {
        proof {
            lemma_rate_to_delta_in_range(interval as u64);
        }
        self.time_step = TimeStep::Fixed(1_000_000_000u64 / (interval as u64));
        self.time_step_dirty = true;
    }

    /// A semi-fixed stepper over the given step intervals, each in steps
    /// per second, finest first.
    pub fn new_semi_fixed(
        steps: &Vec<u32>,
        minimum_time_running_slow: Option<u64>,
        minimum_time_running_fast: Option<u64>,
        max_steps_per_frame: Option<u32>,
        frame_time_limit: Option<u64>,
    ) -> (r: StepperRes)
        requires
            steps@.len() > 0,
            forall|i: int| 0 <= i < steps@.len() ==> 0 < #[trigger] steps@[i] <= 1_000_000_000,
        ensures
            r.wf(),
            r.stamps_le(0),
            r.time_step matches TimeStep::SemiFixed(data) && {
                &&& data.steps@.len() == steps@.len()
                &&& forall|i: int|
                    0 <= i < steps@.len() ==> #[trigger] data.steps@[i] == 1_000_000_000u64 / (
                    steps@[i] as u64)
                &&& data.active_step == 0
                &&& data.minimum_time_running_slow == minimum_time_running_slow
                &&& data.minimum_time_running_fast == minimum_time_running_fast
                &&& data.last_slow_step is None
                &&& data.first_slow_step_in_last_series is None
            },
            r.max_steps_per_frame == max_steps_per_frame,
            r.frame_time_limit == frame_time_limit,
            r.accumulator == 0,
            r.global_steps == 0,
            r.frame_steps == 0,
            r.frame_start is None,
            r.time_step_dirty,
    {
        let mut deltas: Vec<u64> = Vec::new();
        let mut i: usize = 0;
        while i < steps.len()
            invariant
                i <= steps@.len(),
                deltas@.len() == i,
                forall|j: int| 0 <= j < steps@.len() ==> 0 < #[trigger] steps@[j] <= 1_000_000_000,
                forall|j: int|
                    0 <= j < i ==> #[trigger] deltas@[j] == 1_000_000_000u64 / (steps@[j] as u64),
                forall|j: int| 0 <= j < i ==> 0 < #[trigger] deltas@[j] <= MAX_TIME,
            decreases steps@.len() - i,
        {
            let hz = steps[i];
            proof {
                lemma_rate_to_delta_in_range(hz as u64);
            }
            deltas.push(1_000_000_000u64 / (hz as u64));
            i = i + 1;
        }
        StepperRes::new_semi_fixed_exact(
            deltas,
            minimum_time_running_slow,
            minimum_time_running_fast,
            max_steps_per_frame,
            frame_time_limit,
        )
    }

    /// A semi-fixed stepper over the given exact timesteps, finest first.
    pub fn new_semi_fixed_exact(
        steps: Vec<u64>,
        minimum_time_running_slow: Option<u64>,
        minimum_time_running_fast: Option<u64>,
        max_steps_per_frame: Option<u32>,
        frame_time_limit: Option<u64>,
    ) -> (r: StepperRes)
        requires
            steps@.len() > 0,
            forall|i: int| 0 <= i < steps@.len() ==> 0 < #[trigger] steps@[i] <= MAX_TIME,
        ensures
            r.wf(),
            r.stamps_le(0),
            r.time_step matches TimeStep::SemiFixed(data) && {
                &&& data.steps@ == steps@
                &&& data.active_step == 0
                &&& data.minimum_time_running_slow == minimum_time_running_slow
                &&& data.minimum_time_running_fast == minimum_time_running_fast
                &&& data.last_slow_step is None
                &&& data.first_slow_step_in_last_series is None
            },
            r.max_steps_per_frame == max_steps_per_frame,
            r.frame_time_limit == frame_time_limit,
            r.accumulator == 0,
            r.global_steps == 0,
            r.frame_steps == 0,
            r.frame_start is None,
            r.time_step_dirty,
            r.input_time == 0,
            r.simulated_time == 0,
    {
        StepperRes::new_with_limits(
            TimeStep::SemiFixed(
                SemiFixedStep {
                    minimum_time_running_slow,
                    minimum_time_running_fast,
                    steps,
                    active_step: 0,
                    last_slow_step: None,
                    first_slow_step_in_last_series: None,
                },
            ),
            max_steps_per_frame,
            frame_time_limit,
        )
    }

    /// On a semi-fixed stepper, switches to the step at `index`,
    /// optionally rewriting the qualifier state, and marks the timestep
    /// dirty; on a fixed stepper fails with [`TimeError::WrongStepType`].
    pub fn semi_fixed_switch_to_step(
        &mut self,
        index: usize,
        qualifier_mod: Option<SemiFixedQualifierState>,
        now: u64,
    ) -> (r: Result<u64, TimeError>)
        requires
            old(self).wf(),
            old(self).stamps_le(now),
        ensures
            final(self).wf(),
            final(self).stamps_le(now),
            old(self).time_step is Fixed ==> r == Result::<u64, TimeError>::Err(
                TimeError::WrongStepType,
            ) && *final(self) == *old(self),
            old(self).time_step matches TimeStep::SemiFixed(data) ==> (index >= data.steps@.len()
                ==> r == Result::<u64, TimeError>::Err(TimeError::OutOfSemiStepBounds) && *final(self) == *old(self)),
            old(self).time_step matches TimeStep::SemiFixed(data) ==> (index < data.steps@.len()
                ==> {
                    &&& r == Result::<u64, TimeError>::Ok(data.steps@[index as int])
                    &&& final(self).time_step matches TimeStep::SemiFixed(d2) && {
                        &&& d2.active_step == index
                        &&& d2.steps == data.steps
                        &&& d2.minimum_time_running_slow == data.minimum_time_running_slow
                        &&& d2.minimum_time_running_fast == data.minimum_time_running_fast
                        &&& (match qualifier_mod {
                            Some(SemiFixedQualifierState::NoPostponement) => d2.last_slow_step
                                is None && d2.first_slow_step_in_last_series is None,
                            Some(SemiFixedQualifierState::StartPostponementNow(frame)) => d2.last_slow_step == Some((frame, now)) && d2.first_slow_step_in_last_series == Some((frame, now)),
                            None => d2.last_slow_step == data.last_slow_step && d2.first_slow_step_in_last_series == data.first_slow_step_in_last_series,
                        })
                    }
                    &&& final(self).time_step_dirty
                    &&& *final(self) == (StepperRes {
                        time_step: final(self).time_step,
                        time_step_dirty: true,
                        ..*old(self)
                    })
                }),
    {
        match &mut self.time_step {
            TimeStep::Fixed(_) => Err(TimeError::WrongStepType),
            TimeStep::SemiFixed(step_data) => {
                let result = step_data.switch_to_step(index, qualifier_mod, now);
                match result {
                    Ok(delta) => {
                        self.time_step_dirty = true;
                        Ok(delta)
                    },
                    Err(_) => Err(TimeError::OutOfSemiStepBounds),
                }
            },
        }
    }

    /// Time waiting in the accumulator.
    pub fn accumulator(&self) -> (r: u64)
        ensures
            r == self.accumulator,
    {
        self.accumulator
    }

    /// The timestep currently in effect.
    pub fn time_step(&self) -> (r: u64)
        requires
            self.time_step.wf(),
        ensures
            r == self.spec_time_step(),
    {
        match &self.time_step {
            TimeStep::Fixed(duration) => *duration,
            TimeStep::SemiFixed(data) => data.current_time_step(),
        }
    }

    /// Same as [`StepperRes::time_step`], under the name the trait-styled
    /// stepper uses.
    pub fn current_time_step(&self) -> (r: u64)
        requires
            self.time_step.wf(),
        ensures
            r == self.spec_time_step(),
    {
        self.time_step()
    }

    /// Steps performed in the current frame.
    pub fn frame_steps(&self) -> (r: u32)
        ensures
            r == self.frame_steps,
    {
        self.frame_steps
    }

    /// Steps performed since construction.
    pub fn global_steps(&self) -> (r: u64)
        ensures
            r == self.global_steps,
    {
        self.global_steps
    }

    /// Whether the timestep changed through an explicit switch since the
    /// last performed step.
    pub fn is_dirty(&self) -> (r: bool)
        ensures
            r == self.time_step_dirty,
    {
        self.time_step_dirty
    }

    /// Total simulated time consumed by performed steps.
    pub fn simulated_time(&self) -> (r: u64)
        ensures
            r == self.simulated_time,
    {
        self.simulated_time
    }

    /// Total wall-time credit received by the accumulator.
    pub fn input_time(&self) -> (r: u64)
        ensures
            r == self.input_time,
    {
        self.input_time
    }

    /// Asks for one simulation step at monotonic time `now`.
    ///
    /// At the start of a frame the accumulator is credited with the wall
    /// time the previous frame took — or seeded with one timestep on the
    /// very first call, so stepping starts immediately. While the frame
    /// is within its limits and a whole timestep sits in the accumulator,
    /// each call pays one timestep out and reports the step; otherwise it
    /// reports `None` and ends the frame, degrading or upgrading a
    /// semi-fixed ladder as the frame's pace warrants.
    pub fn next(&mut self, now: u64) -> (r: Option<Step>)
        requires
            old(self).wf(),
            old(self).stamps_le(now),
            now <= MAX_TIME,
        ensures
            final(self).wf(),
            final(self).stamps_le(now),
            final(self).max_steps_per_frame == old(self).max_steps_per_frame,
            final(self).frame_time_limit == old(self).frame_time_limit,
            ({
                // The frame-begin bookkeeping this call performed.
                let init = old(self).frame_start is None || old(self).frame_steps == 0;
                let credit = if old(self).frame_start is None {
                    old(self).spec_time_step()
                } else {
                    if old(self).frame_steps == 0 {
                        (now - old(self).frame_start->0) as u64
                    } else {
                        0
                    }
                };
                let acc1 = (old(self).accumulator + credit) as u64;
                let steps1: u32 = if init {
                    0
                } else {
                    old(self).frame_steps
                };
                let start1: u64 = if init {
                    now
                } else {
                    old(self).frame_start->0
                };
                let delta = old(self).spec_time_step();
                let slow = SlowFrameError::spec_check_for(
                    steps1,
                    (now - start1) as u64,
                    old(self).max_steps_per_frame,
                    old(self).frame_time_limit,
                );
                &&& final(self).input_time == old(self).input_time + credit
                &&& final(self).frame_start == Some(start1)
                &&& (slow is Some ==> {
                    // Frame limits hit: postpone the remaining steps.
                    &&& r is None
                    &&& final(self).frame_steps == 0
                    &&& final(self).accumulator == acc1
                    &&& final(self).global_steps == old(self).global_steps
                    &&& final(self).simulated_time == old(self).simulated_time
                    &&& (old(self).time_step matches TimeStep::SemiFixed(data) ==> final(self).time_step == TimeStep::SemiFixed(
                        data.spec_degrade(old(self).global_steps, now).0,
                    ))
                    &&& (old(self).time_step is Fixed ==> final(self).time_step == old(self).time_step)
                })
                &&& (slow is None && acc1 >= delta ==> {
                    // Pay one timestep out of the accumulator.
                    let steps2: u32 = if steps1 < u32::MAX {
                        (steps1 + 1) as u32
                    } else {
                        steps1
                    };
                    &&& final(self).accumulator == acc1 - delta
                    &&& final(self).global_steps == old(self).global_steps + 1
                    &&& final(self).frame_steps == steps2
                    &&& final(self).simulated_time == old(self).simulated_time + delta
                    &&& final(self).time_step == old(self).time_step
                    &&& r == Some(
                        Step {
                            delta,
                            step_dirty: old(self).time_step_dirty || delta != old(self).last_delta,
                            accumulator_remaining: (acc1 - delta) as u64,
                            global_step_number: (old(self).global_steps + 1) as u64,
                            frame_step_number: steps2,
                        },
                    )
                })
                &&& (slow is None && acc1 < delta ==> {
                    // Accumulator exhausted: the frame is done.
                    &&& r is None
                    &&& final(self).frame_steps == 0
                    &&& final(self).accumulator == acc1
                    &&& final(self).global_steps == old(self).global_steps
                    &&& final(self).simulated_time == old(self).simulated_time
                    &&& (old(self).time_step matches TimeStep::SemiFixed(data) ==> final(self).time_step == TimeStep::SemiFixed(
                        data.spec_upgrade(old(self).global_steps, now).0,
                    ))
                    &&& (old(self).time_step is Fixed ==> final(self).time_step == old(self).time_step)
                })
            }),
    {
        let current_frame_delta = self.time_step();

        // First call of a frame: credit the accumulator with the wall
        // time since the frame began — on the very first call, seed it
        // with one timestep so stepping starts immediately.
        if self.frame_start.is_none() || self.frame_steps == 0 {
            let credit = match self.frame_start {
                Some(instant) => now - instant,
                None => current_frame_delta,
            };
            proof {
                assert(self.accumulator + credit <= u64::MAX) by {
                    assert(self.accumulator <= self.input_time);
                }
            }
            self.accumulator = self.accumulator + credit;
            self.input_time = self.input_time + credit;
            self.frame_steps = 0;
            self.frame_start = Some(now);
        }

        let frame_duration = match self.frame_start {
            Some(t) => now - t,
            None => 0,
        };
        let slow_frame = SlowFrameError::check_for(
            self.frame_steps,
            frame_duration,
            self.max_steps_per_frame,
            self.frame_time_limit,
        );
        match slow_frame {
            Some(_slow_frame_error) => {
                // Running slow and the configuration asks to postpone
                // remaining steps to the next frame.
                match &mut self.time_step {
                    TimeStep::SemiFixed(step_data) => {
                        if step_data.degrade_from_being_slow(self.global_steps, now) {
                            self.time_step_dirty = true;
                        }
                    },
                    TimeStep::Fixed(_) => {},
                }
                self.frame_steps = 0;
                None
            },
            None => {
                if self.accumulator >= current_frame_delta {
                    // Drain the accumulator by the length of one timestep.
                    // The per-frame counter saturates rather than wraps.
                    if self.frame_steps < u32::MAX {
                        self.frame_steps = self.frame_steps + 1;
                    }
                    self.global_steps = self.global_steps + 1;
                    self.accumulator = self.accumulator - current_frame_delta;
                    self.simulated_time = self.simulated_time + current_frame_delta;
                    let dirty = self.time_step_dirty || current_frame_delta != self.last_delta;
                    self.time_step_dirty = false;
                    self.last_delta = current_frame_delta;
                    Some(
                        Step {
                            delta: current_frame_delta,
                            step_dirty: dirty,
                            accumulator_remaining: self.accumulator,
                            global_step_number: self.global_steps,
                            frame_step_number: self.frame_steps,
                        },
                    )
                } else {
                    match &mut self.time_step {
                        TimeStep::SemiFixed(step_data) => {
                            if step_data.upgrade_from_being_fast(self.global_steps, now) {
                                self.time_step_dirty = true;
                            }
                        },
                        TimeStep::Fixed(_) => {},
                    }
                    self.frame_steps = 0;
                    None
                }
            },
        }
    }
}

impl Default for StepperRes {
    /// A fixed stepper at sixty steps per second.
    fn default() -> (r: StepperRes)
        ensures
            r.wf(),
            r.time_step == TimeStep::Fixed(16_666_666u64),
            r.accumulator == 0,
            r.global_steps == 0,
    {
        let r = StepperRes::new_fixed(60);
        proof {
            assert(1_000_000_000u64 / 60u64 == 16_666_666u64);
        }
        r
    }
}

/// Conservation of simulated time: in every well-formed stepper state,
/// the wall time credited to the accumulator equals the simulated time
/// consumed by performed steps plus the time still waiting in the
/// accumulator — over any sequence of frames, no simulated time is
/// created or lost.
pub proof fn lemma_accumulator_conservation(s: StepperRes)
    requires
        s.wf(),
    ensures
        s.input_time == s.simulated_time + s.accumulator,
{
}

/// Monotonic hysteresis of the semi-fixed ladder: while the most recent
/// slow frame is still within the fast-running window, the ladder cannot
/// upgrade — after degrading, the rate stays put until the window has
/// fully elapsed.
pub proof fn lemma_hysteresis_window(s: SemiFixedStep, step_number: u64, now: u64)
    requires
        s.wf(),
        s.stamps_le(now),
        s.minimum_time_running_fast is Some,
        s.last_slow_step is Some,
        now - (s.last_slow_step->0).1 <= s.minimum_time_running_fast->0,
    ensures
        s.spec_upgrade(step_number, now).1 == false,
        s.spec_upgrade(step_number, now).0 == s,
{
}

/// A degrade stamps the moment of slowness: every outcome of
/// [`SemiFixedStep::spec_degrade`] leaves the last slow stamp at `now`,
/// so the hysteresis window of [`lemma_hysteresis_window`] starts anew.
pub proof fn lemma_degrade_restamps(s: SemiFixedStep, step_number: u64, now: u64)
    requires
        s.wf(),
        s.stamps_le(now),
    ensures
        s.spec_degrade(step_number, now).0.last_slow_step == Some((step_number, now)),
        s.spec_degrade(step_number, now).0.wf(),
        s.spec_degrade(step_number, now).0.steps == s.steps,
{
}

/// No oscillation faster than the hysteresis window: after any slow-frame
/// report at `now` — whether or not it moved the ladder — no upgrade can
/// happen at a later time that is still within the fast-running window,
/// so a rate lowered for sustained slowness stays lowered until the
/// window has fully elapsed.
pub proof fn lemma_no_oscillation(
    s: SemiFixedStep,
    step_number: u64,
    now: u64,
    later_step: u64,
    later_now: u64,
)
    requires
        s.wf(),
        s.stamps_le(now),
        s.minimum_time_running_fast is Some,
        now <= later_now,
        later_now - now <= s.minimum_time_running_fast->0,
    ensures
        s.spec_degrade(step_number, now).0.spec_upgrade(later_step, later_now).1 == false,
        s.spec_degrade(step_number, now).0.spec_upgrade(later_step, later_now).0
            == s.spec_degrade(step_number, now).0,
{
    let degraded = s.spec_degrade(step_number, now).0;
    lemma_degrade_restamps(s, step_number, now);
    lemma_hysteresis_window(degraded, later_step, later_now);
}

} // verus!
