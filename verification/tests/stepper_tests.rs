//! Tests for the fixed and semi-fixed steppers and the ladder constraint.

use specs_physics::stepper::{
    SemiFixedQualifierState,
    SemiFixedStep,
    SlowFrameError,
    StepperRes,
    TimeError,
    TimeStep,
};
use specs_physics::time_step::{TimeStepChangeError, TimeStepConstraint};

const SIXTIETH: u64 = 16_666_666;

#[test]
fn fixed_stepper_three_exact_frames() {
    // A fixed stepper at one sixtieth of a second, fed exactly one
    // frame delta per frame: one step per frame, the accumulator
    // returning to zero each time.
    let mut stepper = StepperRes::new_fixed(60);
    let mut steps_taken = 0u64;

    let mut now: u64 = 0;
    for _frame in 0..3 {
        loop {
            match stepper.next(now) {
                Some(_step) => {
                    steps_taken += 1;
                    assert_eq!(stepper.accumulator(), 0);
                }
                None => break,
            }
        }
        now += SIXTIETH;
    }

    assert_eq!(steps_taken, 3);
    assert_eq!(stepper.global_steps(), 3);
    assert_eq!(stepper.accumulator(), 0);
}

#[test]
fn accumulator_conservation_over_uneven_frames() {
    // Whatever the frame deltas, credited time equals consumed time
    // plus what remains in the accumulator.
    let mut stepper = StepperRes::new_fixed_exact(10_000_000, None, None);
    let nows = [0u64, 3_000_000, 27_000_000, 31_000_000, 74_500_000];
    for now in nows {
        while stepper.next(now).is_some() {}
        assert_eq!(
            stepper.input_time(),
            stepper.simulated_time() + stepper.accumulator()
        );
    }
}

#[test]
fn first_step_reports_dirty_delta() {
    let mut stepper = StepperRes::new_fixed_exact(10_000_000, None, None);
    let step = stepper.next(0).expect("seeded first step");
    assert!(step.step_dirty());
    assert_eq!(step.delta(), 10_000_000);
    assert_eq!(step.global_step_number(), 1);
    assert_eq!(step.frame_step_number(), 1);
    assert_eq!(step.accumulator_remaining(), 0);
}

#[test]
fn semi_fixed_switch_and_errors() {
    let mut fixed = StepperRes::new_fixed(60);
    assert!(matches!(
        fixed.semi_fixed_switch_to_step(1, None, 0),
        Err(TimeError::WrongStepType)
    ));

    let mut semi = StepperRes::new_semi_fixed_exact(
        vec![4_166_666, 8_333_333, SIXTIETH],
        Some(50_000_000),
        Some(500_000_000),
        None,
        None,
    );
    assert!(matches!(
        semi.semi_fixed_switch_to_step(9, None, 0),
        Err(TimeError::OutOfSemiStepBounds)
    ));
    let delta = semi
        .semi_fixed_switch_to_step(2, Some(SemiFixedQualifierState::NoPostponement), 0)
        .expect("switch in bounds");
    assert_eq!(delta, SIXTIETH);
    assert_eq!(semi.time_step(), SIXTIETH);
    assert!(semi.is_dirty());
}

fn ladder(active: usize, last_slow: Option<(u64, u64)>) -> SemiFixedStep {
    SemiFixedStep {
        minimum_time_running_slow: Some(50_000_000),
        minimum_time_running_fast: Some(500_000_000),
        steps: vec![4_166_666, 8_333_333, SIXTIETH],
        active_step: active,
        last_slow_step: last_slow,
        first_slow_step_in_last_series: last_slow,
    }
}

#[test]
fn degrade_waits_for_sustained_slowness() {
    // The first slow frame only starts the series.
    let mut fresh = ladder(0, None);
    assert!(!fresh.degrade_from_being_slow(1, 1_000));
    assert_eq!(fresh.active_step, 0);
    assert_eq!(fresh.last_slow_step, Some((1, 1_000)));

    // Within the window the ladder restamps but holds its rung.
    assert!(!fresh.degrade_from_being_slow(2, 1_000 + 50_000_000));
    assert_eq!(fresh.active_step, 0);

    // Past the window it degrades one rung.
    assert!(fresh.degrade_from_being_slow(3, 1_000 + 50_000_000 + 50_000_001));
    assert_eq!(fresh.active_step, 1);
}

#[test]
fn degrade_at_coarsest_rung_only_restamps() {
    let mut coarse = ladder(2, Some((4, 2_000)));
    assert!(!coarse.degrade_from_being_slow(9, 2_000 + 50_000_001));
    assert_eq!(coarse.active_step, 2);
    assert_eq!(coarse.last_slow_step, Some((9, 2_000 + 50_000_001)));
}

#[test]
fn upgrade_respects_hysteresis_window() {
    // A slow frame was stamped at 1000; within the fast window the
    // ladder refuses to upgrade.
    let mut held = ladder(1, Some((5, 1_000)));
    assert!(!held.upgrade_from_being_fast(7, 1_000 + 500_000_000));
    assert_eq!(held.active_step, 1);

    // Once the window has fully elapsed it upgrades, and reaching the
    // base rung clears the slow series.
    assert!(held.upgrade_from_being_fast(8, 1_000 + 500_000_001));
    assert_eq!(held.active_step, 0);
    assert_eq!(held.last_slow_step, None);
    assert_eq!(held.first_slow_step_in_last_series, None);
}

#[test]
fn slow_frame_error_reports_both_limits() {
    assert_eq!(SlowFrameError::check_for(3, 1_000, None, None), None);
    assert_eq!(
        SlowFrameError::check_for(3, 1_000, Some(3), None),
        Some(SlowFrameError(true, None))
    );
    assert_eq!(
        SlowFrameError::check_for(1, 9_000, Some(3), Some(2_500)),
        Some(SlowFrameError(false, Some(6_500)))
    );
    assert_eq!(SlowFrameError::check_for(1, 2_500, Some(3), Some(2_500)), None);
}

#[test]
fn stepper_postpones_at_frame_step_limit() {
    // With at most one step per frame, a backlog of three timesteps is
    // worked off over three frames.
    let mut stepper = StepperRes::new_fixed_exact(10_000_000, Some(1), None);
    assert!(stepper.next(0).is_some());
    // The frame hit its step limit: the next call postpones.
    assert!(stepper.next(0).is_none());
    assert_eq!(stepper.frame_steps(), 0);
}

#[test]
fn ladder_constraint_sorts_and_dedups() {
    let steps = vec![SIXTIETH, 4_166_666, 8_333_333, 4_166_666];
    let constraint = TimeStepConstraint::new(&steps, 400_000, 50_000_000, 500_000_000);
    assert_eq!(constraint.current_timestep(), 4_166_666);
    assert_eq!(constraint.time_steps, vec![4_166_666, 8_333_333, SIXTIETH]);
    assert_eq!(constraint.smaller_timestep(), None);
    assert_eq!(constraint.max_physics_time_fraction(), 400_000);
}

#[test]
fn ladder_constraint_hysteresis_scenario() {
    // The ladder of a 240th, a 120th and a 60th of a second, a forty
    // percent budget, fifty milliseconds of slowness before degrading.
    let steps = vec![4_166_666, 8_333_333, SIXTIETH];
    let mut constraint = TimeStepConstraint::new(&steps, 400_000, 50_000_000, 500_000_000);

    // Slowness begins at time zero.
    constraint.set_running_slow(true, 0);
    // Within the fifty-millisecond threshold nothing should change yet.
    assert!(!constraint.should_increase_timestep(50_000_000));
    // Just past the threshold the timestep should be increased, by one.
    assert!(constraint.should_increase_timestep(50_000_001));
    let new_step = constraint.increase_timestep().expect("one rung up");
    assert_eq!(new_step, 8_333_333);
    assert_eq!(constraint.current_index, 1);
    // The timers were reset by the change.
    assert!(!constraint.should_increase_timestep(50_000_002));
}

#[test]
fn ladder_constraint_change_errors() {
    let steps = vec![4_166_666, 8_333_333];
    let mut constraint = TimeStepConstraint::new(&steps, 400_000, 50_000_000, 500_000_000);
    assert!(matches!(
        constraint.decrease_timestep(),
        Err(TimeStepChangeError::MinimumTimestepReached)
    ));
    assert!(constraint.increase_timestep().is_ok());
    assert!(matches!(
        constraint.increase_timestep(),
        Err(TimeStepChangeError::MaximumTimestepReached)
    ));
    constraint.set_running_fast(true, 0);
    assert!(constraint.should_decrease_timestep(500_000_001));
    assert!(constraint.decrease_timestep().is_ok());
    assert_eq!(constraint.current_index, 0);
}

#[test]
fn default_stepper_runs_at_sixty() {
    let stepper = StepperRes::default();
    assert!(matches!(stepper.time_step, TimeStep::Fixed(SIXTIETH)));
    assert_eq!(stepper.current_time_step(), SIXTIETH);
}
