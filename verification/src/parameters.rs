//! Resources carrying the simulation-wide parameters.
//!
//! The parameter synchronization stage compares these application-owned
//! resources against the engine-facing state and writes only the fields
//! that differ, because some engine parameter writes reset internal
//! solver caches.

use vstd::prelude::*;
use crate::math::Vector3;
use crate::world::IntegrationParameters;

verus! {

/// The integration timestep requested of the engine, in nanoseconds.
///
/// Do not change this every frame: doing so destabilizes the simulation.
/// The stepping system itself should run at a fixed cadence and maintain
/// a running accumulator.
#[derive(Clone, Copy, Debug, PartialEq, Eq, Structural)]
pub struct TimeStep(pub u64);

impl Default for TimeStep {
    /// A sixtieth of a second.
    fn default() -> (r: TimeStep)
        ensures
            r.0 == 16_666_666u64,
    {
        TimeStep(16_666_666)
    }
}

/// The constant acceleration affecting every gravity-enabled body.
#[derive(Clone, Copy, Debug, PartialEq, Eq, Structural)]
pub struct Gravity(pub Vector3);

impl Default for Gravity {
    /// No gravity.
    fn default() -> (r: Gravity)
        ensures
            r.0 == (Vector3 { x: 0, y: 0, z: 0 }),
    {
        Gravity(Vector3::zeros())
    }
}

/// Whether the engine's performance counters should be running.
#[derive(Clone, Copy, Debug, PartialEq, Eq, Structural)]
pub struct PhysicsProfilingEnabled(pub bool);

impl Default for PhysicsProfilingEnabled {
    /// Profiling off.
    fn default() -> (r: PhysicsProfilingEnabled)
        ensures
            r.0 == false,
    {
        PhysicsProfilingEnabled(false)
    }
}

/// The application-facing integration tuning: the engine's parameters
/// without its clock fields.
#[derive(Clone, Copy, Debug, PartialEq, Eq, Structural)]
pub struct PhysicsIntegrationParameters {
    /// The proportion of positional error corrected each step.
    pub error_reduction_parameter: i64,
    /// Multiplier on cached impulses re-used to warm-start the solver.
    pub warmstart_coefficient: i64,
    /// Relative velocity below which no restitution force is applied.
    pub restitution_velocity_threshold: i64,
    /// Penetration depth the engine does not attempt to correct.
    pub allowed_linear_error: i64,
    /// Angular drift of joint limits the engine does not attempt to
    /// correct.
    pub allowed_angular_error: i64,
    /// Maximum linear correction in one position-solver step.
    pub max_linear_correction: i64,
    /// Maximum angular correction in one position-solver step.
    pub max_angular_correction: i64,
    /// Maximum scaling used when the correction direction is close to the
    /// kernel of the involved jacobian.
    pub max_stabilization_multiplier: i64,
    /// Maximum iterations of the velocity constraint solver.
    pub max_velocity_iterations: usize,
    /// Maximum iterations of the position constraint solver.
    pub max_position_iterations: usize,
}

impl PhysicsIntegrationParameters {
    /// Writes these values into the engine-facing parameters.
    pub fn apply(&self, to: &mut IntegrationParameters)
        ensures
            final(to).erp == self.error_reduction_parameter,
            final(to).warmstart_coeff == self.warmstart_coefficient,
            final(to).restitution_velocity_threshold == self.restitution_velocity_threshold,
            final(to).allowed_linear_error == self.allowed_linear_error,
            final(to).allowed_angular_error == self.allowed_angular_error,
            final(to).max_linear_correction == self.max_linear_correction,
            final(to).max_angular_correction == self.max_angular_correction,
            final(to).max_stabilization_multiplier == self.max_stabilization_multiplier,
            final(to).max_velocity_iterations == self.max_velocity_iterations,
            final(to).max_position_iterations == self.max_position_iterations,
            self.agrees_with_spec(*final(to)),
    {
        to.erp = self.error_reduction_parameter;
        to.warmstart_coeff = self.warmstart_coefficient;
        to.restitution_velocity_threshold = self.restitution_velocity_threshold;
        to.allowed_linear_error = self.allowed_linear_error;
        to.allowed_angular_error = self.allowed_angular_error;
        to.max_linear_correction = self.max_linear_correction;
        to.max_angular_correction = self.max_angular_correction;
        to.max_stabilization_multiplier = self.max_stabilization_multiplier;
        to.max_velocity_iterations = self.max_velocity_iterations;
        to.max_position_iterations = self.max_position_iterations;
    }

    /// Whether these values already match the engine-facing parameters,
    /// field for field.
    pub open spec fn agrees_with_spec(self, other: IntegrationParameters) -> bool {
        &&& self.error_reduction_parameter == other.erp
        &&& self.warmstart_coefficient == other.warmstart_coeff
        &&& self.restitution_velocity_threshold == other.restitution_velocity_threshold
        &&& self.allowed_linear_error == other.allowed_linear_error
        &&& self.allowed_angular_error == other.allowed_angular_error
        &&& self.max_linear_correction == other.max_linear_correction
        &&& self.max_angular_correction == other.max_angular_correction
        &&& self.max_stabilization_multiplier == other.max_stabilization_multiplier
        &&& self.max_velocity_iterations == other.max_velocity_iterations
        &&& self.max_position_iterations == other.max_position_iterations
    }

    /// Whether these values already match the engine-facing parameters.
    pub fn agrees_with(&self, other: &IntegrationParameters) -> (r: bool)
        ensures
            r == self.agrees_with_spec(*other),
    {
        self.error_reduction_parameter == other.erp && self.warmstart_coefficient
            == other.warmstart_coeff && self.restitution_velocity_threshold
            == other.restitution_velocity_threshold && self.allowed_linear_error
            == other.allowed_linear_error && self.allowed_angular_error
            == other.allowed_angular_error && self.max_linear_correction
            == other.max_linear_correction && self.max_angular_correction
            == other.max_angular_correction && self.max_stabilization_multiplier
            == other.max_stabilization_multiplier && self.max_velocity_iterations
            == other.max_velocity_iterations && self.max_position_iterations
            == other.max_position_iterations
    }
}

impl Default for PhysicsIntegrationParameters {
    /// The engine's stock tuning, field for field.
    fn default() -> (r: PhysicsIntegrationParameters)
        ensures
            r.agrees_with_spec(IntegrationParameters::default_spec()),
    {
        PhysicsIntegrationParameters {
            error_reduction_parameter: 200_000,
            warmstart_coefficient: 1_000_000,
            restitution_velocity_threshold: 1_000_000,
            allowed_linear_error: 1_000,
            allowed_angular_error: 1_000,
            max_linear_correction: 100_000_000,
            max_angular_correction: 200_000,
            max_stabilization_multiplier: 200_000,
            max_velocity_iterations: 8,
            max_position_iterations: 3,
        }
    }
}

} // verus!
