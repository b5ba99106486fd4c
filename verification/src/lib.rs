//! A synchronization layer between an entity-component world and a physics
//! simulation.
//!
//! The library keeps two independently owned representations of the same
//! physical objects consistent: entities carrying body and collider
//! components on one side, and an engine-facing object store addressed by
//! numeric handles on the other. It tracks component insertion, modification
//! and removal through per-storage event channels, reconciles those changes
//! into the engine state, advances the simulation with a fixed or semi-fixed
//! timestep, and copies the resulting poses and diagnostics back into
//! components.
//!
//! Scalar physical quantities (masses, lengths, velocities) are fixed-point
//! values with a resolution of one millionth of a unit, and times are
//! nanosecond counts, so that every rule in this crate is exact arithmetic.
//! The numerical integration performed by a physics engine is outside the
//! scope of this crate: the engine-facing state here records what the
//! synchronization layer knows, and the steppers account for how often and
//! by which delta the engine is asked to advance.

use vstd::prelude::*;

pub mod bodies;
pub mod builder;
pub mod colliders;
pub mod events;
pub mod forces;
pub mod handle;
pub mod index_map;
pub mod joints;
pub mod math;
pub mod parameters;
pub mod pose;
pub mod stepper;
pub mod storage;
pub mod systems;
pub mod time_step;
pub mod world;

pub use crate::bodies::{PhysicsBody, PhysicsBodyBuilder};
pub use crate::builder::EntityBuilderExt;
pub use crate::colliders::{PhysicsCollider, PhysicsColliderBuilder};
pub use crate::pose::{Pose, SimplePosition};
pub use crate::world::Physics;

verus! {

} // verus!
