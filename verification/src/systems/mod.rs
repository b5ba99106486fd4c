//! The synchronization stages, run as an ordered pipeline each frame:
//! bodies into the engine, then colliders, then parameters, then the
//! stepper, then poses and events back out of the engine.

pub mod dumb;
pub mod physics_stepper;
pub mod pose;
pub mod stepper;
pub mod sync_bodies_from_physics;
pub mod sync_bodies_to_physics;
pub mod sync_force_generators_to_physics;
pub mod sync_gravity_to_physics;
pub mod sync_parameters_to_physics;
pub mod sync_positions_from_physics;
pub mod sync_colliders_to_physics;
