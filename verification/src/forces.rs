//! Force-generator configuration.
//!
//! Force generators are sugar for applying a series of forces over the
//! body set each step. The traits here only configure which component
//! types carry the generators; the numerical force computation itself is
//! the engine's work and happens outside this crate.

use vstd::prelude::*;
use crate::bodies::Velocity;
use crate::handle::BodyHandle;
use crate::index_map::IndexSet;
use crate::math::Point3;

verus! {

/// Chooses the component types carrying local and linked force
/// generators.
pub trait ForceGenerators {
    /// The component type of generators acting on single bodies.
    type LocalForceGenerators;

    /// The component type of generators linking several bodies.
    type LinkedForceGenerators;
}

/// Implemented by component types whose values generate a force on the
/// body of their own entity.
pub trait LocalForceGenerators: Sized {

}

/// Implemented by component types whose values generate forces linking
/// several bodies.
pub trait LinkedForceGenerators: Sized {
    /// The set of entity indices whose bodies this generator affects.
    fn affected_bodies(&self) -> IndexSet;
}

/// The stock force-generator configuration.
#[derive(Clone, Copy, Debug, Default, PartialEq, Eq, Structural)]
pub struct DefaultForceGenerators;

impl ForceGenerators for DefaultForceGenerators {
    type LocalForceGenerators = DefaultLocalForceGenerators;

    type LinkedForceGenerators = DefaultLinkedForceGenerators;
}

/// The stock local force generators.
pub enum DefaultLocalForceGenerators {
    ConstantAcceleration(ConstantAcceleration),
}

/// A constant acceleration applied to a body every step.
#[derive(Clone, Copy, Debug, PartialEq, Eq, Structural)]
pub struct ConstantAcceleration {
    pub acceleration: Velocity,
}

impl LocalForceGenerators for DefaultLocalForceGenerators {

}

/// The stock linked force generators.
pub enum DefaultLinkedForceGenerators {
    Spring(Spring),
}

/// A spring linking two bodies: rest length, stiffness, and the anchor
/// points on either body.
pub struct Spring {
    pub length: i64,
    pub stiffness: i64,
    pub anchor1: Point3,
    pub anchor2: Point3,
    pub handle1: BodyHandle,
    pub handle2: BodyHandle,
    pub links: IndexSet,
}

impl LinkedForceGenerators for DefaultLinkedForceGenerators {
    fn affected_bodies(&self) -> IndexSet {
        match self {
            DefaultLinkedForceGenerators::Spring(_spring) => IndexSet::new(),
        }
    }
}

} // verus!
