//! Pose components: where the application sees simulated placements.
//!
//! A pose component is written by the pose read-back stage after each
//! step and read by the rest of the application. It is one-way state:
//! to move a body, change the body, not the pose.

use vstd::prelude::*;
use crate::math::{Isometry, Point3};

verus! {

/// Implemented by component types that receive transform data from the
/// simulation after each step.
pub trait Pose: Sized {
    /// The placement this component currently shows.
    spec fn spec_isometry(self) -> Isometry;

    /// Overwrites the shown placement with the simulated one.
    fn sync(&mut self, pose: &Isometry)
        ensures
            final(self).spec_isometry() == *pose,
    ;
}

/// Implemented by component types that carry an authoritative placement
/// into the simulation and receive the simulated one back.
pub trait Position: Sized {
    /// The placement this component currently holds.
    spec fn spec_isometry(self) -> Isometry;

    /// Reads the held placement.
    fn isometry(&self) -> (r: &Isometry)
        ensures
            *r == self.spec_isometry(),
    ;

    /// Overwrites the held placement.
    fn set_isometry(&mut self, isometry: &Isometry)
        ensures
            final(self).spec_isometry() == *isometry,
    ;
}

/// A minimal utility pose: exactly an isometry.
#[derive(Clone, Copy, Debug, PartialEq, Eq, Structural)]
pub struct SimplePosition(pub Isometry);

impl SimplePosition {
    /// The translational component of the position.
    pub fn translation(&self) -> (r: Point3)
        ensures
            r.x == self.0.translation.x,
            r.y == self.0.translation.y,
            r.z == self.0.translation.z,
    {
        Point3::new(self.0.translation.x, self.0.translation.y, self.0.translation.z)
    }
}

impl Pose for SimplePosition {
    open spec fn spec_isometry(self) -> Isometry {
        self.0
    }

    fn sync(&mut self, pose: &Isometry) {
        self.0 = *pose;
    }
}

impl Position for SimplePosition {
    open spec fn spec_isometry(self) -> Isometry {
        self.0
    }

    fn isometry(&self) -> (r: &Isometry) {
        &self.0
    }

    fn set_isometry(&mut self, isometry: &Isometry) {
        self.0 = *isometry;
    }
}

impl Default for SimplePosition {
    /// The identity placement.
    fn default() -> (r: SimplePosition)
        ensures
            r.0 == Isometry::identity_spec(),
    {
        SimplePosition(Isometry::identity())
    }
}

} // verus!
