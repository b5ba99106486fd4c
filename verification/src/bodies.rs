//! Body-describing components and their builder.
//!
//! A [`PhysicsBody`] component describes the desired state of an engine
//! body: status, velocity, mass and inertia, centre of mass, gravity flag
//! and an accumulated one-shot external force. The body synchronization
//! stage reads it to create or update the engine-side object.

use vstd::prelude::*;
use crate::handle::BodyHandle;
use crate::math::{Matrix3, Point3, Vector3};
use crate::world::{RigidBody, RigidBodyDesc};

verus! {

/// The dynamic role of a body in the simulation.
#[derive(Clone, Copy, Debug, PartialEq, Eq, Structural)]
pub enum BodyStatus {
    /// The body is ignored by the simulation.
    Disabled,
    /// The body never moves.
    Static,
    /// The body moves under forces and contacts.
    Dynamic,
    /// The body moves along a prescribed trajectory, unaffected by forces.
    Kinematic,
}

/// A linear and angular velocity pair.
#[derive(Clone, Copy, Debug, PartialEq, Eq, Structural)]
pub struct Velocity {
    pub linear: Vector3,
    pub angular: Vector3,
}

impl Velocity {
    /// The zero velocity.
    pub fn zero() -> (r: Velocity)
        ensures
            r == Velocity::zero_spec(),
    {
        Velocity { linear: Vector3::zeros(), angular: Vector3::zeros() }
    }

    /// The zero velocity, as a specification value.
    pub open spec fn zero_spec() -> Velocity {
        Velocity {
            linear: Vector3 { x: 0, y: 0, z: 0 },
            angular: Vector3 { x: 0, y: 0, z: 0 },
        }
    }

    /// A purely linear velocity.
    pub fn linear(x: i64, y: i64, z: i64) -> (r: Velocity)
        ensures
            r.linear == (Vector3 { x, y, z }),
            r.angular == (Vector3 { x: 0, y: 0, z: 0 }),
    {
        Velocity { linear: Vector3::new(x, y, z), angular: Vector3::zeros() }
    }
}

/// A linear and angular force pair.
#[derive(Clone, Copy, Debug, PartialEq, Eq, Structural)]
pub struct Force {
    pub linear: Vector3,
    pub angular: Vector3,
}

impl Force {
    /// The zero force.
    pub fn zero() -> (r: Force)
        ensures
            r == Force::zero_spec(),
    {
        Force { linear: Vector3::zeros(), angular: Vector3::zeros() }
    }

    /// The zero force, as a specification value.
    pub open spec fn zero_spec() -> Force {
        Force {
            linear: Vector3 { x: 0, y: 0, z: 0 },
            angular: Vector3 { x: 0, y: 0, z: 0 },
        }
    }

    /// A purely linear force.
    pub fn linear(x: i64, y: i64, z: i64) -> (r: Force)
        ensures
            r.linear == (Vector3 { x, y, z }),
            r.angular == (Vector3 { x: 0, y: 0, z: 0 }),
    {
        Force { linear: Vector3::new(x, y, z), angular: Vector3::zeros() }
    }
}

/// Whether adding `b` to `a` componentwise stays within the machine range.
pub open spec fn vector_add_fits(a: Vector3, b: Vector3) -> bool {
    &&& i64::MIN <= a.x + b.x <= i64::MAX
    &&& i64::MIN <= a.y + b.y <= i64::MAX
    &&& i64::MIN <= a.z + b.z <= i64::MAX
}

/// Whether adding force `b` to `a` stays within the machine range.
pub open spec fn force_add_fits(a: Force, b: Force) -> bool {
    vector_add_fits(a.linear, b.linear) && vector_add_fits(a.angular, b.angular)
}

/// The componentwise sum of two vectors, truncated to the machine range;
/// exact whenever the sum fits.
pub open spec fn vector_sum(a: Vector3, b: Vector3) -> Vector3 {
    Vector3 { x: (a.x + b.x) as i64, y: (a.y + b.y) as i64, z: (a.z + b.z) as i64 }
}

/// The componentwise sum of two forces, truncated to the machine range;
/// exact whenever the sum fits.
pub open spec fn force_sum(a: Force, b: Force) -> Force {
    Force { linear: vector_sum(a.linear, b.linear), angular: vector_sum(a.angular, b.angular) }
}

/// Marker attached to entities whose body is a rigid body.
/// Attach at most one kind of body marker to a body entity.
#[derive(Clone, Copy, Debug, Default, PartialEq, Eq, Structural)]
pub struct RigidBodyMarker;

/// Marker attached to entities whose body is a multibody.
/// Attach at most one kind of body marker to a body entity.
#[derive(Clone, Copy, Debug, Default, PartialEq, Eq, Structural)]
pub struct MultibodyMarker;

/// Marker attached to entities whose body is a ground body.
/// Attach at most one kind of body marker to a body entity.
#[derive(Clone, Copy, Debug, Default, PartialEq, Eq, Structural)]
pub struct GroundMarker;

/// The body component: describes an engine rigid body owned by an entity
/// and carries all the data the synchronization stages exchange between the
/// two worlds.
#[derive(Clone, Copy, Debug)]
pub struct PhysicsBody {
    /// The engine handle, filled in by the body synchronization stage.
    pub handle: Option<BodyHandle>,
    pub gravity_enabled: bool,
    pub body_status: BodyStatus,
    pub velocity: Velocity,
    pub angular_inertia: Matrix3,
    pub mass: i64,
    pub local_center_of_mass: Point3,
    /// One-shot force contribution queued since the last synchronization.
    /// Applied to the engine body once, then cleared.
    pub external_forces: Force,
}

impl PhysicsBody {
    /// The force contribution currently queued on this component.
    pub fn check_external_force(&self) -> (r: &Force)
        ensures
            *r == self.external_forces,
    {
        &self.external_forces
    }

    /// Queues `force` on top of the already accumulated contribution.
    pub fn apply_external_force(&mut self, force: &Force) -> (r: &mut PhysicsBody)
        requires
            force_add_fits(old(self).external_forces, *force),
        ensures
            *r == (PhysicsBody {
                external_forces: force_sum(old(self).external_forces, *force),
                ..*old(self)
            }),
            *final(self) == *final(r),
    {
        self.external_forces = Force {
            linear: Vector3 {
                x: self.external_forces.linear.x + force.linear.x,
                y: self.external_forces.linear.y + force.linear.y,
                z: self.external_forces.linear.z + force.linear.z,
            },
            angular: Vector3 {
                x: self.external_forces.angular.x + force.angular.x,
                y: self.external_forces.angular.y + force.angular.y,
                z: self.external_forces.angular.z + force.angular.z,
            },
        };
        self
    }

    /// A fresh engine body description carrying this component's values.
    pub fn to_rigid_body_desc(&self) -> (r: RigidBodyDesc)
        ensures
            r.gravity_enabled == self.gravity_enabled,
            r.status == self.body_status,
            r.velocity == self.velocity,
            r.angular_inertia == self.angular_inertia,
            r.mass == self.mass,
            r.local_center_of_mass == self.local_center_of_mass,
            r.position == crate::math::Isometry::identity_spec(),
            r.user_data is None,
    {
        RigidBodyDesc::new()
            .gravity_enabled(self.gravity_enabled)
            .status(self.body_status)
            .velocity(self.velocity)
            .angular_inertia(self.angular_inertia)
            .mass(self.mass)
            .local_center_of_mass(self.local_center_of_mass)
    }

    /// Writes this component's values into an engine body in place, applies
    /// the queued one-shot force and clears the accumulator. The engine
    /// body's position is left alone: teleports are a separate, explicit
    /// operation.
    pub fn apply_to_physics_world(&mut self, rigid_body: &mut RigidBody)
        ensures
            final(rigid_body).gravity_enabled == old(self).gravity_enabled,
            final(rigid_body).status == old(self).body_status,
            final(rigid_body).velocity == old(self).velocity,
            final(rigid_body).angular_inertia == old(self).angular_inertia,
            final(rigid_body).mass == old(self).mass,
            final(rigid_body).local_center_of_mass == old(self).local_center_of_mass,
            final(rigid_body).applied_force == old(self).external_forces,
            final(rigid_body).position == old(rigid_body).position,
            final(rigid_body).user_data == old(rigid_body).user_data,
            *final(self) == (PhysicsBody { external_forces: Force::zero_spec(), ..*old(self) }),
    {
        rigid_body.gravity_enabled = self.gravity_enabled;
        rigid_body.status = self.body_status;
        rigid_body.velocity = self.velocity;
        rigid_body.angular_inertia = self.angular_inertia;
        rigid_body.mass = self.mass;
        rigid_body.local_center_of_mass = self.local_center_of_mass;
        rigid_body.applied_force = self.drain_external_force();
    }

    /// Copies the simulated state of an engine body back into this
    /// component, for diagnostic visibility. One-way: these fields are
    /// overwritten every frame and are not authoring inputs.
    pub fn update_from_physics_world(&mut self, rigid_body: &RigidBody)
        ensures
            final(self).gravity_enabled == rigid_body.gravity_enabled,
            final(self).body_status == rigid_body.status,
            final(self).velocity == rigid_body.velocity,
            final(self).angular_inertia == rigid_body.angular_inertia,
            final(self).mass == rigid_body.mass,
            final(self).handle == old(self).handle,
            final(self).local_center_of_mass == old(self).local_center_of_mass,
            final(self).external_forces == old(self).external_forces,
    {
        self.gravity_enabled = rigid_body.gravity_enabled;
        self.body_status = rigid_body.status;
        self.velocity = rigid_body.velocity;
        self.angular_inertia = rigid_body.angular_inertia;
        self.mass = rigid_body.mass;
    }

    /// Takes the queued force, leaving zero behind.
    pub fn drain_external_force(&mut self) -> (r: Force)
        ensures
            r == old(self).external_forces,
            *final(self) == (PhysicsBody { external_forces: Force::zero_spec(), ..*old(self) }),
    {
        let value = self.external_forces;
        self.external_forces = Force::zero();
        value
    }
}

/// Builder for [`PhysicsBody`] components, starting from sane defaults:
/// a body of mass 1.2 units with zero velocity and inertia, gravity off.
/// Obtain one from a [`BodyStatus`], through [`From`] or
/// [`PhysicsBodyBuilder::from_status`].
pub struct PhysicsBodyBuilder {
    pub gravity_enabled: bool,
    pub body_status: BodyStatus,
    pub velocity: Velocity,
    pub angular_inertia: Matrix3,
    pub mass: i64,
    pub local_center_of_mass: Point3,
}

impl From<BodyStatus> for PhysicsBodyBuilder {
    /// Same as [`PhysicsBodyBuilder::from_status`].
    fn from(body_status: BodyStatus) -> (r: PhysicsBodyBuilder) {
        PhysicsBodyBuilder::from_status(body_status)
    }
}

impl vstd::std_specs::convert::FromSpecImpl<BodyStatus> for PhysicsBodyBuilder {
    open spec fn obeys_from_spec() -> bool {
        true
    }

    open spec fn from_spec(body_status: BodyStatus) -> PhysicsBodyBuilder {
        PhysicsBodyBuilder {
            gravity_enabled: false,
            body_status,
            velocity: Velocity::zero_spec(),
            angular_inertia: Matrix3::zero_spec(),
            mass: 1_200_000,
            local_center_of_mass: Point3 { x: 0, y: 0, z: 0 },
        }
    }
}

impl PhysicsBodyBuilder {
    /// A builder for a body with the given status and default values for
    /// everything else.
    pub fn from_status(body_status: BodyStatus) -> (r: PhysicsBodyBuilder)
        ensures
            r.gravity_enabled == false,
            r.body_status == body_status,
            r.velocity == Velocity::zero_spec(),
            r.angular_inertia == Matrix3::zero_spec(),
            r.mass == 1_200_000int,
            r.local_center_of_mass == (Point3 { x: 0, y: 0, z: 0 }),
    {
        PhysicsBodyBuilder {
            gravity_enabled: false,
            body_status,
            velocity: Velocity::zero(),
            angular_inertia: Matrix3::zeros(),
            mass: 1_200_000,
            local_center_of_mass: Point3::origin(),
        }
    }

    /// Sets the `gravity_enabled` value.
    pub fn gravity_enabled(self, gravity_enabled: bool) -> (r: PhysicsBodyBuilder)
        ensures
            r == (PhysicsBodyBuilder { gravity_enabled, ..self }),
    {
        PhysicsBodyBuilder { gravity_enabled, ..self }
    }

    /// Sets the `velocity` value.
    pub fn velocity(self, velocity: Velocity) -> (r: PhysicsBodyBuilder)
        ensures
            r == (PhysicsBodyBuilder { velocity, ..self }),
    {
        PhysicsBodyBuilder { velocity, ..self }
    }

    /// Sets the `angular_inertia` value.
    pub fn angular_inertia(self, angular_inertia: Matrix3) -> (r: PhysicsBodyBuilder)
        ensures
            r == (PhysicsBodyBuilder { angular_inertia, ..self }),
    {
        PhysicsBodyBuilder { angular_inertia, ..self }
    }

    /// Sets the `mass` value.
    pub fn mass(self, mass: i64) -> (r: PhysicsBodyBuilder)
        ensures
            r == (PhysicsBodyBuilder { mass, ..self }),
    {
        PhysicsBodyBuilder { mass, ..self }
    }

    /// Sets the `local_center_of_mass` value.
    pub fn local_center_of_mass(self, local_center_of_mass: Point3) -> (r: PhysicsBodyBuilder)
        ensures
            r == (PhysicsBodyBuilder { local_center_of_mass, ..self }),
    {
        PhysicsBodyBuilder { local_center_of_mass, ..self }
    }

    /// Builds the component from the values set on the builder. The handle
    /// starts empty and the force accumulator starts at zero.
    pub fn build(self) -> (r: PhysicsBody)
        ensures
            r.handle is None,
            r.gravity_enabled == self.gravity_enabled,
            r.body_status == self.body_status,
            r.velocity == self.velocity,
            r.angular_inertia == self.angular_inertia,
            r.mass == self.mass,
            r.local_center_of_mass == self.local_center_of_mass,
            r.external_forces == Force::zero_spec(),
    {
        PhysicsBody {
            handle: None,
            gravity_enabled: self.gravity_enabled,
            body_status: self.body_status,
            velocity: self.velocity,
            angular_inertia: self.angular_inertia,
            mass: self.mass,
            local_center_of_mass: self.local_center_of_mass,
            external_forces: Force::zero(),
        }
    }
}

} // verus!
