//! Collider-describing components and their builders.
//!
//! A collider attaches a collision shape either to a body — the entity's
//! own, or an explicit parent entity's — or directly to the static world
//! frame. Shape data is shared behind reference counting, so copying a
//! shape between the component world and the engine-facing store is exact.

use vstd::prelude::*;
use std::rc::Rc;
use crate::handle::ColliderHandle;
use crate::math::{Isometry, Point3, Vector3};

verus! {

/// Triangle-mesh data: vertices, triangle index triples, and optional
/// texture coordinates.
pub type MeshData = (Rc<Vec<Point3>>, Rc<Vec<(usize, usize, usize)>>, Option<
    Rc<Vec<(i64, i64)>>,
>);

/// Implemented by application types that can produce triangle-mesh data
/// for a [`Shape::TriMesh`] collider.
pub trait IntoMesh {
    /// The mesh data this value describes.
    fn points(&self) -> MeshData;
}

/// A collision shape, described by plain values.
///
/// A compound groups other shapes under local placements; the engine
/// refuses nested compounds, so nesting is a construction error there, not
/// here.
#[derive(Debug)]
pub enum Shape {
    Ball { radius: i64 },
    Capsule { half_height: i64, radius: i64 },
    Compound { parts: Rc<Vec<(Isometry, Shape)>> },
    ConvexHull { points: Rc<Vec<Point3>> },
    Cuboid { half_extents: Vector3 },
    HeightField { heights: Rc<Vec<Vec<i64>>>, scale: Vector3 },
    Plane { normal: Vector3 },
    Polyline { points: Rc<Vec<Point3>>, indices: Option<Rc<Vec<(usize, usize)>>> },
    Segment { a: Point3, b: Point3 },
    TriMesh { mesh: MeshData },
    Triangle { a: Point3, b: Point3, c: Point3 },
}

impl Clone for Shape {
    /// An exact copy: scalar fields are copied and shared aggregates are
    /// retained, so the copy equals the original.
    fn clone(&self) -> (r: Shape)
        ensures
            r == *self,
    {
        match self {
            Shape::Ball { radius } => Shape::Ball { radius: *radius },
            Shape::Capsule { half_height, radius } => Shape::Capsule {
                half_height: *half_height,
                radius: *radius,
            },
            Shape::Compound { parts } => Shape::Compound { parts: parts.clone() },
            Shape::ConvexHull { points } => Shape::ConvexHull { points: points.clone() },
            Shape::Cuboid { half_extents } => Shape::Cuboid { half_extents: *half_extents },
            Shape::HeightField { heights, scale } => Shape::HeightField {
                heights: heights.clone(),
                scale: *scale,
            },
            Shape::Plane { normal } => Shape::Plane { normal: *normal },
            Shape::Polyline { points, indices } => Shape::Polyline {
                points: points.clone(),
                indices: match indices {
                    Some(ix) => Some(ix.clone()),
                    None => None,
                },
            },
            Shape::Segment { a, b } => Shape::Segment { a: *a, b: *b },
            Shape::TriMesh { mesh } => Shape::TriMesh {
                mesh: (
                    mesh.0.clone(),
                    mesh.1.clone(),
                    match &mesh.2 {
                        Some(uv) => Some(uv.clone()),
                        None => None,
                    },
                ),
            },
            Shape::Triangle { a, b, c } => Shape::Triangle { a: *a, b: *b, c: *c },
        }
    }
}

impl Shape {
    /// The engine-facing handle for this shape: a validated, shareable
    /// carrier of the same shape data.
    pub fn handle(&self) -> (r: ShapeHandle)
        ensures
            r.0 == *self,
    {
        ShapeHandle(self.clone())
    }
}

/// A shareable handle to a collision shape, as handed to the engine-facing
/// store when a collider is built.
#[derive(Debug)]
pub struct ShapeHandle(pub Shape);

impl Clone for ShapeHandle {
    /// An exact copy of the handle and the shape it carries.
    fn clone(&self) -> (r: ShapeHandle)
        ensures
            r == *self,
    {
        ShapeHandle(self.0.clone())
    }
}

/// Collision filter groups: bit masks of group memberships, of groups to
/// collide with, and of groups never to collide with.
#[derive(Clone, Copy, Debug, PartialEq, Eq, Structural)]
pub struct CollisionGroups {
    pub membership: u32,
    pub whitelist: u32,
    pub blacklist: u32,
}

/// The mask covering every collision group.
pub const ALL_GROUPS: u32 = 0x1FFF_FFFF;

impl CollisionGroups {
    /// Groups interacting with everything: member of every group, every
    /// group whitelisted, nothing blacklisted.
    pub fn new() -> (r: CollisionGroups)
        ensures
            r == CollisionGroups::default_spec(),
    {
        CollisionGroups { membership: ALL_GROUPS, whitelist: ALL_GROUPS, blacklist: 0 }
    }

    /// The default groups, as a specification value.
    pub open spec fn default_spec() -> CollisionGroups {
        CollisionGroups { membership: 0x1FFF_FFFF, whitelist: 0x1FFF_FFFF, blacklist: 0 }
    }
}

impl Default for CollisionGroups {
    /// Same as [`CollisionGroups::new`].
    fn default() -> (r: CollisionGroups)
        ensures
            r == CollisionGroups::default_spec(),
    {
        CollisionGroups::new()
    }
}

/// A contact material: restitution and friction coefficients.
#[derive(Clone, Copy, Debug, PartialEq, Eq, Structural)]
pub struct BasicMaterial {
    pub restitution: i64,
    pub friction: i64,
}

impl BasicMaterial {
    /// A material with the given restitution and friction.
    pub fn new(restitution: i64, friction: i64) -> (r: BasicMaterial)
        ensures
            r == (BasicMaterial { restitution, friction }),
    {
        BasicMaterial { restitution, friction }
    }

    /// The default material, as a specification value: no restitution,
    /// friction one half.
    pub open spec fn default_spec() -> BasicMaterial {
        BasicMaterial { restitution: 0, friction: 500_000 }
    }
}

impl Default for BasicMaterial {
    /// No restitution, friction one half.
    fn default() -> (r: BasicMaterial)
        ensures
            r == BasicMaterial::default_spec(),
    {
        BasicMaterial { restitution: 0, friction: 500_000 }
    }
}

/// A shareable handle to a contact material.
#[derive(Clone, Copy, Debug, PartialEq, Eq, Structural)]
pub struct MaterialHandle(pub BasicMaterial);

impl MaterialHandle {
    /// Wraps a material in a handle.
    pub fn new(material: BasicMaterial) -> (r: MaterialHandle)
        ensures
            r == MaterialHandle(material),
    {
        MaterialHandle(material)
    }
}

/// The collider component: describes an engine collider owned by an
/// entity, together with how it attaches to its parent.
#[derive(Debug)]
pub struct PhysicsCollider {
    /// The engine handle, filled in by the collider synchronization stage.
    pub handle: Option<ColliderHandle>,
    pub shape: Shape,
    /// Placement relative to the parent body part, or — for colliders that
    /// attach to ground — relative to the entity's own pose.
    pub offset_from_parent: Isometry,
    pub density: i64,
    pub material: MaterialHandle,
    pub margin: i64,
    pub collision_groups: CollisionGroups,
    pub linear_prediction: i64,
    pub angular_prediction: i64,
    pub sensor: bool,
}

impl Clone for PhysicsCollider {
    /// An exact copy of the component.
    fn clone(&self) -> (r: PhysicsCollider)
        ensures
            r == *self,
    {
        PhysicsCollider {
            handle: self.handle,
            shape: self.shape.clone(),
            offset_from_parent: self.offset_from_parent,
            density: self.density,
            material: self.material,
            margin: self.margin,
            collision_groups: self.collision_groups,
            linear_prediction: self.linear_prediction,
            angular_prediction: self.angular_prediction,
            sensor: self.sensor,
        }
    }
}

impl PhysicsCollider {
    /// The engine-facing handle for this collider's shape.
    pub fn shape_handle(&self) -> (r: ShapeHandle)
        ensures
            r.0 == self.shape,
    {
        self.shape.handle()
    }
}

/// Builder for [`PhysicsCollider`] components, starting from sane
/// defaults: density 1.3, margin 0.2, a small linear prediction and an
/// angular prediction of about five degrees.
pub struct PhysicsColliderBuilder {
    pub shape: Shape,
    pub offset_from_parent: Isometry,
    pub density: i64,
    pub material: MaterialHandle,
    pub margin: i64,
    pub collision_groups: CollisionGroups,
    pub linear_prediction: i64,
    pub angular_prediction: i64,
    pub sensor: bool,
}

impl From<Shape> for PhysicsColliderBuilder {
    /// Same as [`PhysicsColliderBuilder::from_shape`].
    fn from(shape: Shape) -> (r: PhysicsColliderBuilder) {
        PhysicsColliderBuilder::from_shape(shape)
    }
}

impl vstd::std_specs::convert::FromSpecImpl<Shape> for PhysicsColliderBuilder {
    open spec fn obeys_from_spec() -> bool {
        true
    }

    open spec fn from_spec(shape: Shape) -> PhysicsColliderBuilder {
        PhysicsColliderBuilder {
            shape,
            offset_from_parent: Isometry::identity_spec(),
            density: 1_300_000,
            material: MaterialHandle(BasicMaterial::default_spec()),
            margin: 200_000,
            collision_groups: CollisionGroups::default_spec(),
            linear_prediction: 2_000,
            angular_prediction: 87_266,
            sensor: false,
        }
    }
}

impl PhysicsColliderBuilder {
    /// A builder for a collider with the given shape and default values
    /// for everything else.
    pub fn from_shape(shape: Shape) -> (r: PhysicsColliderBuilder)
        ensures
            r.shape == shape,
            r.offset_from_parent == Isometry::identity_spec(),
            r.density == 1_300_000int,
            r.material == MaterialHandle(BasicMaterial::default_spec()),
            r.margin == 200_000int,
            r.collision_groups == CollisionGroups::default_spec(),
            r.linear_prediction == 2_000int,
            r.angular_prediction == 87_266int,
            r.sensor == false,
    {
        PhysicsColliderBuilder {
            shape,
            offset_from_parent: Isometry::identity(),
            density: 1_300_000,
            material: MaterialHandle::new(BasicMaterial::default()),
            margin: 200_000,
            collision_groups: CollisionGroups::default(),
            linear_prediction: 2_000,
            angular_prediction: 87_266,
            sensor: false,
        }
    }

    /// Sets the `offset_from_parent` value.
    pub fn offset_from_parent(self, offset_from_parent: Isometry) -> (r: PhysicsColliderBuilder)
        ensures
            r == (PhysicsColliderBuilder { offset_from_parent, ..self }),
    {
        PhysicsColliderBuilder { offset_from_parent, ..self }
    }

    /// Sets the `density` value.
    pub fn density(self, density: i64) -> (r: PhysicsColliderBuilder)
        ensures
            r == (PhysicsColliderBuilder { density, ..self }),
    {
        PhysicsColliderBuilder { density, ..self }
    }

    /// Sets the `material` value.
    pub fn material(self, material: MaterialHandle) -> (r: PhysicsColliderBuilder)
        ensures
            r == (PhysicsColliderBuilder { material, ..self }),
    {
        PhysicsColliderBuilder { material, ..self }
    }

    /// Sets the `margin` value.
    pub fn margin(self, margin: i64) -> (r: PhysicsColliderBuilder)
        ensures
            r == (PhysicsColliderBuilder { margin, ..self }),
    {
        PhysicsColliderBuilder { margin, ..self }
    }

    /// Sets the `collision_groups` value.
    pub fn collision_groups(self, collision_groups: CollisionGroups) -> (r: PhysicsColliderBuilder)
        ensures
            r == (PhysicsColliderBuilder { collision_groups, ..self }),
    {
        PhysicsColliderBuilder { collision_groups, ..self }
    }

    /// Sets the `linear_prediction` value.
    pub fn linear_prediction(self, linear_prediction: i64) -> (r: PhysicsColliderBuilder)
        ensures
            r == (PhysicsColliderBuilder { linear_prediction, ..self }),
    {
        PhysicsColliderBuilder { linear_prediction, ..self }
    }

    /// Sets the `angular_prediction` value.
    pub fn angular_prediction(self, angular_prediction: i64) -> (r: PhysicsColliderBuilder)
        ensures
            r == (PhysicsColliderBuilder { angular_prediction, ..self }),
    {
        PhysicsColliderBuilder { angular_prediction, ..self }
    }

    /// Sets the `sensor` value.
    pub fn sensor(self, sensor: bool) -> (r: PhysicsColliderBuilder)
        ensures
            r == (PhysicsColliderBuilder { sensor, ..self }),
    {
        PhysicsColliderBuilder { sensor, ..self }
    }

    /// Builds the component from the values set on the builder. The handle
    /// starts empty.
    pub fn build(self) -> (r: PhysicsCollider)
        ensures
            r.handle is None,
            r.shape == self.shape,
            r.offset_from_parent == self.offset_from_parent,
            r.density == self.density,
            r.material == self.material,
            r.margin == self.margin,
            r.collision_groups == self.collision_groups,
            r.linear_prediction == self.linear_prediction,
            r.angular_prediction == self.angular_prediction,
            r.sensor == self.sensor,
    {
        PhysicsCollider {
            handle: None,
            shape: self.shape,
            offset_from_parent: self.offset_from_parent,
            density: self.density,
            material: self.material,
            margin: self.margin,
            collision_groups: self.collision_groups,
            linear_prediction: self.linear_prediction,
            angular_prediction: self.angular_prediction,
            sensor: self.sensor,
        }
    }
}

/// Whether a collider takes part in contact resolution or only reports
/// proximities.
#[derive(Clone, Copy, Debug, PartialEq, Eq, Structural)]
pub enum ColliderType {
    /// An ordinary collider: contacts are computed and resolved.
    Collider,
    /// A trigger: only proximity events are reported.
    Trigger,
}

impl Default for ColliderType {
    /// An ordinary collider.
    fn default() -> (r: ColliderType)
        ensures
            r == ColliderType::Collider,
    {
        ColliderType::Collider
    }
}

/// The kind of geometric query the engine runs for a collider, with its
/// prediction margins.
#[derive(Clone, Copy, Debug, PartialEq, Eq, Structural)]
pub enum GeometricQueryType {
    /// Contact computation with the given linear and angular prediction.
    Contacts(i64, i64),
    /// Proximity detection with the given margin.
    Proximity(i64),
}

impl ColliderType {
    /// The engine query for a collider of this type: contacts predicted at
    /// the margin plus half the linear prediction, or proximity at half
    /// the linear prediction.
    pub fn to_geometric_query_type(
        &self,
        margin: i64,
        prediction: i64,
        angular_prediction: i64,
    ) -> (r: GeometricQueryType)
        requires
            prediction >= 0,
            margin + prediction / 2 <= i64::MAX,
        ensures
            *self is Collider ==> r == GeometricQueryType::Contacts(
                (margin + prediction / 2) as i64,
                angular_prediction,
            ),
            *self is Trigger ==> r == GeometricQueryType::Proximity((prediction / 2) as i64),
    {
        match *self {
            ColliderType::Collider => GeometricQueryType::Contacts(
                margin + prediction / 2,
                angular_prediction,
            ),
            ColliderType::Trigger => GeometricQueryType::Proximity(prediction / 2),
        }
    }
}

/// A collider component in the builder-centred flavour: the shape is held
/// by handle, and the query type chooses between contacts and proximity.
#[derive(Clone, Debug)]
pub struct Collider {
    /// The engine handle, filled in when the collider is created there.
    pub handle: Option<ColliderHandle>,
    /// Changing the margin after the collider is created has no effect.
    pub margin: i64,
    pub shape: ShapeHandle,
    pub offset_from_parent: Isometry,
    pub physics_material: BasicMaterial,
    pub collision_group: u32,
    pub query_type: ColliderType,
}

/// Builder for [`Collider`] values, starting from a shape handle and sane
/// defaults: margin 0.01, identity offset, contact queries.
pub struct ColliderBuilder {
    pub margin: i64,
    pub shape: ShapeHandle,
    pub offset_from_parent: Isometry,
    pub physics_material: BasicMaterial,
    pub collision_group: u32,
    pub query_type: ColliderType,
}

impl From<ShapeHandle> for ColliderBuilder {
    /// Same as [`ColliderBuilder::from_shape_handle`].
    fn from(shape: ShapeHandle) -> (r: ColliderBuilder) {
        ColliderBuilder::from_shape_handle(shape)
    }
}

impl vstd::std_specs::convert::FromSpecImpl<ShapeHandle> for ColliderBuilder {
    open spec fn obeys_from_spec() -> bool {
        true
    }

    open spec fn from_spec(shape: ShapeHandle) -> ColliderBuilder {
        ColliderBuilder {
            margin: 10_000,
            shape,
            offset_from_parent: Isometry::identity_spec(),
            physics_material: BasicMaterial::default_spec(),
            collision_group: 0,
            query_type: ColliderType::Collider,
        }
    }
}

impl ColliderBuilder {
    /// A builder for a collider with the given shape and default values
    /// for everything else.
    pub fn from_shape_handle(shape: ShapeHandle) -> (r: ColliderBuilder)
        ensures
            r.shape == shape,
            r.margin == 10_000int,
            r.offset_from_parent == Isometry::identity_spec(),
            r.physics_material == BasicMaterial::default_spec(),
            r.collision_group == 0u32,
            r.query_type == ColliderType::Collider,
    {
        ColliderBuilder {
            margin: 10_000,
            shape,
            offset_from_parent: Isometry::identity(),
            physics_material: BasicMaterial::default(),
            collision_group: 0,
            query_type: ColliderType::Collider,
        }
    }

    /// Makes the collider a trigger: it reports proximities and takes no
    /// part in contact resolution.
    pub fn trigger(self) -> (r: ColliderBuilder)
        ensures
            r == (ColliderBuilder { query_type: ColliderType::Trigger, ..self }),
    {
        ColliderBuilder { query_type: ColliderType::Trigger, ..self }
    }

    /// Sets the `margin` value.
    pub fn margin(self, margin: i64) -> (r: ColliderBuilder)
        ensures
            r == (ColliderBuilder { margin, ..self }),
    {
        ColliderBuilder { margin, ..self }
    }

    /// Sets the `offset_from_parent` value.
    pub fn offset_from_parent(self, offset_from_parent: Isometry) -> (r: ColliderBuilder)
        ensures
            r == (ColliderBuilder { offset_from_parent, ..self }),
    {
        ColliderBuilder { offset_from_parent, ..self }
    }

    /// Builds the collider from the values set on the builder. The handle
    /// starts empty.
    pub fn build(self) -> (r: Collider)
        ensures
            r.handle is None,
            r.margin == self.margin,
            r.shape == self.shape,
            r.offset_from_parent == self.offset_from_parent,
            r.physics_material == self.physics_material,
            r.collision_group == self.collision_group,
            r.query_type == self.query_type,
    {
        Collider {
            handle: None,
            margin: self.margin,
            shape: self.shape,
            offset_from_parent: self.offset_from_parent,
            physics_material: self.physics_material,
            collision_group: self.collision_group,
            query_type: self.query_type,
        }
    }
}

} // verus!
