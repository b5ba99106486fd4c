//! Building physics entities component by component.
//!
//! An [`EntityBuilder`] collects the components a new physics entity
//! should carry — pose, body, collider, parent reference — and commits
//! them to the storages in one step, adding the body-kind marker along
//! the way.

use vstd::prelude::*;
use crate::bodies::{PhysicsBody, RigidBodyMarker};
use crate::colliders::PhysicsCollider;
use crate::handle::PhysicsParent;
use crate::pose::SimplePosition;
use crate::storage::FlaggedStorage;

verus! {

/// Extension methods for attaching physics objects while building an
/// entity.
pub trait EntityBuilderExt: Sized {
    /// What attaching a body yields.
    spec fn spec_with_body(self, body: PhysicsBody) -> Self;

    /// What attaching a collider yields.
    spec fn spec_with_collider(self, collider: PhysicsCollider) -> Self;

    /// Attaches a body to the entity being built.
    fn with_body(self, body: PhysicsBody) -> (r: Self)
        ensures
            r == self.spec_with_body(body),
    ;

    /// Attaches a collider to the entity being built, pointing at part
    /// zero of the entity's body — the body itself, for bodies without
    /// parts.
    fn with_collider(self, collider: PhysicsCollider) -> (r: Self)
        ensures
            r == self.spec_with_collider(collider),
    ;
}

/// The components collected for one new physics entity.
pub struct EntityBuilder {
    pub entity: u32,
    pub position: Option<SimplePosition>,
    pub body: Option<PhysicsBody>,
    pub collider: Option<PhysicsCollider>,
    pub parent: Option<PhysicsParent>,
}

impl EntityBuilder {
    /// Starts building components for entity `entity`.
    pub fn new(entity: u32) -> (r: EntityBuilder)
        ensures
            r.entity == entity,
            r.position is None,
            r.body is None,
            r.collider is None,
            r.parent is None,
    {
        EntityBuilder { entity, position: None, body: None, collider: None, parent: None }
    }

    /// Attaches a pose.
    pub fn with_position(self, position: SimplePosition) -> (r: EntityBuilder)
        ensures
            r == (EntityBuilder { position: Some(position), ..self }),
    {
        EntityBuilder { position: Some(position), ..self }
    }

    /// Attaches a parent reference.
    pub fn with_parent(self, parent: PhysicsParent) -> (r: EntityBuilder)
        ensures
            r == (EntityBuilder { parent: Some(parent), ..self }),
    {
        EntityBuilder { parent: Some(parent), ..self }
    }

    /// Commits the collected components to the storages: each present
    /// component is inserted for the entity, and a body brings its
    /// rigid-body marker with it. Storages of absent components are left
    /// alone.
    pub fn build(
        self,
        positions: &mut FlaggedStorage<SimplePosition>,
        bodies: &mut FlaggedStorage<PhysicsBody>,
        colliders: &mut FlaggedStorage<PhysicsCollider>,
        parents: &mut FlaggedStorage<PhysicsParent>,
        markers: &mut FlaggedStorage<RigidBodyMarker>,
    ) -> (entity: u32)
        requires
            old(positions).wf(),
            old(bodies).wf(),
            old(colliders).wf(),
            old(parents).wf(),
            old(markers).wf(),
        ensures
            entity == self.entity,
            final(positions).wf() && final(bodies).wf() && final(colliders).wf() && final(parents).wf() && final(markers).wf(),
            final(positions).spec_get(self.entity) == (if self.position is Some {
                self.position
            } else {
                old(positions).spec_get(self.entity)
            }),
            final(bodies).spec_get(self.entity) == (if self.body is Some {
                self.body
            } else {
                old(bodies).spec_get(self.entity)
            }),
            final(colliders).spec_get(self.entity) == (if self.collider is Some {
                self.collider
            } else {
                old(colliders).spec_get(self.entity)
            }),
            final(parents).spec_get(self.entity) == (if self.parent is Some {
                self.parent
            } else {
                old(parents).spec_get(self.entity)
            }),
            self.body is Some ==> final(markers).spec_get(self.entity) == Some(RigidBodyMarker),
            forall|x: u32|
                x != self.entity ==> final(positions).spec_get(x) == old(positions).spec_get(x)
                    && final(bodies).spec_get(x) == old(bodies).spec_get(x) && final(colliders).spec_get(x) == old(colliders).spec_get(x) && final(parents).spec_get(x) == old(parents).spec_get(x) && final(markers).spec_get(x) == old(markers).spec_get(x),
    {
        let entity = self.entity;
        match self.position {
            Some(position) => {
                let _ = positions.insert(entity, position);
            },
            None => {},
        }
        match self.body {
            Some(body) => {
                let _ = bodies.insert(entity, body);
                let _ = markers.insert(entity, RigidBodyMarker);
            },
            None => {},
        }
        match self.collider {
            Some(collider) => {
                let _ = colliders.insert(entity, collider);
            },
            None => {},
        }
        match self.parent {
            Some(parent) => {
                let _ = parents.insert(entity, parent);
            },
            None => {},
        }
        entity
    }
}

impl EntityBuilderExt for EntityBuilder {
    open spec fn spec_with_body(self, body: PhysicsBody) -> EntityBuilder {
        EntityBuilder { body: Some(body), ..self }
    }

    open spec fn spec_with_collider(self, collider: PhysicsCollider) -> EntityBuilder {
        EntityBuilder { collider: Some(collider), ..self }
    }

    fn with_body(self, body: PhysicsBody) -> (r: EntityBuilder) {
        EntityBuilder { body: Some(body), ..self }
    }

    fn with_collider(self, collider: PhysicsCollider) -> (r: EntityBuilder) {
        EntityBuilder { collider: Some(collider), ..self }
    }
}

} // verus!
