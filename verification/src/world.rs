//! The engine-facing object store and its per-entity wrapper.
//!
//! [`PhysicsWorld`] mirrors the state the synchronization layer owns in
//! the physics engine: bodies and colliders addressed by handles, the
//! simulation-wide parameters, and a step counter. The numerical work of
//! an engine — integration, contact solving — is out of scope here: what
//! is modelled is exactly the state the layer reads and writes through the
//! engine's interface.
//!
//! [`Physics`] couples a world with the two handle registries, and its
//! well-formedness ties them together: a registered body handle always
//! points at a live engine body stamped with its entity, and every stamped
//! live object is reachable through the registry.

use vstd::prelude::*;
use crate::bodies::{BodyStatus, Force, Velocity};
use crate::colliders::{CollisionGroups, MaterialHandle, ShapeHandle};
use crate::handle::{BodyHandle, BodyPartHandle, ColliderHandle, HandleMap};
use crate::index_map::IndexMap;
use crate::math::{Isometry, Matrix3, Point3, Vector3};

verus! {

broadcast use crate::index_map::IndexMap::lemma_negative_key_vacant;

/// Engine-side integration tuning, in fixed-point units.
#[derive(Clone, Copy, Debug, PartialEq, Eq, Structural)]
pub struct IntegrationParameters {
    pub erp: i64,
    pub warmstart_coeff: i64,
    pub restitution_velocity_threshold: i64,
    pub allowed_linear_error: i64,
    pub allowed_angular_error: i64,
    pub max_linear_correction: i64,
    pub max_angular_correction: i64,
    pub max_stabilization_multiplier: i64,
    pub max_velocity_iterations: usize,
    pub max_position_iterations: usize,
}

impl IntegrationParameters {
    /// The engine's stock tuning, as a specification value.
    pub open spec fn default_spec() -> IntegrationParameters {
        IntegrationParameters {
            erp: 200_000,
            warmstart_coeff: 1_000_000,
            restitution_velocity_threshold: 1_000_000,
            allowed_linear_error: 1_000,
            allowed_angular_error: 1_000,
            max_linear_correction: 100_000_000,
            max_angular_correction: 200_000,
            max_stabilization_multiplier: 200_000,
            max_velocity_iterations: 8,
            max_position_iterations: 3,
        }
    }
}

impl Default for IntegrationParameters {
    /// The engine's stock tuning.
    fn default() -> (r: IntegrationParameters)
        ensures
            r == IntegrationParameters::default_spec(),
    {
        IntegrationParameters {
            erp: 200_000,
            warmstart_coeff: 1_000_000,
            restitution_velocity_threshold: 1_000_000,
            allowed_linear_error: 1_000,
            allowed_angular_error: 1_000,
            max_linear_correction: 100_000_000,
            max_angular_correction: 200_000,
            max_stabilization_multiplier: 200_000,
            max_velocity_iterations: 8,
            max_position_iterations: 3,
        }
    }
}

/// A mass and angular-inertia pair, as passed to body creation.
#[derive(Clone, Copy, Debug, PartialEq, Eq, Structural)]
pub struct Inertia {
    pub linear: i64,
    pub angular: Matrix3,
}

impl Inertia {
    /// An inertia with the given mass and angular tensor.
    pub fn new(linear: i64, angular: Matrix3) -> (r: Inertia)
        ensures
            r == (Inertia { linear, angular }),
    {
        Inertia { linear, angular }
    }
}

/// A rigid body as the engine-facing store holds it.
#[derive(Clone, Copy, Debug)]
pub struct RigidBody {
    pub position: Isometry,
    pub velocity: Velocity,
    pub angular_inertia: Matrix3,
    pub mass: i64,
    pub local_center_of_mass: Point3,
    pub gravity_enabled: bool,
    pub status: BodyStatus,
    /// The entity index stamped on the body at creation, used to translate
    /// engine events back to entities.
    pub user_data: Option<u32>,
    /// The one-shot force most recently applied for the coming step.
    pub applied_force: Force,
}

/// Where a collider sits: at a fixed offset in its parent body part's
/// frame, or — for ground attachment — at the composition of the owning
/// entity's pose with the local offset, in the world frame. The pair
/// records exactly what the engine is told to compose, and
/// [`ColliderPosition::spec_isometry`] states the composed isometry it
/// denotes.
#[derive(Clone, Copy, Debug, PartialEq, Eq, Structural)]
pub enum ColliderPosition {
    OffsetFromParent(Isometry),
    GroundPlacement { base: Isometry, offset: Isometry },
}

impl ColliderPosition {
    /// The isometry a placement denotes, in the frame it attaches to: the
    /// local offset in the parent part's frame, or — for ground
    /// attachment — the composition of the entity's pose with the local
    /// offset, in the world frame.
    pub open spec fn spec_isometry(self) -> Isometry {
        match self {
            ColliderPosition::OffsetFromParent(offset) => offset,
            ColliderPosition::GroundPlacement { base, offset } => crate::math::spec_compose(
                base,
                offset,
            ),
        }
    }
}

/// A collider as the engine-facing store holds it.
#[derive(Clone, Debug)]
pub struct CollisionObject {
    pub shape: ShapeHandle,
    pub parent: BodyPartHandle,
    pub position: ColliderPosition,
    pub density: i64,
    pub material: MaterialHandle,
    pub margin: i64,
    pub collision_groups: CollisionGroups,
    pub linear_prediction: i64,
    pub angular_prediction: i64,
    pub sensor: bool,
    /// The entity index stamped on the collider at creation.
    pub user_data: Option<u32>,
}

/// Whether the handle sequence `hs` mentions the handle value `k`.
pub open spec fn handles_contain(hs: Seq<BodyHandle>, k: int) -> bool {
    exists|i: int| 0 <= i < hs.len() && hs[i].0 == k
}

/// Whether the collider-handle sequence `hs` mentions the handle value `k`.
pub open spec fn collider_handles_contain(hs: Seq<ColliderHandle>, k: int) -> bool {
    exists|i: int| 0 <= i < hs.len() && hs[i].0 == k
}

/// What becomes of a stored collider when the bodies in `hs` are removed:
/// colliders attached to a removed body go with it.
pub open spec fn cascade_removal(o: Option<CollisionObject>, hs: Seq<BodyHandle>) -> Option<
    CollisionObject,
> {
    match o {
        Some(co) => {
            if !co.parent.spec_is_ground() && handles_contain(hs, co.parent.set_handle.0 as int) {
                None
            } else {
                Some(co)
            }
        },
        None => None,
    }
}

/// The engine-facing object store: bodies and colliders by handle, plus
/// the simulation-wide parameters and the step counter.
pub struct PhysicsWorld {
    pub bodies: IndexMap<RigidBody>,
    pub colliders: IndexMap<CollisionObject>,
    pub next_body_handle: u32,
    pub next_collider_handle: u32,
    pub gravity: Vector3,
    pub timestep: u64,
    pub integration_parameters: IntegrationParameters,
    pub performance_counters_enabled: bool,
    pub step_count: u64,
}

impl PhysicsWorld {
    /// Stores well formed, and every handle at or beyond the allocation
    /// cursors vacant, so fresh handles never collide.
    pub open spec fn wf(self) -> bool {
        &&& self.bodies.wf()
        &&& self.colliders.wf()
        &&& forall|k: int| k >= self.next_body_handle ==> self.bodies.spec_get(k) is None
        &&& forall|k: int| k >= self.next_collider_handle ==> self.colliders.spec_get(k) is None
    }

    /// The body stored at handle value `k`, if any.
    pub open spec fn spec_body(self, k: int) -> Option<RigidBody> {
        self.bodies.spec_get(k)
    }

    /// The collider stored at handle value `k`, if any.
    pub open spec fn spec_collider(self, k: int) -> Option<CollisionObject> {
        self.colliders.spec_get(k)
    }

    /// How many bodies are live.
    pub open spec fn spec_body_count(self) -> nat {
        self.bodies.spec_len()
    }

    /// How many colliders are live.
    pub open spec fn spec_collider_count(self) -> nat {
        self.colliders.spec_len()
    }

    /// Whether a fresh body handle can still be allocated.
    pub open spec fn spec_can_add_body(self) -> bool {
        self.next_body_handle < u32::MAX
    }

    /// Whether a fresh collider handle can still be allocated.
    pub open spec fn spec_can_add_collider(self) -> bool {
        self.next_collider_handle < u32::MAX
    }

    /// An empty world: no objects, zero gravity, a sixtieth-of-a-second
    /// timestep, stock tuning.
    pub fn new() -> (r: PhysicsWorld)
        ensures
            r.wf(),
            r.spec_body_count() == 0,
            r.spec_collider_count() == 0,
            forall|k: int| r.spec_body(k) is None,
            forall|k: int| r.spec_collider(k) is None,
            r.gravity == (Vector3 { x: 0, y: 0, z: 0 }),
            r.timestep == 16_666_666u64,
            r.integration_parameters == IntegrationParameters::default_spec(),
            r.performance_counters_enabled == false,
            r.step_count == 0,
            r.next_body_handle == 0,
            r.next_collider_handle == 0,
    {
        PhysicsWorld {
            bodies: IndexMap::new(),
            colliders: IndexMap::new(),
            next_body_handle: 0,
            next_collider_handle: 0,
            gravity: Vector3::zeros(),
            timestep: 16_666_666,
            integration_parameters: IntegrationParameters::default(),
            performance_counters_enabled: false,
            step_count: 0,
        }
    }

    /// Stores a fresh body and returns its handle.
    pub fn insert_body(&mut self, body: RigidBody) -> (h: BodyHandle)
        requires
            old(self).wf(),
            old(self).spec_can_add_body(),
        ensures
            final(self).wf(),
            h.0 == old(self).next_body_handle,
            h.0 < u32::MAX,
            old(self).spec_body(h.0 as int) is None,
            final(self).spec_body(h.0 as int) == Some(body),
            forall|k: int| k != h.0 as int ==> final(self).spec_body(k) == old(self).spec_body(k),
            final(self).spec_body_count() == old(self).spec_body_count() + 1,
            final(self).next_body_handle == old(self).next_body_handle + 1,
            *final(self) == (PhysicsWorld {
                bodies: final(self).bodies,
                next_body_handle: final(self).next_body_handle,
                ..*old(self)
            }),
    {
        let h = self.next_body_handle;
        self.next_body_handle = self.next_body_handle + 1;
        let _ = self.bodies.insert(h, body);
        BodyHandle(h)
    }

    /// Creates a dynamic body at `position` with the given inertia and
    /// local centre of mass, and returns its handle: the plain body
    /// creation call of the engine interface.
    pub fn add_rigid_body(
        &mut self,
        position: Isometry,
        inertia: Inertia,
        local_center_of_mass: Point3,
    ) -> (h: BodyHandle)
        requires
            old(self).wf(),
            old(self).spec_can_add_body(),
        ensures
            final(self).wf(),
            h.0 == old(self).next_body_handle,
            old(self).spec_body(h.0 as int) is None,
            final(self).spec_body(h.0 as int) == Some(
                RigidBody {
                    position,
                    velocity: Velocity::zero_spec(),
                    angular_inertia: inertia.angular,
                    mass: inertia.linear,
                    local_center_of_mass,
                    gravity_enabled: true,
                    status: crate::bodies::BodyStatus::Dynamic,
                    user_data: None,
                    applied_force: Force::zero_spec(),
                },
            ),
            forall|k: int| k != h.0 as int ==> final(self).spec_body(k) == old(self).spec_body(k),
            final(self).spec_body_count() == old(self).spec_body_count() + 1,
            *final(self) == (PhysicsWorld {
                bodies: final(self).bodies,
                next_body_handle: final(self).next_body_handle,
                ..*old(self)
            }),
    {
        self.insert_body(
            RigidBody {
                position,
                velocity: Velocity::zero(),
                angular_inertia: inertia.angular,
                mass: inertia.linear,
                local_center_of_mass,
                gravity_enabled: true,
                status: crate::bodies::BodyStatus::Dynamic,
                user_data: None,
                applied_force: Force::zero(),
            },
        )
    }

    /// The body at `handle`, if it is live.
    pub fn rigid_body(&self, handle: BodyHandle) -> (r: Option<&RigidBody>)
        ensures
            match r {
                Some(b) => self.spec_body(handle.0 as int) == Some(*b),
                None => self.spec_body(handle.0 as int) is None,
            },
    {
        self.bodies.get(handle.0)
    }

    /// Replaces the body at `handle` if it is live; returns whether it was.
    pub fn set_rigid_body(&mut self, handle: BodyHandle, body: RigidBody) -> (r: bool)
        requires
            old(self).wf(),
        ensures
            final(self).wf(),
            r == old(self).spec_body(handle.0 as int) is Some,
            r ==> final(self).spec_body(handle.0 as int) == Some(body),
            !r ==> *final(self) == *old(self),
            forall|k: int|
                k != handle.0 as int ==> final(self).spec_body(k) == old(self).spec_body(k),
            final(self).spec_body_count() == old(self).spec_body_count(),
            *final(self) == (PhysicsWorld { bodies: final(self).bodies, ..*old(self) }),
    {
        if self.bodies.contains_key(handle.0) {
            let _ = self.bodies.insert(handle.0, body);
            true
        } else {
            false
        }
    }

    /// Removes the listed bodies. A collider attached to a removed body is
    /// removed with it; removal of an absent handle changes nothing.
    pub fn remove_bodies(&mut self, handles: &Vec<BodyHandle>)
        requires
            old(self).wf(),
        ensures
            final(self).wf(),
            forall|k: int|
                final(self).spec_body(k) == (if handles_contain(handles@, k) {
                    None::<RigidBody>
                } else {
                    old(self).spec_body(k)
                }),
            forall|k: int|
                final(self).spec_collider(k) == cascade_removal(old(self).spec_collider(k), handles@),
            handles@.len() == 1 ==> final(self).spec_body_count() == old(self).spec_body_count() - (
            if old(self).spec_body(handles@[0].0 as int) is Some {
                1nat
            } else {
                0nat
            }),
            *final(self) == (PhysicsWorld {
                bodies: final(self).bodies,
                colliders: final(self).colliders,
                ..*old(self)
            }),
    {
        let ghost orig = *self;
        let mut i: usize = 0;
        while i < handles.len()
            invariant
                self.wf(),
                orig.wf(),
                i <= handles@.len(),
                forall|k: int|
                    self.spec_body(k) == (if handles_contain(handles@.take(i as int), k) {
                        None::<RigidBody>
                    } else {
                        orig.spec_body(k)
                    }),
                forall|k: int|
                    self.spec_collider(k) == cascade_removal(
                        orig.spec_collider(k),
                        handles@.take(i as int),
                    ),
                i == 0 ==> self.spec_body_count() == orig.spec_body_count(),
                handles@.len() == 1 && i == 1 ==> self.spec_body_count() == orig.spec_body_count()
                    - (if orig.spec_body(handles@[0].0 as int) is Some {
                    1nat
                } else {
                    0nat
                }),
                *self == (PhysicsWorld {
                    bodies: self.bodies,
                    colliders: self.colliders,
                    ..orig
                }),
            decreases handles@.len() - i,
        {
            let h = handles[i];
            let ghost pre = *self;
            let _ = self.bodies.remove(h.0);
            self.cascade_remove_colliders(h);
            proof {
                assert(handles@.take(i + 1).drop_last() =~= handles@.take(i as int));
                assert(handles@.take(i + 1).last() == handles@[i as int]);
                assert forall|k: int|
                    handles_contain(handles@.take(i + 1), k) == (handles_contain(
                        handles@.take(i as int),
                        k,
                    ) || k == h.0 as int) by {
                    let s1 = handles@.take(i + 1);
                    let s0 = handles@.take(i as int);
                    if handles_contain(s1, k) {
                        let ix = choose|ix: int| 0 <= ix < s1.len() && s1[ix].0 == k;
                        if ix < i {
                            assert(s0[ix].0 == k);
                            assert(handles_contain(s0, k));
                        } else {
                            assert(s1[ix] == handles@[i as int]);
                        }
                    }
                    if handles_contain(s0, k) {
                        let ix = choose|ix: int| 0 <= ix < s0.len() && s0[ix].0 == k;
                        assert(s1[ix].0 == k);
                        assert(handles_contain(s1, k));
                    }
                    if k == h.0 as int {
                        assert(s1[i as int].0 == k);
                        assert(handles_contain(s1, k));
                    }
                }
                assert forall|k: int|
                    self.spec_body(k) == (if handles_contain(handles@.take(i + 1), k) {
                        None::<RigidBody>
                    } else {
                        orig.spec_body(k)
                    }) by {
                    assert(pre.spec_body(k) == (if handles_contain(handles@.take(i as int), k) {
                        None::<RigidBody>
                    } else {
                        orig.spec_body(k)
                    }));
                }
                assert forall|k: int|
                    self.spec_collider(k) == cascade_removal(
                        orig.spec_collider(k),
                        handles@.take(i + 1),
                    ) by {
                    assert(pre.spec_collider(k) == cascade_removal(
                        orig.spec_collider(k),
                        handles@.take(i as int),
                    ));
                    assert(self.spec_collider(k) == cascade_removal(
                        pre.spec_collider(k),
                        seq![h],
                    ));
                    assert forall|x: int| handles_contain(seq![h], x) implies x == h.0 as int by {
                        let ix = choose|ix: int| 0 <= ix < seq![h].len() && seq![h][ix].0 == x;
                        assert(ix == 0);
                        assert(seq![h][0] == h);
                    }
                    assert(seq![h][0] == h);
                    assert(handles_contain(seq![h], h.0 as int));
                }
                if handles@.len() == 1 {
                    assert(!handles_contain(handles@.take(i as int), h.0 as int));
                    assert(pre.spec_body(h.0 as int) == orig.spec_body(h.0 as int));
                    assert(self.spec_body_count() == orig.spec_body_count() - (
                    if orig.spec_body(handles@[0].0 as int) is Some {
                        1nat
                    } else {
                        0nat
                    }));
                }
            }
            i = i + 1;
        }
        proof {
            assert(handles@.take(handles@.len() as int) =~= handles@);
        }
    }

    /// Removes every collider attached to `parent`; bodies and parameters
    /// are untouched.
    fn cascade_remove_colliders(&mut self, parent: BodyHandle)
        requires
            old(self).wf(),
        ensures
            final(self).wf(),
            forall|k: int|
                final(self).spec_collider(k) == cascade_removal(
                    old(self).spec_collider(k),
                    seq![parent],
                ),
            *final(self) == (PhysicsWorld { colliders: final(self).colliders, ..*old(self) }),
    {
        let ghost orig = *self;
        let bound = self.colliders.key_bound();
        proof {
            assert(forall|k: int| k >= bound ==> orig.spec_collider(k) is None);
        }
        let mut c: usize = 0;
        while c < bound
            invariant
                self.wf(),
                orig.wf(),
                c <= bound,
                forall|k: int| k >= bound ==> orig.spec_collider(k) is None,
                forall|k: int|
                    0 <= k < c ==> self.spec_collider(k) == cascade_removal(
                        orig.spec_collider(k),
                        seq![parent],
                    ),
                forall|k: int| k >= c ==> self.spec_collider(k) == orig.spec_collider(k),
                forall|k: int| k < 0 ==> self.spec_collider(k) == orig.spec_collider(k),
                *self == (PhysicsWorld { colliders: self.colliders, ..orig }),
            decreases bound - c,
        {
            let doomed: bool = match self.colliders.get(c as u32) {
                Some(co) => !co.parent.is_ground() && co.parent.set_handle.0 == parent.0,
                None => false,
            };
            if doomed {
                let _ = self.colliders.remove(c as u32);
            }
            proof {
                assert(seq![parent][0] == parent);
                assert(handles_contain(seq![parent], parent.0 as int));
                assert forall|k: int| handles_contain(seq![parent], k) implies k
                    == parent.0 as int by {
                    let ix = choose|ix: int|
                        0 <= ix < seq![parent].len() && seq![parent][ix].0 == k;
                    assert(ix == 0);
                }
            }
            c = c + 1;
        }
        proof {
            assert forall|k: int|
                self.spec_collider(k) == cascade_removal(
                    orig.spec_collider(k),
                    seq![parent],
                ) by {
                if 0 <= k < bound {
                } else {
                    assert(self.spec_collider(k) == orig.spec_collider(k));
                    assert(orig.spec_collider(k) is None);
                }
            }
        }
    }

    /// Stores a fresh collider and returns its handle.
    pub fn insert_collider(&mut self, collider: CollisionObject) -> (h: ColliderHandle)
        requires
            old(self).wf(),
            old(self).spec_can_add_collider(),
        ensures
            final(self).wf(),
            h.0 == old(self).next_collider_handle,
            final(self).next_collider_handle == old(self).next_collider_handle + 1,
            old(self).spec_collider(h.0 as int) is None,
            final(self).spec_collider(h.0 as int) == Some(collider),
            forall|k: int|
                k != h.0 as int ==> final(self).spec_collider(k) == old(self).spec_collider(k),
            final(self).spec_collider_count() == old(self).spec_collider_count() + 1,
            *final(self) == (PhysicsWorld {
                colliders: final(self).colliders,
                next_collider_handle: final(self).next_collider_handle,
                ..*old(self)
            }),
    {
        let h = self.next_collider_handle;
        self.next_collider_handle = self.next_collider_handle + 1;
        let _ = self.colliders.insert(h, collider);
        ColliderHandle(h)
    }

    /// The collider at `handle`, if it is live.
    pub fn collider(&self, handle: ColliderHandle) -> (r: Option<&CollisionObject>)
        ensures
            match r {
                Some(co) => self.spec_collider(handle.0 as int) == Some(*co),
                None => self.spec_collider(handle.0 as int) is None,
            },
    {
        self.colliders.get(handle.0)
    }

    /// Removes the listed colliders; removal of an absent handle changes
    /// nothing.
    pub fn remove_colliders(&mut self, handles: &Vec<ColliderHandle>)
        requires
            old(self).wf(),
        ensures
            final(self).wf(),
            forall|k: int|
                final(self).spec_collider(k) == (if collider_handles_contain(handles@, k) {
                    None::<CollisionObject>
                } else {
                    old(self).spec_collider(k)
                }),
            handles@.len() == 1 ==> final(self).spec_collider_count()
                == old(self).spec_collider_count() - (if old(self).spec_collider(
                handles@[0].0 as int,
            ) is Some {
                1nat
            } else {
                0nat
            }),
            *final(self) == (PhysicsWorld { colliders: final(self).colliders, ..*old(self) }),
    {
        let ghost orig = *self;
        let mut i: usize = 0;
        while i < handles.len()
            invariant
                self.wf(),
                orig.wf(),
                i <= handles@.len(),
                forall|k: int|
                    self.spec_collider(k) == (if collider_handles_contain(
                        handles@.take(i as int),
                        k,
                    ) {
                        None::<CollisionObject>
                    } else {
                        orig.spec_collider(k)
                    }),
                i == 0 ==> self.spec_collider_count() == orig.spec_collider_count(),
                handles@.len() == 1 && i == 1 ==> self.spec_collider_count()
                    == orig.spec_collider_count() - (if orig.spec_collider(
                    handles@[0].0 as int,
                ) is Some {
                    1nat
                } else {
                    0nat
                }),
                *self == (PhysicsWorld { colliders: self.colliders, ..orig }),
            decreases handles@.len() - i,
        {
            let h = handles[i];
            let ghost pre = *self;
            let _ = self.colliders.remove(h.0);
            proof {
                assert(handles@.take(i + 1).drop_last() =~= handles@.take(i as int));
                assert(handles@.take(i + 1).last() == handles@[i as int]);
                assert forall|k: int|
                    collider_handles_contain(handles@.take(i + 1), k) == (collider_handles_contain(
                        handles@.take(i as int),
                        k,
                    ) || k == h.0 as int) by {
                    let s1 = handles@.take(i + 1);
                    let s0 = handles@.take(i as int);
                    if collider_handles_contain(s1, k) {
                        let ix = choose|ix: int| 0 <= ix < s1.len() && s1[ix].0 == k;
                        if ix < i {
                            assert(s0[ix].0 == k);
                            assert(collider_handles_contain(s0, k));
                        } else {
                            assert(s1[ix] == handles@[i as int]);
                        }
                    }
                    if collider_handles_contain(s0, k) {
                        let ix = choose|ix: int| 0 <= ix < s0.len() && s0[ix].0 == k;
                        assert(s1[ix].0 == k);
                        assert(collider_handles_contain(s1, k));
                    }
                    if k == h.0 as int {
                        assert(s1[i as int].0 == k);
                        assert(collider_handles_contain(s1, k));
                    }
                }
                assert forall|k: int|
                    self.spec_collider(k) == (if collider_handles_contain(
                        handles@.take(i + 1),
                        k,
                    ) {
                        None::<CollisionObject>
                    } else {
                        orig.spec_collider(k)
                    }) by {
                    assert(pre.spec_collider(k) == (if collider_handles_contain(
                        handles@.take(i as int),
                        k,
                    ) {
                        None::<CollisionObject>
                    } else {
                        orig.spec_collider(k)
                    }));
                }
                if handles@.len() == 1 {
                    assert(!collider_handles_contain(handles@.take(i as int), h.0 as int));
                    assert(pre.spec_collider(h.0 as int) == orig.spec_collider(h.0 as int));
                    assert(self.spec_collider_count() == orig.spec_collider_count() - (
                    if orig.spec_collider(handles@[0].0 as int) is Some {
                        1nat
                    } else {
                        0nat
                    }));
                }
            }
            i = i + 1;
        }
        proof {
            assert(handles@.take(handles@.len() as int) =~= handles@);
        }
    }

    /// Replaces the collider at `handle` in place — the handle survives —
    /// if it is live; returns whether it was.
    pub fn set_collider(&mut self, handle: ColliderHandle, collider: CollisionObject) -> (r: bool)
        requires
            old(self).wf(),
        ensures
            final(self).wf(),
            r == (old(self).spec_collider(handle.0 as int) is Some),
            r ==> final(self).spec_collider(handle.0 as int) == Some(collider),
            !r ==> final(self).spec_collider(handle.0 as int) is None,
            forall|k: int|
                k != handle.0 as int ==> final(self).spec_collider(k) == old(self).spec_collider(k),
            final(self).spec_collider_count() == old(self).spec_collider_count(),
            *final(self) == (PhysicsWorld { colliders: final(self).colliders, ..*old(self) }),
    {
        match self.colliders.remove(handle.0) {
            Some(_previous) => {
                let _ = self.colliders.insert(handle.0, collider);
                true
            },
            None => false,
        }
    }

    /// Sets the gravity vector applied to gravity-enabled bodies.
    pub fn set_gravity(&mut self, gravity: Vector3)
        ensures
            *final(self) == (PhysicsWorld { gravity, ..*old(self) }),
    {
        self.gravity = gravity;
    }

    /// The gravity vector currently in effect.
    pub fn gravity(&self) -> (r: Vector3)
        ensures
            r == self.gravity,
    {
        self.gravity
    }

    /// Configures the integration timestep, in nanoseconds.
    pub fn set_timestep(&mut self, timestep: u64)
        ensures
            *final(self) == (PhysicsWorld { timestep, ..*old(self) }),
    {
        self.timestep = timestep;
    }

    /// The configured integration timestep, in nanoseconds.
    pub fn timestep(&self) -> (r: u64)
        ensures
            r == self.timestep,
    {
        self.timestep
    }

    /// What one step does to the store: the counter advances and every
    /// object is left as it was — the numerical integration itself is the
    /// engine's own work, outside this crate.
    pub open spec fn spec_step(self) -> PhysicsWorld {
        PhysicsWorld { step_count: (self.step_count + 1) as u64, ..self }
    }

    /// The store after `n` steps.
    pub open spec fn spec_steps(self, n: nat) -> PhysicsWorld
        decreases n,
    {
        if n == 0 {
            self
        } else {
            self.spec_steps((n - 1) as nat).spec_step()
        }
    }

    /// Advances the simulation by one configured timestep. The numerical
    /// integration is the engine's own work; the store records that a step
    /// was taken.
    pub fn step(&mut self)
        requires
            old(self).step_count < u64::MAX,
        ensures
            *final(self) == old(self).spec_step(),
            *final(self) == (PhysicsWorld { step_count: (old(self).step_count + 1) as u64, ..*old(self) }),
    {
        self.step_count = self.step_count + 1;
    }

    /// How many steps have been taken since construction.
    pub fn step_count(&self) -> (r: u64)
        ensures
            r == self.step_count,
    {
        self.step_count
    }

    /// How many bodies are live.
    pub fn body_count(&self) -> (r: usize)
        requires
            self.wf(),
        ensures
            r == self.spec_body_count(),
    {
        self.bodies.len()
    }

    /// How many colliders are live.
    pub fn collider_count(&self) -> (r: usize)
        requires
            self.wf(),
        ensures
            r == self.spec_collider_count(),
    {
        self.colliders.len()
    }

    /// Turns engine profiling on.
    pub fn enable_performance_counters(&mut self)
        ensures
            *final(self) == (PhysicsWorld { performance_counters_enabled: true, ..*old(self) }),
    {
        self.performance_counters_enabled = true;
    }

    /// Turns engine profiling off.
    pub fn disable_performance_counters(&mut self)
        ensures
            *final(self) == (PhysicsWorld { performance_counters_enabled: false, ..*old(self) }),
    {
        self.performance_counters_enabled = false;
    }
}

impl Default for PhysicsWorld {
    /// Same as [`PhysicsWorld::new`].
    fn default() -> (r: PhysicsWorld)
        ensures
            r.wf(),
            r.spec_body_count() == 0,
            r.spec_collider_count() == 0,
            r.next_body_handle == 0,
            r.next_collider_handle == 0,
    {
        PhysicsWorld::new()
    }
}

/// Description of a rigid body to be created in the engine-facing store.
pub struct RigidBodyDesc {
    pub position: Isometry,
    pub velocity: Velocity,
    pub angular_inertia: Matrix3,
    pub mass: i64,
    pub local_center_of_mass: Point3,
    pub gravity_enabled: bool,
    pub status: BodyStatus,
    pub user_data: Option<u32>,
}

impl RigidBodyDesc {
    /// A description with neutral defaults: a dynamic body of unit mass at
    /// the origin.
    pub fn new() -> (r: RigidBodyDesc)
        ensures
            r.position == Isometry::identity_spec(),
            r.velocity == Velocity::zero_spec(),
            r.angular_inertia == Matrix3::zero_spec(),
            r.mass == 1_000_000int,
            r.local_center_of_mass == (Point3 { x: 0, y: 0, z: 0 }),
            r.gravity_enabled == true,
            r.status == BodyStatus::Dynamic,
            r.user_data is None,
    {
        RigidBodyDesc {
            position: Isometry::identity(),
            velocity: Velocity::zero(),
            angular_inertia: Matrix3::zeros(),
            mass: 1_000_000,
            local_center_of_mass: Point3::origin(),
            gravity_enabled: true,
            status: BodyStatus::Dynamic,
            user_data: None,
        }
    }

    /// Sets the initial position.
    pub fn position(self, position: Isometry) -> (r: RigidBodyDesc)
        ensures
            r == (RigidBodyDesc { position, ..self }),
    {
        RigidBodyDesc { position, ..self }
    }

    /// Sets the initial velocity.
    pub fn velocity(self, velocity: Velocity) -> (r: RigidBodyDesc)
        ensures
            r == (RigidBodyDesc { velocity, ..self }),
    {
        RigidBodyDesc { velocity, ..self }
    }

    /// Sets the angular inertia tensor.
    pub fn angular_inertia(self, angular_inertia: Matrix3) -> (r: RigidBodyDesc)
        ensures
            r == (RigidBodyDesc { angular_inertia, ..self }),
    {
        RigidBodyDesc { angular_inertia, ..self }
    }

    /// Sets the mass.
    pub fn mass(self, mass: i64) -> (r: RigidBodyDesc)
        ensures
            r == (RigidBodyDesc { mass, ..self }),
    {
        RigidBodyDesc { mass, ..self }
    }

    /// Sets the local centre of mass.
    pub fn local_center_of_mass(self, local_center_of_mass: Point3) -> (r: RigidBodyDesc)
        ensures
            r == (RigidBodyDesc { local_center_of_mass, ..self }),
    {
        RigidBodyDesc { local_center_of_mass, ..self }
    }

    /// Sets whether gravity acts on the body.
    pub fn gravity_enabled(self, gravity_enabled: bool) -> (r: RigidBodyDesc)
        ensures
            r == (RigidBodyDesc { gravity_enabled, ..self }),
    {
        RigidBodyDesc { gravity_enabled, ..self }
    }

    /// Sets the body status.
    pub fn status(self, status: BodyStatus) -> (r: RigidBodyDesc)
        ensures
            r == (RigidBodyDesc { status, ..self }),
    {
        RigidBodyDesc { status, ..self }
    }

    /// Stamps the body with the owning entity's index.
    pub fn user_data(self, data: u32) -> (r: RigidBodyDesc)
        ensures
            r == (RigidBodyDesc { user_data: Some(data), ..self }),
    {
        RigidBodyDesc { user_data: Some(data), ..self }
    }

    /// The body this description builds.
    pub open spec fn spec_body(self) -> RigidBody {
        RigidBody {
            position: self.position,
            velocity: self.velocity,
            angular_inertia: self.angular_inertia,
            mass: self.mass,
            local_center_of_mass: self.local_center_of_mass,
            gravity_enabled: self.gravity_enabled,
            status: self.status,
            user_data: self.user_data,
            applied_force: Force::zero_spec(),
        }
    }

    /// Creates the described body in the store and returns its handle.
    pub fn build(self, world: &mut PhysicsWorld) -> (h: BodyHandle)
        requires
            old(world).wf(),
            old(world).spec_can_add_body(),
        ensures
            final(world).wf(),
            h.0 < u32::MAX,
            h.0 == old(world).next_body_handle,
            final(world).next_body_handle == old(world).next_body_handle + 1,
            old(world).spec_body(h.0 as int) is None,
            final(world).spec_body(h.0 as int) == Some(self.spec_body()),
            forall|k: int| k != h.0 as int ==> final(world).spec_body(k) == old(world).spec_body(k),
            final(world).spec_body_count() == old(world).spec_body_count() + 1,
            *final(world) == (PhysicsWorld {
                bodies: final(world).bodies,
                next_body_handle: final(world).next_body_handle,
                ..*old(world)
            }),
    {
        let body = RigidBody {
            position: self.position,
            velocity: self.velocity,
            angular_inertia: self.angular_inertia,
            mass: self.mass,
            local_center_of_mass: self.local_center_of_mass,
            gravity_enabled: self.gravity_enabled,
            status: self.status,
            user_data: self.user_data,
            applied_force: Force::zero(),
        };
        world.insert_body(body)
    }
}

/// Description of a collider to be created in the engine-facing store.
pub struct ColliderDesc {
    pub shape: ShapeHandle,
    pub position: ColliderPosition,
    pub density: i64,
    pub material: MaterialHandle,
    pub margin: i64,
    pub collision_groups: CollisionGroups,
    pub linear_prediction: i64,
    pub angular_prediction: i64,
    pub sensor: bool,
    pub user_data: Option<u32>,
}

impl ColliderDesc {
    /// A description with the engine's stock collider defaults and the
    /// given shape.
    pub fn new(shape: ShapeHandle) -> (r: ColliderDesc)
        ensures
            r.shape == shape,
            r.position == ColliderPosition::OffsetFromParent(Isometry::identity_spec()),
            r.density == 0int,
            r.material == MaterialHandle(crate::colliders::BasicMaterial::default_spec()),
            r.margin == 10_000int,
            r.collision_groups == CollisionGroups::default_spec(),
            r.linear_prediction == 2_000int,
            r.angular_prediction == 87_266int,
            r.sensor == false,
            r.user_data is None,
    {
        ColliderDesc {
            shape,
            position: ColliderPosition::OffsetFromParent(Isometry::identity()),
            density: 0,
            material: MaterialHandle::new(crate::colliders::BasicMaterial::default()),
            margin: 10_000,
            collision_groups: CollisionGroups::default(),
            linear_prediction: 2_000,
            angular_prediction: 87_266,
            sensor: false,
            user_data: None,
        }
    }

    /// Sets the collider's placement.
    pub fn position(self, position: ColliderPosition) -> (r: ColliderDesc)
        ensures
            r == (ColliderDesc { position, ..self }),
    {
        ColliderDesc { position, ..self }
    }

    /// Sets the density.
    pub fn density(self, density: i64) -> (r: ColliderDesc)
        ensures
            r == (ColliderDesc { density, ..self }),
    {
        ColliderDesc { density, ..self }
    }

    /// Sets the material.
    pub fn material(self, material: MaterialHandle) -> (r: ColliderDesc)
        ensures
            r == (ColliderDesc { material, ..self }),
    {
        ColliderDesc { material, ..self }
    }

    /// Sets the collision margin.
    pub fn margin(self, margin: i64) -> (r: ColliderDesc)
        ensures
            r == (ColliderDesc { margin, ..self }),
    {
        ColliderDesc { margin, ..self }
    }

    /// Sets the collision groups.
    pub fn collision_groups(self, collision_groups: CollisionGroups) -> (r: ColliderDesc)
        ensures
            r == (ColliderDesc { collision_groups, ..self }),
    {
        ColliderDesc { collision_groups, ..self }
    }

    /// Sets the linear prediction margin.
    pub fn linear_prediction(self, linear_prediction: i64) -> (r: ColliderDesc)
        ensures
            r == (ColliderDesc { linear_prediction, ..self }),
    {
        ColliderDesc { linear_prediction, ..self }
    }

    /// Sets the angular prediction margin.
    pub fn angular_prediction(self, angular_prediction: i64) -> (r: ColliderDesc)
        ensures
            r == (ColliderDesc { angular_prediction, ..self }),
    {
        ColliderDesc { angular_prediction, ..self }
    }

    /// Sets whether the collider is a pure-proximity sensor.
    pub fn sensor(self, sensor: bool) -> (r: ColliderDesc)
        ensures
            r == (ColliderDesc { sensor, ..self }),
    {
        ColliderDesc { sensor, ..self }
    }

    /// Stamps the collider with the owning entity's index.
    pub fn user_data(self, data: u32) -> (r: ColliderDesc)
        ensures
            r == (ColliderDesc { user_data: Some(data), ..self }),
    {
        ColliderDesc { user_data: Some(data), ..self }
    }

    /// The collider this description builds under `parent`.
    pub open spec fn spec_collider(self, parent: BodyPartHandle) -> CollisionObject {
        CollisionObject {
            shape: self.shape,
            parent,
            position: self.position,
            density: self.density,
            material: self.material,
            margin: self.margin,
            collision_groups: self.collision_groups,
            linear_prediction: self.linear_prediction,
            angular_prediction: self.angular_prediction,
            sensor: self.sensor,
            user_data: self.user_data,
        }
    }

    /// Creates the described collider attached to `parent` and returns its
    /// handle; fails — leaving the store untouched — exactly when the
    /// parent is neither ground nor a live body.
    pub fn build_with_parent(self, parent: BodyPartHandle, world: &mut PhysicsWorld) -> (r: Option<
        ColliderHandle,
    >)
        requires
            old(world).wf(),
            old(world).spec_can_add_collider(),
        ensures
            final(world).wf(),
            r is Some <==> (parent.spec_is_ground() || old(world).spec_body(
                parent.set_handle.0 as int,
            ) is Some),
            match r {
                Some(h) => {
                    &&& h.0 == old(world).next_collider_handle
                    &&& final(world).next_collider_handle == old(world).next_collider_handle + 1
                    &&& old(world).spec_collider(h.0 as int) is None
                    &&& final(world).spec_collider(h.0 as int) == Some(self.spec_collider(parent))
                    &&& forall|k: int|
                        k != h.0 as int ==> final(world).spec_collider(k) == old(
                            world,
                        ).spec_collider(k)
                    &&& final(world).spec_collider_count() == old(world).spec_collider_count() + 1
                    &&& *final(world) == (PhysicsWorld {
                        colliders: final(world).colliders,
                        next_collider_handle: final(world).next_collider_handle,
                        ..*old(world)
                    })
                },
                None => *final(world) == *old(world),
            },
    {
        let attachable = parent.is_ground() || world.rigid_body(parent.set_handle).is_some();
        if attachable {
            let co = CollisionObject {
                shape: self.shape,
                parent,
                position: self.position,
                density: self.density,
                material: self.material,
                margin: self.margin,
                collision_groups: self.collision_groups,
                linear_prediction: self.linear_prediction,
                angular_prediction: self.angular_prediction,
                sensor: self.sensor,
                user_data: self.user_data,
            };
            Some(world.insert_collider(co))
        } else {
            None
        }
    }
}

/// The engine-facing world together with the two handle registries.
pub struct Physics {
    pub world: PhysicsWorld,
    pub body_handles: HandleMap,
    pub collider_handles: HandleMap,
}

impl Physics {
    /// The registries and the store agree:
    /// - a registered body handle points at a live body stamped with its
    ///   entity, and every stamped live body is registered under exactly
    ///   that entity;
    /// - a registered collider handle, while its collider is live, is
    ///   stamped with its entity (the handle may outlive the collider for
    ///   the rest of a frame when a body removal cascades), and every
    ///   stamped live collider is registered under its entity.
    pub open spec fn wf(self) -> bool {
        &&& self.world.wf()
        &&& self.body_handles.wf()
        &&& self.collider_handles.wf()
        &&& forall|e: u32|
            (#[trigger] self.body_handles.spec_lookup(e)) matches Some(h) ==> {
                &&& self.world.spec_body(h as int) is Some
                &&& self.world.spec_body(h as int)->Some_0.user_data == Some(e)
            }
        &&& forall|k: int|
            (#[trigger] self.world.spec_body(k)) matches Some(b) ==> (b.user_data matches Some(e)
                ==> 0 <= k < u32::MAX && self.body_handles.spec_lookup(e) == Some(k as u32))
        &&& forall|e: u32|
            (#[trigger] self.collider_handles.spec_lookup(e)) matches Some(h)
                ==> (self.world.spec_collider(h as int) matches Some(co) ==> co.user_data == Some(
                e,
            ))
        &&& forall|k: int|
            (#[trigger] self.world.spec_collider(k)) matches Some(co) ==> (co.user_data matches Some(
                e,
            ) ==> 0 <= k < u32::MAX && self.collider_handles.spec_lookup(e) == Some(k as u32))
        &&& forall|e: u32|
            (#[trigger] self.collider_handles.spec_lookup(e)) matches Some(h) ==> h
                < self.world.next_collider_handle
    }

    /// A world with no objects and empty registries.
    pub fn new() -> (r: Physics)
        ensures
            r.wf(),
            r.world.spec_body_count() == 0,
            r.world.spec_collider_count() == 0,
            r.body_handles.spec_len() == 0,
            r.collider_handles.spec_len() == 0,
            forall|e: u32| r.body_handles.spec_lookup(e) is None,
            forall|e: u32| r.collider_handles.spec_lookup(e) is None,
            r.world.next_body_handle == 0,
            r.world.next_collider_handle == 0,
            r.world.step_count == 0,
    {
        Physics {
            world: PhysicsWorld::new(),
            body_handles: HandleMap::new(),
            collider_handles: HandleMap::new(),
        }
    }

    /// The gravity vector currently in effect.
    pub fn gravity(&self) -> (r: Vector3)
        ensures
            r == self.world.gravity,
    {
        self.world.gravity()
    }

    /// Whether engine profiling is on.
    pub fn performance_counters_enabled(&self) -> (r: bool)
        ensures
            r == self.world.performance_counters_enabled,
    {
        self.world.performance_counters_enabled
    }
}

impl Default for Physics {
    /// Same as [`Physics::new`].
    fn default() -> (r: Physics)
        ensures
            r.wf(),
            r.world.spec_body_count() == 0,
            r.world.spec_collider_count() == 0,
            r.body_handles.spec_len() == 0,
            r.collider_handles.spec_len() == 0,
            forall|e: u32| r.body_handles.spec_lookup(e) is None,
            forall|e: u32| r.collider_handles.spec_lookup(e) is None,
            r.world.next_body_handle == 0,
            r.world.next_collider_handle == 0,
            r.world.step_count == 0,
    {
        Physics::new()
    }
}

/// There is at most one live engine body per entity: two live bodies
/// stamped with the same entity are the same body. Together with
/// [`lemma_collider_handle_uniqueness`], the registry holds at most one
/// live handle per entity and kind, whatever sequence of insertions,
/// modifications and removals produced the state.
pub proof fn lemma_handle_uniqueness(p: Physics, e: u32, k1: int, k2: int)
    requires
        p.wf(),
        p.world.spec_body(k1) matches Some(b1) && b1.user_data == Some(e),
        p.world.spec_body(k2) matches Some(b2) && b2.user_data == Some(e),
    ensures
        k1 == k2,
{
    assert(p.body_handles.spec_lookup(e) == Some(k1 as u32));
    assert(p.body_handles.spec_lookup(e) == Some(k2 as u32));
}

/// Stepping is a no-op on every stored object: after any number of steps
/// the store reports each body — in particular its placement — exactly as
/// before, so reading a pose back after `n` steps of idle physics yields
/// the pose the body was created with. The numerical motion a real
/// engine would add is outside this crate's scope.
pub proof fn lemma_pose_round_trip(w: PhysicsWorld, n: nat, k: int)
    ensures
        w.spec_steps(n).spec_body(k) == w.spec_body(k),
        w.spec_steps(n).spec_collider(k) == w.spec_collider(k),
    decreases n,
{
    if n > 0 {
        lemma_pose_round_trip(w, (n - 1) as nat, k);
    }
}

/// There is at most one live engine collider per entity: two live
/// colliders stamped with the same entity are the same collider.
pub proof fn lemma_collider_handle_uniqueness(p: Physics, e: u32, k1: int, k2: int)
    requires
        p.wf(),
        p.world.spec_collider(k1) matches Some(c1) && c1.user_data == Some(e),
        p.world.spec_collider(k2) matches Some(c2) && c2.user_data == Some(e),
    ensures
        k1 == k2,
{
    assert(p.collider_handles.spec_lookup(e) == Some(k1 as u32));
    assert(p.collider_handles.spec_lookup(e) == Some(k2 as u32));
}

} // verus!
