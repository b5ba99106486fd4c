//! Tests for the body and collider synchronization stages.

use specs_physics::bodies::{BodyStatus, PhysicsBody, PhysicsBodyBuilder, Velocity};
use specs_physics::colliders::{PhysicsColliderBuilder, Shape};
use specs_physics::handle::{BodyPartHandle, PhysicsParent};
use specs_physics::math::{Isometry, Vector3};
use specs_physics::parameters::Gravity;
use specs_physics::pose::SimplePosition;
use specs_physics::storage::FlaggedStorage;
use specs_physics::systems::sync_bodies_to_physics::SyncBodiesToPhysicsSystem;
use specs_physics::systems::sync_colliders_to_physics::SyncCollidersToPhysicsSystem;
use specs_physics::systems::sync_gravity_to_physics::SyncGravityToPhysicsSystem;
use specs_physics::systems::sync_parameters_to_physics::SyncParametersToPhysicsSystem;
use specs_physics::world::{ColliderPosition, Physics};

fn fresh_body_world() -> (
    FlaggedStorage<SimplePosition>,
    FlaggedStorage<PhysicsBody>,
    Physics,
    SyncBodiesToPhysicsSystem,
) {
    let positions: FlaggedStorage<SimplePosition> = FlaggedStorage::new();
    let bodies: FlaggedStorage<PhysicsBody> = FlaggedStorage::new();
    let physics = Physics::new();
    let mut system = SyncBodiesToPhysicsSystem::default();
    system.setup(&positions, &bodies);
    (positions, bodies, physics, system)
}

#[test]
fn add_rigid_body() {
    let (mut positions, mut bodies, mut physics, mut system) = fresh_body_world();

    // An entity with a pose at (1, 1, 1) and a dynamic body component.
    positions.insert(0, SimplePosition(Isometry::translation(1_000_000, 1_000_000, 1_000_000)));
    bodies.insert(0, PhysicsBodyBuilder::from_status(BodyStatus::Dynamic).build());
    system.run(&positions, &mut physics, &mut bodies);

    assert_eq!(physics.body_handles.len(), 1);
    assert_eq!(physics.world.body_count(), 1);
}

#[test]
fn add_collider() {
    let mut positions: FlaggedStorage<SimplePosition> = FlaggedStorage::new();
    let parents: FlaggedStorage<PhysicsParent> = FlaggedStorage::new();
    let mut colliders = FlaggedStorage::new();
    let mut physics = Physics::new();
    let mut system = SyncCollidersToPhysicsSystem::default();
    system.setup(&positions, &colliders);

    positions.insert(0, SimplePosition(Isometry::translation(1_000_000, 1_000_000, 1_000_000)));
    colliders.insert(
        0,
        PhysicsColliderBuilder::from_shape(Shape::Ball { radius: 5_000_000 }).build(),
    );
    system.run(&positions, &parents, &mut physics, &mut colliders);

    assert_eq!(physics.collider_handles.len(), 1);
    assert_eq!(physics.world.collider_count(), 1);
}

#[test]
fn sync_gravity_to_physics_update_gravity() {
    let mut physics = Physics::new();
    let mut system = SyncGravityToPhysicsSystem;

    let gravity = Gravity(Vector3::new(1_000_000, 2_000_000, 3_000_000));
    system.run(Some(&gravity), &mut physics);

    assert_eq!(physics.world.gravity().x, 1_000_000);
    assert_eq!(physics.world.gravity().y, 2_000_000);
    assert_eq!(physics.world.gravity().z, 3_000_000);
}

#[test]
fn sync_parameters_to_physics_update_gravity() {
    let mut physics = Physics::new();
    let mut system = SyncParametersToPhysicsSystem;

    let gravity = Gravity(Vector3::new(1_000_000, 2_000_000, 3_000_000));
    system.run(Some(&gravity), None, None, &mut physics);

    assert_eq!(physics.world.gravity().x, 1_000_000);
    assert_eq!(physics.world.gravity().y, 2_000_000);
    assert_eq!(physics.world.gravity().z, 3_000_000);
}

#[test]
fn inserted_body_carries_descriptor_values() {
    let (mut positions, mut bodies, mut physics, mut system) = fresh_body_world();

    // A dynamic body with velocity (0, 1, 0) and mass 10 at the origin.
    positions.insert(7, SimplePosition(Isometry::identity()));
    bodies.insert(
        7,
        PhysicsBodyBuilder::from_status(BodyStatus::Dynamic)
            .velocity(Velocity::linear(0, 1_000_000, 0))
            .mass(10_000_000)
            .build(),
    );
    system.run(&positions, &mut physics, &mut bodies);

    let handle = physics.body_handles.lookup(7).expect("handle registered");
    let body = physics
        .world
        .rigid_body(specs_physics::handle::BodyHandle(handle))
        .expect("engine body live");
    assert_eq!(body.velocity.linear.x, 0);
    assert_eq!(body.velocity.linear.y, 1_000_000);
    assert_eq!(body.velocity.linear.z, 0);
    assert_eq!(body.mass, 10_000_000);
    assert_eq!(body.user_data, Some(7));
}

#[test]
fn removed_body_leaves_registry_and_engine() {
    let (mut positions, mut bodies, mut physics, mut system) = fresh_body_world();

    positions.insert(3, SimplePosition(Isometry::identity()));
    bodies.insert(3, PhysicsBodyBuilder::from_status(BodyStatus::Dynamic).build());
    system.run(&positions, &mut physics, &mut bodies);
    assert_eq!(physics.world.body_count(), 1);

    bodies.remove(3);
    system.run(&positions, &mut physics, &mut bodies);

    assert_eq!(physics.body_handles.len(), 0);
    assert_eq!(physics.world.body_count(), 0);
}

#[test]
fn duplicate_insertion_replaces_engine_body() {
    let (mut positions, mut bodies, mut physics, mut system) = fresh_body_world();

    positions.insert(1, SimplePosition(Isometry::identity()));
    bodies.insert(1, PhysicsBodyBuilder::from_status(BodyStatus::Dynamic).build());
    system.run(&positions, &mut physics, &mut bodies);
    let first_handle = physics.body_handles.lookup(1).expect("first handle");
    assert_eq!(physics.world.body_count(), 1);

    // Re-insert the component in a later frame, simulating a replace.
    bodies.insert(1, PhysicsBodyBuilder::from_status(BodyStatus::Dynamic).build());
    system.run(&positions, &mut physics, &mut bodies);

    // Exactly one live engine body remains, and the first object is gone.
    assert_eq!(physics.world.body_count(), 1);
    let second_handle = physics.body_handles.lookup(1).expect("second handle");
    assert_ne!(first_handle, second_handle);
    assert!(physics
        .world
        .rigid_body(specs_physics::handle::BodyHandle(first_handle))
        .is_none());
}

#[test]
fn collider_attaches_to_parent_body_at_offset() {
    let mut positions: FlaggedStorage<SimplePosition> = FlaggedStorage::new();
    let mut bodies: FlaggedStorage<PhysicsBody> = FlaggedStorage::new();
    let mut parents: FlaggedStorage<PhysicsParent> = FlaggedStorage::new();
    let mut colliders = FlaggedStorage::new();
    let mut physics = Physics::new();
    let mut body_system = SyncBodiesToPhysicsSystem::default();
    body_system.setup(&positions, &bodies);
    let mut collider_system = SyncCollidersToPhysicsSystem::default();
    collider_system.setup(&positions, &colliders);

    // Entity 2 carries the body; entity 9 carries a collider pointing at it.
    positions.insert(2, SimplePosition(Isometry::identity()));
    bodies.insert(2, PhysicsBodyBuilder::from_status(BodyStatus::Dynamic).build());
    body_system.run(&positions, &mut physics, &mut bodies);
    let parent_handle = physics.body_handles.lookup(2).expect("parent body");

    positions.insert(9, SimplePosition(Isometry::translation(5_000_000, 0, 0)));
    parents.insert(9, PhysicsParent { entity: 2 });
    let offset = Isometry::translation(0, 250_000, 0);
    colliders.insert(
        9,
        PhysicsColliderBuilder::from_shape(Shape::Ball { radius: 1_000_000 })
            .offset_from_parent(offset)
            .build(),
    );
    collider_system.run(&positions, &parents, &mut physics, &mut colliders);

    let collider_handle = physics.collider_handles.lookup(9).expect("collider");
    let collider = physics
        .world
        .collider(specs_physics::handle::ColliderHandle(collider_handle))
        .expect("live collider");
    assert_eq!(
        collider.parent,
        BodyPartHandle {
            set_handle: specs_physics::handle::BodyHandle(parent_handle),
            part_index: 0
        }
    );
    assert_eq!(collider.position, ColliderPosition::OffsetFromParent(offset));
}

#[test]
fn orphan_collider_attaches_to_ground_composed_with_pose() {
    let mut positions: FlaggedStorage<SimplePosition> = FlaggedStorage::new();
    let parents: FlaggedStorage<PhysicsParent> = FlaggedStorage::new();
    let mut colliders = FlaggedStorage::new();
    let mut physics = Physics::new();
    let mut collider_system = SyncCollidersToPhysicsSystem::default();
    collider_system.setup(&positions, &colliders);

    let pose = Isometry::translation(5_000_000, 6_000_000, 7_000_000);
    let offset = Isometry::translation(0, 250_000, 0);
    positions.insert(4, SimplePosition(pose));
    colliders.insert(
        4,
        PhysicsColliderBuilder::from_shape(Shape::Ball { radius: 1_000_000 })
            .offset_from_parent(offset)
            .build(),
    );
    collider_system.run(&positions, &parents, &mut physics, &mut colliders);

    let collider_handle = physics.collider_handles.lookup(4).expect("collider");
    let collider = physics
        .world
        .collider(specs_physics::handle::ColliderHandle(collider_handle))
        .expect("live collider");
    assert!(collider.parent.is_ground());
    assert_eq!(
        collider.position,
        ColliderPosition::GroundPlacement { base: pose, offset }
    );
}

#[test]
fn removing_body_cascades_attached_collider() {
    let mut positions: FlaggedStorage<SimplePosition> = FlaggedStorage::new();
    let mut bodies: FlaggedStorage<PhysicsBody> = FlaggedStorage::new();
    let parents: FlaggedStorage<PhysicsParent> = FlaggedStorage::new();
    let mut colliders = FlaggedStorage::new();
    let mut physics = Physics::new();
    let mut body_system = SyncBodiesToPhysicsSystem::default();
    body_system.setup(&positions, &bodies);
    let mut collider_system = SyncCollidersToPhysicsSystem::default();
    collider_system.setup(&positions, &colliders);

    positions.insert(5, SimplePosition(Isometry::identity()));
    bodies.insert(5, PhysicsBodyBuilder::from_status(BodyStatus::Dynamic).build());
    body_system.run(&positions, &mut physics, &mut bodies);
    colliders.insert(
        5,
        PhysicsColliderBuilder::from_shape(Shape::Ball { radius: 1_000_000 }).build(),
    );
    collider_system.run(&positions, &parents, &mut physics, &mut colliders);
    assert_eq!(physics.world.collider_count(), 1);

    // Removing the body removes the attached collider with it.
    bodies.remove(5);
    body_system.run(&positions, &mut physics, &mut bodies);
    assert_eq!(physics.world.body_count(), 0);
    assert_eq!(physics.world.collider_count(), 0);

    // The stale collider registry entry is cleaned up without panicking.
    colliders.remove(5);
    collider_system.run(&positions, &parents, &mut physics, &mut colliders);
    assert_eq!(physics.collider_handles.len(), 0);
}

#[test]
fn modified_body_updates_engine_in_place() {
    let (mut positions, mut bodies, mut physics, mut system) = fresh_body_world();

    positions.insert(6, SimplePosition(Isometry::identity()));
    bodies.insert(6, PhysicsBodyBuilder::from_status(BodyStatus::Dynamic).build());
    system.run(&positions, &mut physics, &mut bodies);
    let handle = physics.body_handles.lookup(6).expect("handle");

    // Change the component's velocity in place and re-run: same handle,
    // updated engine body.
    let mut component = bodies.get(6).expect("component").clone();
    component.velocity = Velocity::linear(2_000_000, 0, 0);
    bodies.modify(6, component);
    system.run(&positions, &mut physics, &mut bodies);

    assert_eq!(physics.body_handles.lookup(6), Some(handle));
    let body = physics
        .world
        .rigid_body(specs_physics::handle::BodyHandle(handle))
        .expect("live body");
    assert_eq!(body.velocity.linear.x, 2_000_000);
}

#[test]
fn modified_collider_updates_in_place() {
    let mut positions: FlaggedStorage<SimplePosition> = FlaggedStorage::new();
    let parents: FlaggedStorage<PhysicsParent> = FlaggedStorage::new();
    let mut colliders = FlaggedStorage::new();
    let mut physics = Physics::new();
    let mut system = SyncCollidersToPhysicsSystem::default();
    system.setup(&positions, &colliders);

    positions.insert(8, SimplePosition(Isometry::identity()));
    colliders.insert(
        8,
        PhysicsColliderBuilder::from_shape(Shape::Ball { radius: 1_000_000 })
            .margin(50_000)
            .build(),
    );
    system.run(&positions, &parents, &mut physics, &mut colliders);
    let handle = physics.collider_handles.lookup(8).expect("handle");

    // Modify the component: new shape, material, groups and sensor flag.
    let mut component = colliders.get(8).expect("component").clone();
    component.shape = Shape::Ball { radius: 2_000_000 };
    component.material = specs_physics::colliders::MaterialHandle::new(
        specs_physics::colliders::BasicMaterial::new(100_000, 900_000),
    );
    component.collision_groups = specs_physics::colliders::CollisionGroups {
        membership: 1,
        whitelist: 2,
        blacklist: 4,
    };
    component.sensor = true;
    colliders.modify(8, component);
    system.run(&positions, &parents, &mut physics, &mut colliders);

    // Same handle; groups, shape, material and query type pushed in
    // place; the margin cannot change after creation.
    assert_eq!(physics.collider_handles.lookup(8), Some(handle));
    let collider = physics
        .world
        .collider(specs_physics::handle::ColliderHandle(handle))
        .expect("live collider");
    assert!(matches!(collider.shape.0, Shape::Ball { radius: 2_000_000 }));
    assert_eq!(collider.material.0.friction, 900_000);
    assert_eq!(collider.collision_groups.membership, 1);
    assert!(collider.sensor);
    assert_eq!(collider.margin, 50_000);
}
