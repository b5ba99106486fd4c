//! Tests for the handle registry, the event channel, the engine-facing
//! store, and the read-back and translation stages.

use specs_physics::bodies::{BodyStatus, PhysicsBodyBuilder, Velocity};
use specs_physics::colliders::{ColliderType, GeometricQueryType, PhysicsColliderBuilder, Shape};
use specs_physics::events::{ContactEvents, ContactType, ProximityEvents, RawContactEvent};
use specs_physics::handle::{BodyHandle, ColliderHandle, DuplicateHandleError, HandleMap};
use specs_physics::joints::{resolve_joint, JointComponent, JointConstraintSet, JointObject};
use specs_physics::math::{Isometry, Matrix3, Point3, UNIT};
use specs_physics::world::Inertia;
use specs_physics::pose::SimplePosition;
use specs_physics::storage::{ComponentEvent, EventChannel, FlaggedStorage};
use specs_physics::systems::physics_stepper::PhysicsStepperSystem;
use specs_physics::systems::sync_bodies_to_physics::SyncBodiesToPhysicsSystem;
use specs_physics::systems::sync_colliders_to_physics::SyncCollidersToPhysicsSystem;
use specs_physics::systems::sync_positions_from_physics::SyncPositionsFromPhysicsSystem;
use specs_physics::world::Physics;

#[test]
fn registry_refuses_duplicate_registration() {
    let mut registry = HandleMap::new();
    assert_eq!(registry.register(4, 10), Ok(()));
    assert_eq!(registry.register(4, 11), Err(DuplicateHandleError));
    assert_eq!(registry.lookup(4), Some(10));
    assert_eq!(registry.len(), 1);
}

#[test]
fn registry_unregister_is_idempotent() {
    let mut registry = HandleMap::new();
    assert_eq!(registry.register(2, 8), Ok(()));
    assert_eq!(registry.unregister(2), Some(8));
    assert_eq!(registry.unregister(2), None);
    assert_eq!(registry.lookup(2), None);
    assert_eq!(registry.len(), 0);
}

#[test]
fn channel_delivers_each_event_exactly_once_per_reader() {
    let mut channel: EventChannel<ComponentEvent> = EventChannel::new();
    let mut early = channel.register_reader();
    channel.single_write(ComponentEvent::Inserted(1));
    channel.single_write(ComponentEvent::Modified(1));
    let mut late = channel.register_reader();
    channel.single_write(ComponentEvent::Removed(1));

    // The early reader sees everything once; a second drain is empty.
    let first = channel.read(&mut early);
    assert_eq!(first.len(), 3);
    assert!(channel.read(&mut early).is_empty());

    // A reader created later only observes what came after it.
    let late_view = channel.read(&mut late);
    assert_eq!(late_view.len(), 1);
    assert!(matches!(late_view[0], ComponentEvent::Removed(1)));
}

#[test]
fn query_type_follows_margin_and_predictions() {
    let contacts = ColliderType::Collider.to_geometric_query_type(10_000, 2_000, 87_266);
    assert_eq!(contacts, GeometricQueryType::Contacts(11_000, 87_266));
    let proximity = ColliderType::Trigger.to_geometric_query_type(10_000, 2_000, 87_266);
    assert_eq!(proximity, GeometricQueryType::Proximity(1_000));
}

#[test]
fn body_builder_defaults_and_setters() {
    let body = PhysicsBodyBuilder::from_status(BodyStatus::Kinematic)
        .gravity_enabled(true)
        .angular_inertia(Matrix3::from_diagonal_element(3_000_000))
        .local_center_of_mass(Point3::new(1, 2, 3))
        .build();
    assert_eq!(body.handle, None);
    assert!(body.gravity_enabled);
    assert_eq!(body.body_status, BodyStatus::Kinematic);
    assert_eq!(body.mass, 1_200_000);
    assert_eq!(body.angular_inertia.m22, 3_000_000);
    assert_eq!(body.local_center_of_mass, Point3::new(1, 2, 3));
    assert_eq!(body.velocity, Velocity::zero());
}

#[test]
fn collider_builder_defaults() {
    let collider = PhysicsColliderBuilder::from_shape(Shape::Ball { radius: 1_000_000 })
        .density(500_000)
        .sensor(true)
        .build();
    assert_eq!(collider.handle, None);
    assert_eq!(collider.density, 500_000);
    assert_eq!(collider.margin, 200_000);
    assert_eq!(collider.linear_prediction, 2_000);
    assert_eq!(collider.angular_prediction, 87_266);
    assert!(collider.sensor);
}

#[test]
fn pose_round_trip_with_idle_dynamic_body() {
    // A dynamic body with zero velocity under zero gravity: after any
    // number of steps its pose component still shows the initial
    // placement.
    let mut positions: FlaggedStorage<SimplePosition> = FlaggedStorage::new();
    let mut bodies = FlaggedStorage::new();
    let mut physics = Physics::new();
    let mut body_system = SyncBodiesToPhysicsSystem::default();
    body_system.setup(&positions, &bodies);
    let mut readback = SyncPositionsFromPhysicsSystem;

    let initial = Isometry::translation(2_000_000, 3_000_000, 4_000_000);
    positions.insert(0, SimplePosition(initial));
    bodies.insert(
        0,
        PhysicsBodyBuilder::from_status(BodyStatus::Dynamic)
            .velocity(Velocity::zero())
            .build(),
    );
    body_system.run(&positions, &mut physics, &mut bodies);

    for _ in 0..5 {
        physics.world.step();
        readback.run(&physics, &bodies, &mut positions);
    }

    let pose = positions.get(0).expect("pose kept");
    assert_eq!(pose.0, initial);
}

#[test]
fn readback_skips_static_bodies() {
    let mut positions: FlaggedStorage<SimplePosition> = FlaggedStorage::new();
    let mut bodies = FlaggedStorage::new();
    let mut physics = Physics::new();
    let mut body_system = SyncBodiesToPhysicsSystem::default();
    body_system.setup(&positions, &bodies);
    let mut readback = SyncPositionsFromPhysicsSystem;

    positions.insert(1, SimplePosition(Isometry::identity()));
    bodies.insert(1, PhysicsBodyBuilder::from_status(BodyStatus::Static).build());
    body_system.run(&positions, &mut physics, &mut bodies);

    // Overwrite the pose by hand; a static body must not be read back.
    let moved = Isometry::translation(9, 9, 9);
    positions.modify(1, SimplePosition(moved));
    readback.run(&physics, &bodies, &mut positions);
    assert_eq!(positions.get(1).expect("pose").0, moved);
}

#[test]
fn event_translation_resolves_and_drops() {
    let mut positions: FlaggedStorage<SimplePosition> = FlaggedStorage::new();
    let parents = FlaggedStorage::new();
    let mut colliders = FlaggedStorage::new();
    let mut physics = Physics::new();
    let mut collider_system = SyncCollidersToPhysicsSystem::default();
    collider_system.setup(&positions, &colliders);

    positions.insert(3, SimplePosition(Isometry::identity()));
    colliders.insert(
        3,
        PhysicsColliderBuilder::from_shape(Shape::Ball { radius: 1_000_000 }).build(),
    );
    positions.insert(4, SimplePosition(Isometry::identity()));
    colliders.insert(
        4,
        PhysicsColliderBuilder::from_shape(Shape::Ball { radius: 1_000_000 }).build(),
    );
    collider_system.run(&positions, &parents, &mut physics, &mut colliders);

    let h3 = ColliderHandle(physics.collider_handles.lookup(3).expect("handle"));
    let h4 = ColliderHandle(physics.collider_handles.lookup(4).expect("handle"));
    let dangling = ColliderHandle(999);

    let mut contact_events: ContactEvents = EventChannel::new();
    let mut proximity_events: ProximityEvents = EventChannel::new();
    let mut reader = contact_events.register_reader();
    let raw = vec![
        RawContactEvent::Started(h3, h4),
        RawContactEvent::Stopped(h3, dangling),
    ];
    let mut stepper = PhysicsStepperSystem;
    stepper.run(
        None,
        &mut contact_events,
        &mut proximity_events,
        &mut physics,
        &raw,
        &vec![],
    );

    // The resolvable event is published with both entities; the event
    // naming a dangling collider is dropped.
    let published = contact_events.read(&mut reader);
    assert_eq!(published.len(), 1);
    assert_eq!(published[0].collider1, (Some(3), h3));
    assert_eq!(published[0].collider2, (Some(4), h4));
    assert!(matches!(published[0].contact_type, ContactType::Started));
    assert_eq!(physics.world.step_count(), 1);
}

#[test]
fn engine_store_allocates_fresh_handles() {
    let mut physics = Physics::new();
    let first = specs_physics::world::RigidBodyDesc::new().build(&mut physics.world);
    let second = specs_physics::world::RigidBodyDesc::new()
        .status(BodyStatus::Static)
        .build(&mut physics.world);
    assert_ne!(first, second);
    assert_eq!(physics.world.body_count(), 2);

    let mut doomed: Vec<BodyHandle> = Vec::new();
    doomed.push(first);
    physics.world.remove_bodies(&doomed);
    assert_eq!(physics.world.body_count(), 1);
    assert!(physics.world.rigid_body(first).is_none());
    assert!(physics.world.rigid_body(second).is_some());
}

#[test]
fn joint_set_captures_anchors_on_insert_and_remove() {
    let mut registry = HandleMap::new();
    registry.register(1, 10).expect("register first body");
    registry.register(2, 11).expect("register second body");

    // The component names the intended targets; resolution goes through
    // the body registry.
    let component = JointComponent { entity1: 1, part1: 0, entity2: 2, part2: 0 };
    let (anchor1, anchor2) = resolve_joint(&registry, &component).expect("both bodies live");
    assert_eq!(anchor1.set_handle, BodyHandle(10));
    assert_eq!(anchor2.set_handle, BodyHandle(11));

    let unresolved = JointComponent { entity1: 1, part1: 0, entity2: 9, part2: 0 };
    assert!(resolve_joint(&registry, &unresolved).is_none());

    // The set records insertion and removal events with the anchors it
    // actually bound, for the engine to pop one at a time.
    let mut set = JointConstraintSet::new();
    let handle = set.insert(JointObject { anchor1, anchor2, user_data: Some(1) });
    assert_eq!(set.len(), 1);
    let (popped_handle, popped1, popped2) = set.pop_insertion_event().expect("queued insertion");
    assert_eq!(popped_handle, handle);
    assert_eq!(popped1, anchor1);
    assert_eq!(popped2, anchor2);
    assert!(set.pop_insertion_event().is_none());

    assert!(set.remove(handle));
    assert!(!set.remove(handle));
    assert_eq!(set.len(), 0);
    let (gone_handle, gone1, gone2) = set.pop_removal_event().expect("queued removal");
    assert_eq!(gone_handle, handle);
    assert_eq!(gone1, anchor1);
    assert_eq!(gone2, anchor2);
}

#[test]
fn plain_body_creation_uses_dynamic_defaults() {
    let mut physics = Physics::new();
    let handle = physics.world.add_rigid_body(
        Isometry::translation(UNIT, 0, 0),
        Inertia::new(2 * UNIT, Matrix3::from_diagonal_element(UNIT)),
        Point3::origin(),
    );
    let body = physics.world.rigid_body(handle).expect("live body");
    assert_eq!(body.status, BodyStatus::Dynamic);
    assert_eq!(body.mass, 2 * UNIT);
    assert_eq!(body.position.translation.x, UNIT);
    assert!(body.gravity_enabled);
}
