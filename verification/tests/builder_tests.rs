//! Tests for the entity builder, component helpers and miscellaneous
//! types.

use specs_physics::bodies::{BodyStatus, Force, PhysicsBodyBuilder, RigidBodyMarker};
use specs_physics::builder::{EntityBuilder, EntityBuilderExt};
use specs_physics::colliders::{ColliderBuilder, ColliderType, PhysicsColliderBuilder, Shape};
use specs_physics::handle::BodyPartHandle;
use specs_physics::math::Isometry;
use specs_physics::pose::{Pose, SimplePosition};
use specs_physics::stepper::Step;
use specs_physics::storage::FlaggedStorage;

#[test]
fn entity_builder_commits_components_and_marker() {
    let mut positions = FlaggedStorage::new();
    let mut bodies = FlaggedStorage::new();
    let mut colliders = FlaggedStorage::new();
    let mut parents = FlaggedStorage::new();
    let mut markers = FlaggedStorage::new();

    let entity = EntityBuilder::new(11)
        .with_position(SimplePosition(Isometry::translation(1, 2, 3)))
        .with_body(PhysicsBodyBuilder::from(BodyStatus::Dynamic).build())
        .with_collider(PhysicsColliderBuilder::from(Shape::Ball { radius: 500_000 }).build())
        .build(&mut positions, &mut bodies, &mut colliders, &mut parents, &mut markers);

    assert_eq!(entity, 11);
    assert!(positions.contains(11));
    assert!(bodies.contains(11));
    assert!(colliders.contains(11));
    assert!(!parents.contains(11));
    assert_eq!(markers.get(11), Some(&RigidBodyMarker));
}

#[test]
fn collider_builder_from_shape_handle_and_trigger() {
    let handle = Shape::Ball { radius: 250_000 }.handle();
    let collider = ColliderBuilder::from(handle).margin(20_000).trigger().build();
    assert_eq!(collider.margin, 20_000);
    assert_eq!(collider.query_type, ColliderType::Trigger);
    assert!(collider.handle.is_none());
}

#[test]
fn external_force_accumulates_and_drains() {
    let mut body = PhysicsBodyBuilder::from(BodyStatus::Dynamic).build();
    body.apply_external_force(&Force::linear(5, 0, 0));
    body.apply_external_force(&Force::linear(2, 1, 0));
    assert_eq!(body.check_external_force().linear.x, 7);
    assert_eq!(body.check_external_force().linear.y, 1);

    let drained = body.drain_external_force();
    assert_eq!(drained.linear.x, 7);
    assert_eq!(body.check_external_force(), &Force::zero());
}

#[test]
fn ground_part_handle_is_ground() {
    let ground = BodyPartHandle::ground();
    assert!(ground.is_ground());
    let part = BodyPartHandle {
        set_handle: specs_physics::handle::BodyHandle(3),
        part_index: 0,
    };
    assert!(!part.is_ground());
}

#[test]
fn pose_sync_overwrites_isometry() {
    let mut pose = SimplePosition::default();
    let target = Isometry::translation(4, 5, 6);
    pose.sync(&target);
    assert_eq!(pose.0, target);
    assert_eq!(pose.translation().x, 4);
}

#[test]
fn step_update_copies_all_fields() {
    let mut step = Step {
        delta: 1,
        step_dirty: false,
        accumulator_remaining: 2,
        global_step_number: 3,
        frame_step_number: 4,
    };
    let other = Step {
        delta: 10,
        step_dirty: true,
        accumulator_remaining: 20,
        global_step_number: 30,
        frame_step_number: 40,
    };
    step.update(other);
    assert_eq!(step, other);
    assert_eq!(step.delta(), 10);
    assert!(step.step_dirty());
    assert_eq!(step.accumulator_remaining(), 20);
    assert_eq!(step.global_step_number(), 30);
    assert_eq!(step.frame_step_number(), 40);
}
