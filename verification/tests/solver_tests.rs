//! Drives the external rigid-body solver exactly as the physics bridge
//! commands it, the way the host loop does, and checks what the bridge
//! promises about the commanded substeps.

use fork_core::physics::{BodyDesc, BodyStatus, Physics, GRAVITY_MILLI};
use nalgebra::Vector2;
use nphysics2d::force_generator::DefaultForceGeneratorSet;
use nphysics2d::joint::DefaultJointConstraintSet;
use nphysics2d::object::{DefaultBodySet, DefaultColliderSet, RigidBodyDesc};
use nphysics2d::world::{DefaultGeometricalWorld, DefaultMechanicalWorld};

#[test]
fn step_three_advances_dynamic_bodies_by_three_substeps() {
    // The bridge records one dynamic body in free fall and commands one
    // step of three substeps.
    let mut bridge = Physics::new();
    let handle = bridge.insert_body(BodyDesc {
        status: BodyStatus::Dynamic,
        translation_x_milli: 0,
        translation_y_milli: 5_000,
    });
    bridge.step(3);
    assert_eq!(bridge.substeps_done, 3);

    // The host mirrors the record into the solver and performs exactly the
    // commanded number of substeps.
    let record = bridge.body(handle).unwrap();
    let gravity = Vector2::new(0.0, GRAVITY_MILLI as f32 / 1000.0);
    let mut mechanical = DefaultMechanicalWorld::new(gravity);
    let mut geometrical = DefaultGeometricalWorld::new();
    let mut bodies = DefaultBodySet::new();
    let mut colliders = DefaultColliderSet::<f32>::new();
    let mut joints = DefaultJointConstraintSet::<f32>::new();
    let mut forces = DefaultForceGeneratorSet::<f32>::new();
    let body = RigidBodyDesc::new()
        .translation(Vector2::new(
            record.translation_x_milli as f32 / 1000.0,
            record.translation_y_milli as f32 / 1000.0,
        ))
        .mass(1.0)
        .build();
    let solver_handle = bodies.insert(body);

    let mut heights = vec![bodies
        .rigid_body(solver_handle)
        .unwrap()
        .position()
        .translation
        .y];
    for _ in 0..bridge.substeps_done {
        mechanical.step(
            &mut geometrical,
            &mut bodies,
            &mut colliders,
            &mut joints,
            &mut forces,
        );
        heights.push(
            bodies
                .rigid_body(solver_handle)
                .unwrap()
                .position()
                .translation
                .y,
        );
    }

    // A body with only gravity on it falls monotonically across the three
    // substeps.
    assert_eq!(heights.len(), 4);
    for pair in heights.windows(2) {
        assert!(
            pair[1] < pair[0],
            "strictly decreasing height under constant negative gravity: {heights:?}"
        );
    }
}
