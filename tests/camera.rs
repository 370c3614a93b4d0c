use tutorial_clock::camera::{
    direction_of, move_camera, movement_axes, CameraPose, MoveAxes, MoveKey, Vec3, DIRECTION_SCALE,
    POSITION_SCALE, SPEED,
};
use tutorial_clock::plugin::TutorialPlugin;
use tutorial_clock::scene::{Body, Scene};

fn default_camera() -> CameraPose {
    TutorialPlugin::default().camera_transform
}

fn tilted_camera() -> CameraPose {
    CameraPose {
        position: Vec3 { x: 1, y: 2, z: 3 },
        right: Vec3 { x: 600_000, y: 0, z: -800_000 },
        up: Vec3 { x: 0, y: 1_000_000, z: 0 },
        forward: Vec3 { x: -800_000, y: 0, z: -600_000 },
    }
}

#[test]
fn axes_from_single_keys() {
    assert_eq!(movement_axes(&vec![MoveKey::KeyW]), MoveAxes { x: 0, y: 0, z: 1 });
    assert_eq!(movement_axes(&vec![MoveKey::KeyS]), MoveAxes { x: 0, y: 0, z: -1 });
    assert_eq!(movement_axes(&vec![MoveKey::KeyA]), MoveAxes { x: -1, y: 0, z: 0 });
    assert_eq!(movement_axes(&vec![MoveKey::KeyD]), MoveAxes { x: 1, y: 0, z: 0 });
    assert_eq!(movement_axes(&vec![MoveKey::KeyQ]), MoveAxes { x: 0, y: -1, z: 0 });
    assert_eq!(movement_axes(&vec![MoveKey::KeyE]), MoveAxes { x: 0, y: 1, z: 0 });
    assert_eq!(movement_axes(&vec![]), MoveAxes { x: 0, y: 0, z: 0 });
}

#[test]
fn opposing_keys_cancel() {
    assert_eq!(movement_axes(&vec![MoveKey::KeyW, MoveKey::KeyS]), MoveAxes { x: 0, y: 0, z: 0 });
    assert_eq!(movement_axes(&vec![MoveKey::KeyA, MoveKey::KeyD, MoveKey::KeyE]), MoveAxes { x: 0, y: 1, z: 0 });
    assert_eq!(
        movement_axes(&vec![MoveKey::KeyW, MoveKey::KeyA, MoveKey::KeyS, MoveKey::KeyD, MoveKey::KeyQ, MoveKey::KeyE]),
        MoveAxes { x: 0, y: 0, z: 0 }
    );
}

#[test]
fn direction_is_sum_of_selected_basis_vectors() {
    let c = tilted_camera();
    let axes = movement_axes(&vec![MoveKey::KeyW, MoveKey::KeyD, MoveKey::KeyE]);
    let d = direction_of(axes, &c);
    assert_eq!(d, Vec3 { x: 600_000 - 800_000, y: 1_000_000, z: -800_000 - 600_000 });
    let back_left = direction_of(movement_axes(&vec![MoveKey::KeyS, MoveKey::KeyA]), &c);
    assert_eq!(back_left, Vec3 { x: 800_000 - 600_000, y: 0, z: 600_000 + 800_000 });
}

#[test]
fn diagonal_is_not_normalized() {
    let c = default_camera();
    let d = direction_of(movement_axes(&vec![MoveKey::KeyW, MoveKey::KeyD, MoveKey::KeyE]), &c);
    assert_eq!(d, Vec3 { x: DIRECTION_SCALE, y: DIRECTION_SCALE, z: -DIRECTION_SCALE });
}

#[test]
fn one_second_forward_from_default_camera() {
    let mut c = default_camera();
    move_camera(&mut c, MoveAxes { x: 0, y: 0, z: 1 }, 1_000_000);
    // Forward is -z: 10 units per second toward the origin from z = 50.
    assert_eq!(c.position, Vec3 { x: 0, y: 0, z: 40 * POSITION_SCALE });
    assert_eq!(c.forward, default_camera().forward);
}

#[test]
fn doubling_time_doubles_displacement() {
    let start = tilted_camera();
    let axes = MoveAxes { x: 1, y: -1, z: 1 };
    let mut a = start;
    move_camera(&mut a, axes, 16_667);
    let mut b = start;
    move_camera(&mut b, axes, 2 * 16_667);
    let da = (a.position.x - 1, a.position.y - 2, a.position.z - 3);
    let db = (b.position.x - 1, b.position.y - 2, b.position.z - 3);
    assert_eq!(db, (2 * da.0, 2 * da.1, 2 * da.2));
    assert_eq!(da.1, -SPEED * 16_667 * 1_000_000);
}

#[test]
fn zero_time_or_no_keys_does_not_move() {
    let mut c = tilted_camera();
    move_camera(&mut c, MoveAxes { x: 1, y: 1, z: 1 }, 0);
    assert_eq!(c, tilted_camera());
    move_camera(&mut c, MoveAxes { x: 0, y: 0, z: 0 }, 5_000_000);
    assert_eq!(c, tilted_camera());
}

#[test]
fn default_plugin_settings() {
    let p = TutorialPlugin::default();
    assert_eq!(p.title, "");
    assert_eq!(p.camera_transform.position, Vec3 { x: 0, y: 0, z: 50 * POSITION_SCALE });
    assert_eq!(p.camera_transform.right, Vec3 { x: DIRECTION_SCALE, y: 0, z: 0 });
    assert_eq!(p.camera_transform.up, Vec3 { x: 0, y: DIRECTION_SCALE, z: 0 });
}

#[test]
fn startup_adds_camera_and_light() {
    let mut scene = Scene::new();
    TutorialPlugin::startup(&mut scene, tilted_camera());
    assert_eq!(scene.len(), 2);
    assert_eq!(scene.entities[0].body, Body::Camera(tilted_camera()));
    match scene.entities[1].body {
        Body::Light(l) => {
            assert_eq!(l.illuminance, 1000);
            assert!(l.shadows_enabled);
            assert_eq!(l.first_cascade_far_bound, 4_000_000);
            assert_eq!(l.maximum_distance, 10_000_000_000);
        }
        _ => panic!("expected the light"),
    }
}

#[test]
fn camera_movement_moves_every_camera_only() {
    let mut scene = Scene::new();
    TutorialPlugin::startup(&mut scene, default_camera());
    TutorialPlugin::startup(&mut scene, tilted_camera());
    TutorialPlugin::camera_movement(&mut scene, &vec![MoveKey::KeyD], 500_000);
    match (scene.entities[0].body, scene.entities[2].body) {
        (Body::Camera(a), Body::Camera(b)) => {
            assert_eq!(a.position, Vec3 { x: 5 * POSITION_SCALE, y: 0, z: 50 * POSITION_SCALE });
            assert_eq!(b.position, Vec3 { x: 1 + 3 * POSITION_SCALE, y: 2, z: 3 - 4 * POSITION_SCALE });
        }
        _ => panic!("expected cameras"),
    }
    assert!(matches!(scene.entities[1].body, Body::Light(_)));
}

#[test]
fn no_camera_is_a_no_op() {
    let mut scene = Scene::new();
    TutorialPlugin::camera_movement(&mut scene, &vec![MoveKey::KeyW], 1_000_000);
    assert_eq!(scene.len(), 0);
}
