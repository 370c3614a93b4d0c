use tutorial_clock::clock::{Hand, TimeOfDay, HOUR_HOME, MINUTE_HOME, SECOND_HOME};
use tutorial_clock::clock_scene::{
    build_scene, clock_rotate, hand_named, set_hands_to_time, spawn_clock, sweep_hands, ClockData,
};
use tutorial_clock::dial::{DialPose, TURN};
use tutorial_clock::plugin::TutorialPlugin;
use tutorial_clock::scene::{Body, Color, Scene, Shape};

fn pose_of(scene: &Scene, i: usize) -> DialPose {
    match scene.entities[i].body {
        Body::Marker { pose, .. } => pose,
        _ => panic!("entity {} is not a marker", i),
    }
}

fn fresh_scene() -> Scene {
    build_scene(&TutorialPlugin::default())
}

#[test]
fn real_time_angles_at_quarter_past_three() {
    let t = TimeOfDay { hour: 3, minute: 15, second: 30 };
    assert_eq!(Hand::Second.pose_at(t).angle, TURN / 2);
    assert_eq!(Hand::Minute.pose_at(t).angle, TURN / 4);
    // The hour hand uses the whole hour only: 3 of 12 marks.
    assert_eq!(Hand::Hour.pose_at(t).angle, TURN / 4);
    assert_eq!(Hand::Hour.pose_at(t).radius, HOUR_HOME);
}

#[test]
fn afternoon_hours_wrap_at_twelve() {
    let t = TimeOfDay { hour: 15, minute: 0, second: 0 };
    assert_eq!(Hand::Hour.pose_at(t).angle, TURN / 4);
    let noon = TimeOfDay { hour: 12, minute: 0, second: 0 };
    assert_eq!(Hand::Hour.pose_at(noon).angle, 0);
}

#[test]
fn last_second_of_the_day() {
    let t = TimeOfDay { hour: 23, minute: 59, second: 59 };
    assert_eq!(Hand::Second.pose_at(t).angle, 59 * (TURN / 60));
    assert_eq!(Hand::Minute.pose_at(t).angle, 59 * (TURN / 60));
    assert_eq!(Hand::Hour.pose_at(t).angle, 11 * (TURN / 12));
}

#[test]
fn dial_rotation_wraps() {
    let p = DialPose { radius: 5, angle: TURN - 1 };
    let r = p.rotate_around(3);
    assert_eq!(r, DialPose { radius: 5, angle: 2 });
    assert_eq!(DialPose::home(7).rotate_around(TURN), DialPose { radius: 7, angle: 0 });
}

#[test]
fn sweep_rates_per_hand() {
    let p = DialPose::home(1);
    // One second: a sixtieth of a turn for the second hand.
    assert_eq!(Hand::Second.swept(p, 1_000_000).angle, TURN / 60);
    assert_eq!(Hand::Minute.swept(p, 1_000_000).angle, TURN / 3600);
    assert_eq!(Hand::Hour.swept(p, 1_000_000).angle, TURN / 216_000);
    // A full minute brings the second hand round to where it started.
    assert_eq!(Hand::Second.swept(p, 60_000_000).angle, 0);
}

#[test]
fn sweep_with_huge_elapsed_time_does_not_overflow() {
    let p = DialPose::home(1);
    let r = Hand::Second.swept(p, u64::MAX);
    assert!(r.angle < TURN);
    let expected = ((u64::MAX as u128 * 3600) % TURN as u128) as u64;
    assert_eq!(r.angle, expected);
}

#[test]
fn hand_names_are_exact() {
    assert_eq!(hand_named(&"Second Indicator".to_string()), Some(Hand::Second));
    assert_eq!(hand_named(&"Minute Indicator".to_string()), Some(Hand::Minute));
    assert_eq!(hand_named(&"Hour Indicator".to_string()), Some(Hand::Hour));
    assert_eq!(hand_named(&"second indicator".to_string()), None);
    assert_eq!(hand_named(&"Second Indicator ".to_string()), None);
    assert_eq!(hand_named(&"Clock Indicator".to_string()), None);
    assert_eq!(hand_named(&String::new()), None);
}

#[test]
fn wrong_case_name_is_not_animated() {
    let mut scene = Scene::new();
    let shape = Shape::Cuboid { x: 1, y: 1, z: 1 };
    let pose = DialPose { radius: 4_000_000, angle: 123 };
    scene.spawn("second indicator".to_string(), None, Body::Marker { shape, color: Color::Red, pose });
    scene.spawn("Second Indicator".to_string(), None, Body::Marker { shape, color: Color::Red, pose });
    set_hands_to_time(&mut scene, TimeOfDay { hour: 0, minute: 0, second: 30 });
    assert_eq!(pose_of(&scene, 0), pose);
    assert_eq!(pose_of(&scene, 1), DialPose { radius: SECOND_HOME, angle: TURN / 2 });
    sweep_hands(&mut scene, 1_000_000);
    assert_eq!(pose_of(&scene, 0), pose);
    assert_eq!(pose_of(&scene, 1).angle, TURN / 2 + TURN / 60);
}

#[test]
fn startup_builds_the_clock() {
    let scene = fresh_scene();
    let s = &scene.entities;
    assert_eq!(s.len(), 18);
    let cameras = s.iter().filter(|e| matches!(e.body, Body::Camera(_))).count();
    let lights = s.iter().filter(|e| matches!(e.body, Body::Light(_))).count();
    let faces = s.iter().filter(|e| matches!(e.body, Body::Face(_))).count();
    let ticks = s.iter().filter(|e| e.name == "Clock Indicator" && e.parent == Some(2)).count();
    let hands = s.iter().filter(|e| hand_named(&e.name).is_some() && e.parent == Some(2)).count();
    assert_eq!((cameras, lights, faces, ticks, hands), (1, 1, 1, 12, 3));
    for k in 0..12u64 {
        assert_eq!(pose_of(&scene, 3 + k as usize), DialPose { radius: 8_000_000, angle: k * (TURN / 12) });
    }
    assert_eq!(pose_of(&scene, 15), DialPose { radius: HOUR_HOME, angle: 0 });
    assert_eq!(pose_of(&scene, 16), DialPose { radius: MINUTE_HOME, angle: 0 });
    assert_eq!(pose_of(&scene, 17), DialPose { radius: SECOND_HOME, angle: 0 });
    assert_eq!(s[2].body, Body::Face(Shape::Cylinder { radius: 10_000_000, height: 1_000_000 }));
}

#[test]
fn spawn_clock_keeps_existing_entities() {
    let mut scene = Scene::new();
    scene.spawn("first".to_string(), None, Body::Face(Shape::Cuboid { x: 1, y: 2, z: 3 }));
    spawn_clock(&mut scene);
    assert_eq!(scene.len(), 17);
    assert_eq!(scene.entities[0].name, "first");
    assert_eq!(scene.entities[2].parent, Some(1));
    assert_eq!(scene.entities[16].name, "Second Indicator");
    assert!(matches!(scene.entities[16].body, Body::Marker { color: Color::Red, .. }));
}

#[test]
fn real_time_is_idempotent() {
    let t = TimeOfDay { hour: 7, minute: 42, second: 9 };
    let mut scene = fresh_scene();
    set_hands_to_time(&mut scene, t);
    let once: Vec<DialPose> = (0..18).filter(|&i| i >= 3).map(|i| pose_of(&scene, i)).collect();
    set_hands_to_time(&mut scene, t);
    let twice: Vec<DialPose> = (3..18).map(|i| pose_of(&scene, i)).collect();
    assert_eq!(once, twice);
    assert_eq!(pose_of(&scene, 17).angle, 9 * (TURN / 60));
    assert_eq!(pose_of(&scene, 16).angle, 42 * (TURN / 60));
    assert_eq!(pose_of(&scene, 15).angle, 7 * (TURN / 12));
}

#[test]
fn real_time_resets_a_swept_hand() {
    let t = TimeOfDay { hour: 1, minute: 2, second: 3 };
    let mut scene = fresh_scene();
    sweep_hands(&mut scene, 12_345_678);
    set_hands_to_time(&mut scene, t);
    let mut direct = fresh_scene();
    set_hands_to_time(&mut direct, t);
    for i in 0..18 {
        assert_eq!(scene.entities[i].body, direct.entities[i].body);
    }
}

#[test]
fn simulated_mode_accumulates() {
    let dt = 250_000u64;
    let mut scene = fresh_scene();
    sweep_hands(&mut scene, dt);
    let first = pose_of(&scene, 17);
    assert_eq!(first.angle, TURN / 240);
    sweep_hands(&mut scene, dt);
    let second = pose_of(&scene, 17);
    assert_eq!(second.angle, first.rotate_around(dt * 3600).angle);
    assert_eq!(second.angle, TURN / 120);
    assert_eq!(pose_of(&scene, 16).angle, 2 * dt * 60);
    assert_eq!(pose_of(&scene, 15).angle, 2 * dt);
    // Tick marks never move.
    assert_eq!(pose_of(&scene, 3).angle, 0);
    assert_eq!(pose_of(&scene, 4).angle, TURN / 12);
}

#[test]
fn clock_rotate_simulated_matches_sweep() {
    let mut a = fresh_scene();
    let mut b = fresh_scene();
    clock_rotate(&mut a, &ClockData { real_time: false }, 3_000_000);
    sweep_hands(&mut b, 3_000_000);
    for i in 0..18 {
        assert_eq!(a.entities[i].body, b.entities[i].body);
    }
    assert_eq!(pose_of(&a, 17).angle, TURN / 20);
}

#[test]
fn clock_rotate_real_time_places_hands_from_home() {
    let mut scene = fresh_scene();
    sweep_hands(&mut scene, 777);
    clock_rotate(&mut scene, &ClockData { real_time: true }, 0);
    let sec = pose_of(&scene, 17);
    let min = pose_of(&scene, 16);
    let hour = pose_of(&scene, 15);
    assert_eq!(sec.radius, SECOND_HOME);
    assert_eq!(min.radius, MINUTE_HOME);
    assert_eq!(hour.radius, HOUR_HOME);
    assert_eq!(sec.angle % (TURN / 60), 0);
    assert_eq!(min.angle % (TURN / 60), 0);
    assert_eq!(hour.angle % (TURN / 12), 0);
}

#[test]
fn empty_scene_is_a_no_op() {
    let mut scene = Scene::new();
    sweep_hands(&mut scene, 1_000_000);
    set_hands_to_time(&mut scene, TimeOfDay { hour: 1, minute: 1, second: 1 });
    assert_eq!(scene.len(), 0);
    assert!(!ClockData::default().real_time);
}
