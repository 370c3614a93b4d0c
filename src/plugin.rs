//! The scene's shared setup: a window title, a camera and a light, and the
//! camera's key-driven flight.
use vstd::prelude::*;
use crate::camera::{
    CameraPose, MoveKey, Vec3, axes_of, axes_view, fits_i64, moved_position, move_camera,
    movement_axes, POSITION_SCALE, DIRECTION_SCALE,
};
use crate::scene::{Body, Entity, Light, Scene};

verus! {

/// Illuminance of the scene's light in lux: an overcast day.
pub const OVERCAST_DAY_LUX: u64 = 1000;

/// The scene's directional light: overcast daylight that casts shadows, with
/// its shadow cascades tightened to a near bound of 4 and a far bound of
/// 10 000 units, in micro-units.
pub open spec fn scene_light() -> Light {
    Light {
        illuminance: OVERCAST_DAY_LUX,
        shadows_enabled: true,
        first_cascade_far_bound: 4_000_000,
        maximum_distance: 10_000_000_000,
    }
}

/// The default camera: 50 units along +z, looking at the origin with +y up,
/// so its right is +x, its up +y and its forward -z.
pub open spec fn default_camera() -> CameraPose {
    CameraPose {
        position: Vec3 { x: 0, y: 0, z: (50 * POSITION_SCALE) as i64 },
        right: Vec3 { x: DIRECTION_SCALE, y: 0, z: 0 },
        up: Vec3 { x: 0, y: DIRECTION_SCALE, z: 0 },
        forward: Vec3 { x: 0, y: 0, z: (-DIRECTION_SCALE) as i64 },
    }
}

/// The vector with the components of `t`.
pub open spec fn vec_of(t: (int, int, int)) -> Vec3 {
    Vec3 { x: t.0 as i64, y: t.1 as i64, z: t.2 as i64 }
}

/// An entity after the camera moves for `dt` microseconds under axes `a`:
/// cameras change position, nothing else changes.
pub open spec fn entity_moved(e: Entity, a: (int, int, int), dt: int) -> Entity {
    match e.body {
        Body::Camera(c) => Entity {
            name: e.name,
            parent: e.parent,
            body: Body::Camera(CameraPose { position: vec_of(moved_position(a, c, dt)), ..c }),
        },
        _ => e,
    }
}

/// The window title and the camera the scene starts with.
#[derive(Debug)]
pub struct TutorialPlugin {
    pub title: String,
    pub camera_transform: CameraPose,
}

impl Default for TutorialPlugin {
    /// An empty title and the default camera.
    fn default() -> (r: Self)
        ensures
            r.title@ == Seq::<char>::empty(),
            r.camera_transform == default_camera(),
    {
        TutorialPlugin {
            title: String::new(),
            camera_transform: CameraPose {
                position: Vec3 { x: 0, y: 0, z: 50 * POSITION_SCALE },
                right: Vec3 { x: DIRECTION_SCALE, y: 0, z: 0 },
                up: Vec3 { x: 0, y: DIRECTION_SCALE, z: 0 },
                forward: Vec3 { x: 0, y: 0, z: -DIRECTION_SCALE },
            },
        }
    }
}

impl TutorialPlugin {
    /// Adds the camera, at `camera_transform`, and the light to the scene,
    /// neither with a name or a parent. The entities already there stay.
    pub fn startup(scene: &mut Scene, camera_transform: CameraPose)
        requires
            old(scene).entities@.len() + 2 < usize::MAX,
        ensures
            ({
                let b = old(scene).entities@.len() as int;
                let s = final(scene).entities@;
                &&& s.len() == b + 2
                &&& s.take(b) == old(scene).entities@
                &&& s[b].name@ == Seq::<char>::empty() && s[b].parent == None::<usize>
                &&& s[b].body == Body::Camera(camera_transform)
                &&& s[b + 1].name@ == Seq::<char>::empty() && s[b + 1].parent == None::<usize>
                &&& s[b + 1].body == Body::Light(scene_light())
            }),
    {
        let ghost b = old(scene).entities@.len() as int;
        scene.spawn(String::new(), None, Body::Camera(camera_transform));
        let light = Light {
            illuminance: OVERCAST_DAY_LUX,
            shadows_enabled: true,
            first_cascade_far_bound: 4_000_000,
            maximum_distance: 10_000_000_000,
        };
        scene.spawn(String::new(), None, Body::Light(light));
        assert(scene.entities@.take(b) =~= old(scene).entities@);
    }

    /// Moves every camera of the scene for `dt` microseconds by the held
    /// keys, in its own axes, at the fixed speed. A scene without a camera
    /// is left as it is.
    pub fn camera_movement(scene: &mut Scene, keys: &Vec<MoveKey>, dt: u64)
        requires
            old(scene).wf(),
            keys@.no_duplicates(),
            forall|i: int| 0 <= i < old(scene).entities@.len() && (#[trigger] old(scene).entities@[i]).body is Camera
                ==> fits_i64(moved_position(axes_of(keys@), old(scene).entities@[i].body->Camera_0, dt as int)),
        ensures
            final(scene).wf(),
            final(scene).entities@ == old(scene).entities@.map_values(
                |e: Entity| entity_moved(e, axes_of(keys@), dt as int),
            ),
    {
        let axes = movement_axes(keys);
        let ghost a = axes_of(keys@);
        assert(axes_view(axes) == a);
        let n = scene.entities.len();
        let mut i: usize = 0;
        while i < n
            invariant
                i <= n,
                n == old(scene).entities@.len(),
                axes.wf(),
                axes_view(axes) == a,
                scene.entities@.len() == n,
                forall|j: int| 0 <= j < n && (#[trigger] old(scene).entities@[j]).body is Camera
                    ==> fits_i64(moved_position(a, old(scene).entities@[j].body->Camera_0, dt as int)),
                forall|j: int| 0 <= j < i ==> scene.entities@[j] == entity_moved(#[trigger] old(scene).entities@[j], a, dt as int),
                forall|j: int| i <= j < n ==> scene.entities@[j] == #[trigger] old(scene).entities@[j],
                forall|j: int| 0 <= j < n ==> crate::scene::body_wf(#[trigger] scene.entities@[j].body),
            decreases n - i,
        {
            let body = scene.entities[i].body;
            match body {
                Body::Camera(c) => {
                    let mut cam = c;
                    assert(old(scene).entities@[i as int].body is Camera);
                    move_camera(&mut cam, axes, dt);
                    scene.entities[i].body = Body::Camera(cam);
                },
                _ => {},
            }
            i = i + 1;
        }
        assert(scene.entities@ =~= old(scene).entities@.map_values(|e: Entity| entity_moved(e, a, dt as int)));
    }
}

} // verus!
