//! The clock in the scene: building its meshes, and turning its hands either
//! to the wall clock or by a steady sweep.
use vstd::prelude::*;
use crate::clock::{Hand, TimeOfDay, home_radius, time_angle, sweep_angle, local_time_of_day};
use crate::dial::{DialPose, TURN, rotated};
use crate::scene::{Body, Color, Entity, Scene, Shape, body_wf};
use crate::plugin::{TutorialPlugin, scene_light};
use crate::camera::CameraPose;

verus! {

/// Whether the hands follow the local wall clock or sweep with frame time.
#[derive(Clone, Copy, Debug, PartialEq, Eq, Default)]
pub struct ClockData {
    pub real_time: bool,
}

/// The exact name that marks an entity as one of the hands.
pub open spec fn hand_name(h: Hand) -> Seq<char> {
    match h {
        Hand::Hour => "Hour Indicator"@,
        Hand::Minute => "Minute Indicator"@,
        Hand::Second => "Second Indicator"@,
    }
}

/// The hand that a name marks, if any: names are compared exactly, case included.
pub open spec fn hand_of_name(n: Seq<char>) -> Option<Hand> {
    if n == hand_name(Hand::Second) {
        Some(Hand::Second)
    } else if n == hand_name(Hand::Minute) {
        Some(Hand::Minute)
    } else if n == hand_name(Hand::Hour) {
        Some(Hand::Hour)
    } else {
        None
    }
}

/// The name of the hand.
pub fn hand_name_of(h: Hand) -> (r: String)
    ensures
        r@ == hand_name(h),
{
    match h {
        Hand::Hour => "Hour Indicator".to_owned(),
        Hand::Minute => "Minute Indicator".to_owned(),
        Hand::Second => "Second Indicator".to_owned(),
    }
}

/// The hand that `name` marks, by exact comparison.
pub fn hand_named(name: &String) -> (r: Option<Hand>)
    ensures
        r == hand_of_name(name@),
{
    if *name == hand_name_of(Hand::Second) {
        Some(Hand::Second)
    } else if *name == hand_name_of(Hand::Minute) {
        Some(Hand::Minute)
    } else if *name == hand_name_of(Hand::Hour) {
        Some(Hand::Hour)
    } else {
        None
    }
}

/// An entity's body once the hands are set to time `t`: a marker named as a
/// hand goes back to its home pose turned by the time's angle; anything else
/// is left alone.
pub open spec fn body_at_time(e: Entity, t: TimeOfDay) -> Body {
    match (e.body, hand_of_name(e.name@)) {
        (Body::Marker { shape, color, .. }, Some(h)) => Body::Marker {
            shape,
            color,
            pose: DialPose { radius: home_radius(h), angle: time_angle(h, t) as u64 },
        },
        _ => e.body,
    }
}

/// An entity's body after the hands sweep for `dt` microseconds: a marker
/// named as a hand turns on from where it stands; anything else is left alone.
pub open spec fn body_swept(e: Entity, dt: int) -> Body {
    match (e.body, hand_of_name(e.name@)) {
        (Body::Marker { shape, color, pose }, Some(h)) => Body::Marker {
            shape,
            color,
            pose: DialPose { radius: pose.radius, angle: rotated(pose.angle as int, sweep_angle(h, dt)) as u64 },
        },
        _ => e.body,
    }
}

pub open spec fn entity_at_time(e: Entity, t: TimeOfDay) -> Entity {
    Entity { name: e.name, parent: e.parent, body: body_at_time(e, t) }
}

pub open spec fn entity_swept(e: Entity, dt: int) -> Entity {
    Entity { name: e.name, parent: e.parent, body: body_swept(e, dt) }
}

/// Sets every hand of the scene to the time `t`, from its home pose: the
/// result depends on `t` alone, not on where the hands stood.
pub fn set_hands_to_time(scene: &mut Scene, t: TimeOfDay)
    requires
        old(scene).wf(),
        t.wf(),
    ensures
        final(scene).wf(),
        final(scene).entities@ == old(scene).entities@.map_values(|e: Entity| entity_at_time(e, t)),
{
    let n = scene.entities.len();
    let mut i: usize = 0;
    while i < n
        invariant
            i <= n,
            n == old(scene).entities@.len(),
            t.wf(),
            scene.entities@.len() == n,
            forall|j: int| 0 <= j < i ==> scene.entities@[j] == entity_at_time(#[trigger] old(scene).entities@[j], t),
            forall|j: int| i <= j < n ==> scene.entities@[j] == #[trigger] old(scene).entities@[j],
            forall|j: int| 0 <= j < n ==> body_wf(#[trigger] scene.entities@[j].body),
        decreases n - i,
    {
        let body = scene.entities[i].body;
        match (body, hand_named(&scene.entities[i].name)) {
            (Body::Marker { shape, color, .. }, Some(h)) => {
                let pose = h.pose_at(t);
                scene.entities[i].body = Body::Marker { shape, color, pose };
            },
            _ => {},
        }
        i = i + 1;
    }
    assert(scene.entities@ =~= old(scene).entities@.map_values(|e: Entity| entity_at_time(e, t)));
}

/// Turns every hand of the scene on from where it stands by what it sweeps
/// in `dt` microseconds.
pub fn sweep_hands(scene: &mut Scene, dt: u64)
    requires
        old(scene).wf(),
    ensures
        final(scene).wf(),
        final(scene).entities@ == old(scene).entities@.map_values(|e: Entity| entity_swept(e, dt as int)),
{
    let n = scene.entities.len();
    let mut i: usize = 0;
    while i < n
        invariant
            i <= n,
            n == old(scene).entities@.len(),
            scene.entities@.len() == n,
            forall|j: int| 0 <= j < i ==> scene.entities@[j] == entity_swept(#[trigger] old(scene).entities@[j], dt as int),
            forall|j: int| i <= j < n ==> scene.entities@[j] == #[trigger] old(scene).entities@[j],
            forall|j: int| 0 <= j < n ==> body_wf(#[trigger] scene.entities@[j].body),
        decreases n - i,
    {
        let body = scene.entities[i].body;
        match (body, hand_named(&scene.entities[i].name)) {
            (Body::Marker { shape, color, pose }, Some(h)) => {
                let pose = h.swept(pose, dt);
                scene.entities[i].body = Body::Marker { shape, color, pose };
            },
            _ => {},
        }
        i = i + 1;
    }
    assert(scene.entities@ =~= old(scene).entities@.map_values(|e: Entity| entity_swept(e, dt as int)));
}

/// Moves the hands once: in real-time mode to the local wall-clock time, read
/// now; otherwise on from where they stand by `dt` microseconds of sweep.
pub fn clock_rotate(scene: &mut Scene, data: &ClockData, dt: u64)
    requires
        old(scene).wf(),
    ensures
        final(scene).wf(),
        data.real_time ==> exists|t: TimeOfDay| t.wf()
            && final(scene).entities@ == old(scene).entities@.map_values(|e: Entity| entity_at_time(e, t)),
        !data.real_time ==> final(scene).entities@ == old(scene).entities@.map_values(
            |e: Entity| entity_swept(e, dt as int),
        ),
{
    if data.real_time {
        let t = local_time_of_day();
        set_hands_to_time(scene, t);
    } else {
        sweep_hands(scene, dt);
    }
}

/// Setting the hands to a time twice is the same as once: each call places
/// the hands afresh from their home poses, nothing accumulates.
pub proof fn lemma_set_hands_idempotent(s: Seq<Entity>, t: TimeOfDay)
    requires
        t.wf(),
    ensures
        s.map_values(|e: Entity| entity_at_time(e, t)).map_values(|e: Entity| entity_at_time(e, t))
            == s.map_values(|e: Entity| entity_at_time(e, t)),
{
    let once = s.map_values(|e: Entity| entity_at_time(e, t));
    let twice = once.map_values(|e: Entity| entity_at_time(e, t));
    assert forall|i: int| 0 <= i < s.len() implies #[trigger] twice[i] == once[i] by {
        assert(once[i] == entity_at_time(s[i], t));
        assert(twice[i] == entity_at_time(once[i], t));
    }
    assert(twice =~= once);
}

/// Sweeping twice by `dt` turns each hand by two single steps composed, from
/// where it stood: the second step starts at the end of the first, and the
/// two turns add up. Everything but the hands is left alone.
pub proof fn lemma_sweep_accumulates(e: Entity, dt: int)
    requires
        body_wf(e.body),
    ensures
        (e.body is Marker && hand_of_name(e.name@) is Some) ==> ({
            let h = hand_of_name(e.name@)->Some_0;
            let p = e.body->pose;
            let d = sweep_angle(h, dt);
            &&& entity_swept(entity_swept(e, dt), dt) == (Entity {
                name: e.name,
                parent: e.parent,
                body: Body::Marker {
                    shape: e.body->shape,
                    color: e.body->color,
                    pose: DialPose { radius: p.radius, angle: rotated(rotated(p.angle as int, d), d) as u64 },
                },
            })
            &&& rotated(rotated(p.angle as int, d), d) == rotated(p.angle as int, d + d)
        }),
        !(e.body is Marker && hand_of_name(e.name@) is Some) ==> entity_swept(entity_swept(e, dt), dt) == e,
{
    if e.body is Marker && hand_of_name(e.name@) is Some {
        let h = hand_of_name(e.name@)->Some_0;
        let p = e.body->pose;
        let d = sweep_angle(h, dt);
        let n = TURN as int;
        let a1 = rotated(p.angle as int, d);
        assert(0 <= a1 < n);
        assert(a1 as u64 as int == a1);
        vstd::arithmetic::div_mod::lemma_add_mod_noop_right(d, p.angle as int + d, n);
        assert(d + p.angle as int + d == p.angle as int + (d + d));
    }
}

/// Distance of the tick marks from the pivot, in micro-units.
pub const TICK_RADIUS: u64 = 8_000_000;

/// Number of tick marks around the dial.
pub const TICK_COUNT: u64 = 12;

/// The name shared by the tick marks.
pub open spec fn tick_name() -> Seq<char> {
    "Clock Indicator"@
}

/// The clock face: a cylinder of radius 10 and height 1.
pub open spec fn face_body() -> Body {
    Body::Face(Shape::Cylinder { radius: 10_000_000, height: 1_000_000 })
}

/// Tick mark `k`: a gray block at `TICK_RADIUS`, `k` twelfths of a turn round.
pub open spec fn tick_body(k: int) -> Body {
    Body::Marker {
        shape: Shape::Cuboid { x: 1_000_000, y: 1_500_000, z: 3_000_000 },
        color: Color::Gray,
        pose: DialPose { radius: TICK_RADIUS, angle: (k * TURN as int / 12) as u64 },
    }
}

/// A hand in its home pose: the hour and minute hands black, the second
/// hand red, each longer and thinner than the last.
pub open spec fn hand_body(h: Hand) -> Body {
    Body::Marker {
        shape: match h {
            Hand::Hour => Shape::Cuboid { x: 500_000, y: 1_500_000, z: 3_000_000 },
            Hand::Minute => Shape::Cuboid { x: 250_000, y: 1_500_000, z: 6_000_000 },
            Hand::Second => Shape::Cuboid { x: 100_000, y: 1_500_000, z: 9_000_000 },
        },
        color: match h {
            Hand::Second => Color::Red,
            _ => Color::Black,
        },
        pose: DialPose { radius: home_radius(h), angle: 0 },
    }
}

/// Whether entity `i` of `s` is the hand `h`, hung under entity `face`.
pub open spec fn is_hand_at(s: Seq<Entity>, i: int, h: Hand, face: int) -> bool {
    s[i].name@ == hand_name(h) && s[i].parent == Some(face as usize) && s[i].body == hand_body(h)
}

fn spawn_hand(scene: &mut Scene, face: usize, h: Hand)
    requires
        old(scene).entities@.len() < usize::MAX,
    ensures
        final(scene).entities@.len() == old(scene).entities@.len() + 1,
        final(scene).entities@.take(old(scene).entities@.len() as int) == old(scene).entities@,
        is_hand_at(final(scene).entities@, old(scene).entities@.len() as int, h, face as int),
{
    let shape = match h {
        Hand::Hour => Shape::Cuboid { x: 500_000, y: 1_500_000, z: 3_000_000 },
        Hand::Minute => Shape::Cuboid { x: 250_000, y: 1_500_000, z: 6_000_000 },
        Hand::Second => Shape::Cuboid { x: 100_000, y: 1_500_000, z: 9_000_000 },
    };
    let color = match h {
        Hand::Second => Color::Red,
        _ => Color::Black,
    };
    let pose = DialPose::home(h.home_radius());
    scene.spawn(hand_name_of(h), Some(face), Body::Marker { shape, color, pose });
    assert(scene.entities@.take(old(scene).entities@.len() as int) =~= old(scene).entities@);
}

/// Builds the clock: a face with no parent, then twelve tick marks and the
/// hour, minute and second hands, all children of the face. The entities
/// already in the scene stay as they are.
pub fn spawn_clock(scene: &mut Scene)
    requires
        old(scene).entities@.len() + 16 < usize::MAX,
    ensures
        ({
            let b = old(scene).entities@.len() as int;
            let s = final(scene).entities@;
            &&& s.len() == b + 16
            &&& s.take(b) == old(scene).entities@
            &&& s[b].name@ == Seq::<char>::empty() && s[b].parent == None::<usize> && s[b].body == face_body()
            &&& forall|k: int| 0 <= k < 12 ==> (#[trigger] s[b + 1 + k]).name@ == tick_name()
                && s[b + 1 + k].parent == Some(b as usize) && s[b + 1 + k].body == tick_body(k)
            &&& is_hand_at(s, b + 13, Hand::Hour, b)
            &&& is_hand_at(s, b + 14, Hand::Minute, b)
            &&& is_hand_at(s, b + 15, Hand::Second, b)
        }),
{
    let ghost b = old(scene).entities@.len() as int;
    let face = scene.spawn(String::new(), None, Body::Face(Shape::Cylinder { radius: 10_000_000, height: 1_000_000 }));
    let mut k: u64 = 0;
    while k < TICK_COUNT
        invariant
            face == b,
            b + 16 < usize::MAX,
            k <= 12,
            scene.entities@.len() == b + 1 + k,
            scene.entities@.take(b) == old(scene).entities@,
            scene.entities@[b].name@ == Seq::<char>::empty(),
            scene.entities@[b].parent == None::<usize>,
            scene.entities@[b].body == face_body(),
            forall|j: int| 0 <= j < k ==> (#[trigger] scene.entities@[b + 1 + j]).name@ == tick_name()
                && scene.entities@[b + 1 + j].parent == Some(b as usize) && scene.entities@[b + 1 + j].body == tick_body(j),
        decreases TICK_COUNT - k,
    {
        assert(k * 18_000_000_000 == k * TURN as int / 12) by (nonlinear_arith)
            requires
                0 <= k <= 12,
                TURN == 216_000_000_000,
        ;
        let angle = k * 18_000_000_000;
        let pose = DialPose { radius: TICK_RADIUS, angle };
        let shape = Shape::Cuboid { x: 1_000_000, y: 1_500_000, z: 3_000_000 };
        let ghost prev = scene.entities@;
        scene.spawn("Clock Indicator".to_owned(), Some(face), Body::Marker { shape, color: Color::Gray, pose });
        assert(scene.entities@.take(b) =~= prev.take(b));
        k = k + 1;
    }
    let ghost before_hands = scene.entities@;
    spawn_hand(scene, face, Hand::Hour);
    spawn_hand(scene, face, Hand::Minute);
    spawn_hand(scene, face, Hand::Second);
    proof {
        let s = scene.entities@;
        assert(s.take(b + 13) =~= before_hands);
        assert(s.take(b) =~= before_hands.take(b));
        assert forall|j: int| 0 <= j < 12 implies (#[trigger] s[b + 1 + j]).name@ == tick_name()
            && s[b + 1 + j].parent == Some(b as usize) && s[b + 1 + j].body == tick_body(j) by {
            assert(s[b + 1 + j] == s.take(b + 13)[b + 1 + j]);
        }
        assert(s[b] == s.take(b + 13)[b]);
        assert(s[b + 13] == s.take(b + 14)[b + 13]);
        assert(s[b + 14] == s.take(b + 15)[b + 14]);
    }
}

/// The scene at start: the camera, the light, the face, the twelve tick marks
/// and the three hands, in that order.
pub open spec fn is_startup_layout(s: Seq<Entity>, camera: CameraPose) -> bool {
    &&& s.len() == 18
    &&& s[0].name@ == Seq::<char>::empty() && s[0].parent == None::<usize> && s[0].body == Body::Camera(camera)
    &&& s[1].name@ == Seq::<char>::empty() && s[1].parent == None::<usize> && s[1].body == Body::Light(scene_light())
    &&& s[2].name@ == Seq::<char>::empty() && s[2].parent == None::<usize> && s[2].body == face_body()
    &&& forall|k: int| 0 <= k < 12 ==> (#[trigger] s[3 + k]).name@ == tick_name()
        && s[3 + k].parent == Some(2usize) && s[3 + k].body == tick_body(k)
    &&& is_hand_at(s, 15, Hand::Hour, 2)
    &&& is_hand_at(s, 16, Hand::Minute, 2)
    &&& is_hand_at(s, 17, Hand::Second, 2)
}

/// Builds the whole scene from the plugin's settings: its camera and light,
/// then the clock.
pub fn build_scene(plugin: &TutorialPlugin) -> (r: Scene)
    ensures
        is_startup_layout(r.entities@, plugin.camera_transform),
{
    let mut scene = Scene::new();
    TutorialPlugin::startup(&mut scene, plugin.camera_transform);
    let ghost after_plugin = scene.entities@;
    spawn_clock(&mut scene);
    proof {
        let s = scene.entities@;
        assert(s[0] == s.take(2)[0]);
        assert(s[1] == s.take(2)[1]);
        assert forall|k: int| 0 <= k < 12 implies (#[trigger] s[3 + k]).name@ == tick_name()
            && s[3 + k].parent == Some(2usize) && s[3 + k].body == tick_body(k) by {
            assert(s[3 + k] == s[2 + 1 + k]);
        }
    }
    scene
}

/// How many entities of `s` satisfy `p`.
pub open spec fn count(s: Seq<Entity>, p: spec_fn(Entity) -> bool) -> nat
    decreases s.len(),
{
    if s.len() == 0 {
        0
    } else {
        count(s.drop_last(), p) + if p(s.last()) { 1nat } else { 0nat }
    }
}

pub open spec fn is_camera(e: Entity) -> bool {
    e.body is Camera
}

pub open spec fn is_light(e: Entity) -> bool {
    e.body is Light
}

pub open spec fn is_face(e: Entity) -> bool {
    e.body is Face
}

/// A tick mark hung under the entity at index `face`.
pub open spec fn is_tick_of(e: Entity, face: usize) -> bool {
    e.name@ == tick_name() && e.body is Marker && e.parent == Some(face)
}

/// A hand, named as one, hung under the entity at index `face`.
pub open spec fn is_hand_of(e: Entity, face: usize) -> bool {
    hand_of_name(e.name@) is Some && e.body is Marker && e.parent == Some(face)
}

/// Over a stretch `lo..hi` where `p` holds everywhere or nowhere, the count
/// grows by the stretch's length or not at all.
proof fn lemma_count_stretch(s: Seq<Entity>, p: spec_fn(Entity) -> bool, lo: int, hi: int, v: bool)
    requires
        0 <= lo <= hi <= s.len(),
        forall|i: int| lo <= i < hi ==> p(#[trigger] s[i]) == v,
    ensures
        count(s.take(hi), p) == count(s.take(lo), p) + if v { (hi - lo) as nat } else { 0nat },
    decreases hi - lo,
{
    if hi > lo {
        lemma_count_stretch(s, p, lo, hi - 1, v);
        assert(s.take(hi).drop_last() =~= s.take(hi - 1));
        assert(s.take(hi).last() == s[hi - 1]);
    }
}

/// Counts `p` over the five stretches of the start-up layout: the camera, the
/// light, the face, the ticks and the hands.
proof fn lemma_count_layout(s: Seq<Entity>, p: spec_fn(Entity) -> bool, c: bool, l: bool, f: bool, t: bool, h: bool)
    requires
        s.len() == 18,
        p(s[0]) == c,
        p(s[1]) == l,
        p(s[2]) == f,
        forall|i: int| 3 <= i < 15 ==> p(#[trigger] s[i]) == t,
        forall|i: int| 15 <= i < 18 ==> p(#[trigger] s[i]) == h,
    ensures
        count(s, p) == (if c { 1nat } else { 0nat }) + (if l { 1nat } else { 0nat }) + (if f { 1nat } else { 0nat })
            + (if t { 12nat } else { 0nat }) + (if h { 3nat } else { 0nat }),
{
    assert(s.take(0).len() == 0);
    lemma_count_stretch(s, p, 0, 1, c);
    lemma_count_stretch(s, p, 1, 2, l);
    lemma_count_stretch(s, p, 2, 3, f);
    lemma_count_stretch(s, p, 3, 15, t);
    lemma_count_stretch(s, p, 15, 18, h);
    assert(s.take(18) =~= s);
}

/// The scene at start holds exactly one camera, one light, one clock face,
/// twelve tick marks under the face and three named hands under the face.
pub proof fn lemma_startup_counts(s: Seq<Entity>, camera: CameraPose)
    requires
        is_startup_layout(s, camera),
    ensures
        count(s, |e: Entity| is_camera(e)) == 1,
        count(s, |e: Entity| is_light(e)) == 1,
        count(s, |e: Entity| is_face(e)) == 1,
        count(s, |e: Entity| is_tick_of(e, 2)) == 12,
        count(s, |e: Entity| is_hand_of(e, 2)) == 3,
{
    reveal_strlit("Clock Indicator");
    reveal_strlit("Hour Indicator");
    reveal_strlit("Minute Indicator");
    reveal_strlit("Second Indicator");
    assert forall|i: int| 3 <= i < 15 implies is_tick_of(#[trigger] s[i], 2) && !is_hand_of(s[i], 2) by {
        assert(s[i] == s[3 + (i - 3)]);
        assert(s[i].name@.len() != hand_name(Hand::Hour).len());
        assert(s[i].name@.len() != hand_name(Hand::Minute).len());
    }
    assert forall|i: int| 15 <= i < 18 implies !is_tick_of(#[trigger] s[i], 2) && is_hand_of(s[i], 2) by {
        assert(hand_name(Hand::Minute)[0] != hand_name(Hand::Second)[0]);
        assert(tick_name().len() != hand_name(Hand::Hour).len());
        assert(tick_name().len() != hand_name(Hand::Minute).len());
    }
    assert(s[0].name@.len() != tick_name().len());
    assert(s[0].name@.len() != hand_name(Hand::Hour).len());
    assert(s[0].name@.len() != hand_name(Hand::Minute).len());
    lemma_count_layout(s, |e: Entity| is_camera(e), true, false, false, false, false);
    lemma_count_layout(s, |e: Entity| is_light(e), false, true, false, false, false);
    lemma_count_layout(s, |e: Entity| is_face(e), false, false, true, false, false);
    lemma_count_layout(s, |e: Entity| is_tick_of(e, 2), false, false, false, true, false);
    lemma_count_layout(s, |e: Entity| is_hand_of(e, 2), false, false, false, false, true);
}

} // verus!
