//! Key-driven camera flight in the camera's own axes.
use vstd::prelude::*;

verus! {

/// Fixed-point scale of the camera's basis vectors: a unit vector has
/// length `DIRECTION_SCALE`.
pub const DIRECTION_SCALE: i64 = 1_000_000;

/// Camera speed in world units per second.
pub const SPEED: i64 = 10;

/// Fixed-point scale of the camera's position: one world unit is
/// `POSITION_SCALE` pico-units. With basis vectors at micro scale and time in
/// microseconds, a step of `SPEED * dt` along a basis vector is exact.
pub const POSITION_SCALE: i64 = 1_000_000_000_000;

/// A vector of three fixed-point integers.
#[derive(Clone, Copy, Debug, PartialEq, Eq)]
pub struct Vec3 {
    pub x: i64,
    pub y: i64,
    pub z: i64,
}

/// The spec-level triple of a vector.
pub open spec fn v3(v: Vec3) -> (int, int, int) {
    (v.x as int, v.y as int, v.z as int)
}

/// `k * v`, componentwise.
pub open spec fn scale(k: int, v: (int, int, int)) -> (int, int, int) {
    (k * v.0, k * v.1, k * v.2)
}

/// `a + b`, componentwise.
pub open spec fn add3(a: (int, int, int), b: (int, int, int)) -> (int, int, int) {
    (a.0 + b.0, a.1 + b.1, a.2 + b.2)
}

pub open spec fn fits_i64(v: (int, int, int)) -> bool {
    i64::MIN <= v.0 <= i64::MAX && i64::MIN <= v.1 <= i64::MAX && i64::MIN <= v.2 <= i64::MAX
}

/// A camera: its position in pico-units and its right, up and forward unit
/// vectors at `DIRECTION_SCALE`.
#[derive(Clone, Copy, Debug, PartialEq, Eq)]
pub struct CameraPose {
    pub position: Vec3,
    pub right: Vec3,
    pub up: Vec3,
    pub forward: Vec3,
}

pub open spec fn unit_bounded(v: Vec3) -> bool {
    -DIRECTION_SCALE <= v.x <= DIRECTION_SCALE && -DIRECTION_SCALE <= v.y <= DIRECTION_SCALE
        && -DIRECTION_SCALE <= v.z <= DIRECTION_SCALE
}

impl CameraPose {
    /// Each component of a basis vector is at most a unit in size.
    pub open spec fn wf(&self) -> bool {
        unit_bounded(self.right) && unit_bounded(self.up) && unit_bounded(self.forward)
    }
}

/// A movement key: W/S forward and back, A/D left and right, Q/E down and up.
#[derive(Clone, Copy, Debug, PartialEq, Eq)]
pub enum MoveKey {
    KeyW,
    KeyA,
    KeyS,
    KeyD,
    KeyQ,
    KeyE,
}

/// How much each of the camera's axes is asked for: -1, 0 or +1 each.
#[derive(Clone, Copy, Debug, PartialEq, Eq)]
pub struct MoveAxes {
    pub x: i64,
    pub y: i64,
    pub z: i64,
}

impl MoveAxes {
    pub open spec fn wf(&self) -> bool {
        -1 <= self.x <= 1 && -1 <= self.y <= 1 && -1 <= self.z <= 1
    }
}

/// 1 if `k` is held, else 0.
pub open spec fn held(keys: Seq<MoveKey>, k: MoveKey) -> int {
    if keys.contains(k) { 1 } else { 0 }
}

/// The contribution of an opposing pair: +1 for `pos` alone, -1 for `neg`
/// alone, 0 for neither or both.
pub open spec fn axis(keys: Seq<MoveKey>, pos: MoveKey, neg: MoveKey) -> int {
    held(keys, pos) - held(keys, neg)
}

/// The axes asked for by a set of held keys.
pub open spec fn axes_of(keys: Seq<MoveKey>) -> (int, int, int) {
    (
        axis(keys, MoveKey::KeyD, MoveKey::KeyA),
        axis(keys, MoveKey::KeyE, MoveKey::KeyQ),
        axis(keys, MoveKey::KeyW, MoveKey::KeyS),
    )
}

/// The direction of travel, before scaling: the sum of the camera's basis
/// vectors weighted by the axes.
pub open spec fn direction(a: (int, int, int), c: CameraPose) -> (int, int, int) {
    add3(add3(scale(a.0, v3(c.right)), scale(a.1, v3(c.up))), scale(a.2, v3(c.forward)))
}

/// The displacement in pico-units over `dt` microseconds.
pub open spec fn displacement(a: (int, int, int), c: CameraPose, dt: int) -> (int, int, int) {
    scale(SPEED * dt, direction(a, c))
}

/// Where the camera stands after moving for `dt` microseconds.
pub open spec fn moved_position(a: (int, int, int), c: CameraPose, dt: int) -> (int, int, int) {
    add3(v3(c.position), displacement(a, c, dt))
}

proof fn lemma_push_contains(s: Seq<MoveKey>, k: MoveKey, m: MoveKey)
    ensures
        s.push(k).contains(m) <==> (s.contains(m) || m == k),
{
    if s.contains(m) {
        let j = choose|j: int| 0 <= j < s.len() && s[j] == m;
        assert(s.push(k)[j] == m);
    }
    if m == k {
        assert(s.push(k)[s.len() as int] == m);
    }
    if s.push(k).contains(m) {
        let j = choose|j: int| 0 <= j < s.len() + 1 && s.push(k)[j] == m;
        if j < s.len() {
            assert(s[j] == m);
        }
    }
}

/// Reads the axes off a set of held keys.
pub fn movement_axes(keys: &Vec<MoveKey>) -> (r: MoveAxes)
    requires
        keys@.no_duplicates(),
    ensures
        (r.x as int, r.y as int, r.z as int) == axes_of(keys@),
        r.wf(),
{
    let mut x: i64 = 0;
    let mut y: i64 = 0;
    let mut z: i64 = 0;
    let mut i: usize = 0;
    while i < keys.len()
        invariant
            i <= keys@.len(),
            keys@.no_duplicates(),
            (x as int, y as int, z as int) == axes_of(keys@.take(i as int)),
        decreases keys@.len() - i,
    {
        let k = keys[i];
        proof {
            let s = keys@.take(i as int);
            assert(keys@.take(i as int + 1) =~= s.push(k));
            assert(!s.contains(k)) by {
                if s.contains(k) {
                    let j = choose|j: int| 0 <= j < s.len() && s[j] == k;
                    assert(keys@[j] == keys@[i as int]);
                }
            }
            lemma_push_contains(s, k, MoveKey::KeyW);
            lemma_push_contains(s, k, MoveKey::KeyA);
            lemma_push_contains(s, k, MoveKey::KeyS);
            lemma_push_contains(s, k, MoveKey::KeyD);
            lemma_push_contains(s, k, MoveKey::KeyQ);
            lemma_push_contains(s, k, MoveKey::KeyE);
        }
        match k {
            MoveKey::KeyW => z = z + 1,
            MoveKey::KeyS => z = z - 1,
            MoveKey::KeyA => x = x - 1,
            MoveKey::KeyD => x = x + 1,
            MoveKey::KeyQ => y = y - 1,
            MoveKey::KeyE => y = y + 1,
        }
        i = i + 1;
    }
    assert(keys@.take(i as int) =~= keys@);
    MoveAxes { x, y, z }
}

/// The basis vector a key asks for, with its sign: W forward, S backward,
/// D right, A left, E up, Q down.
pub open spec fn key_vector(k: MoveKey, c: CameraPose) -> (int, int, int) {
    match k {
        MoveKey::KeyW => v3(c.forward),
        MoveKey::KeyS => scale(-1, v3(c.forward)),
        MoveKey::KeyD => v3(c.right),
        MoveKey::KeyA => scale(-1, v3(c.right)),
        MoveKey::KeyE => v3(c.up),
        MoveKey::KeyQ => scale(-1, v3(c.up)),
    }
}

/// `key_vector(k, c)` if `k` is held, else zero.
pub open spec fn selected(keys: Seq<MoveKey>, k: MoveKey, c: CameraPose) -> (int, int, int) {
    if keys.contains(k) { key_vector(k, c) } else { (0, 0, 0) }
}

/// The plain vector sum of the basis vectors that the held keys select.
pub open spec fn selected_sum(keys: Seq<MoveKey>, c: CameraPose) -> (int, int, int) {
    add3(
        add3(
            add3(selected(keys, MoveKey::KeyW, c), selected(keys, MoveKey::KeyS, c)),
            add3(selected(keys, MoveKey::KeyA, c), selected(keys, MoveKey::KeyD, c)),
        ),
        add3(selected(keys, MoveKey::KeyQ, c), selected(keys, MoveKey::KeyE, c)),
    )
}

proof fn lemma_pair(keys: Seq<MoveKey>, pos: MoveKey, neg: MoveKey, c: CameraPose, v: (int, int, int))
    requires
        key_vector(pos, c) == v,
        key_vector(neg, c) == scale(-1, v),
    ensures
        scale(axis(keys, pos, neg), v) == add3(selected(keys, pos, c), selected(keys, neg, c)),
{
    let k = axis(keys, pos, neg);
    assert(0 * v.0 == 0 && 0 * v.1 == 0 && 0 * v.2 == 0) by (nonlinear_arith);
    if keys.contains(pos) == keys.contains(neg) {
        assert(scale(k, v) == scale(0, v));
    } else if keys.contains(pos) {
        assert(scale(k, v) == scale(1, v));
    } else {
        assert(scale(k, v) == scale(-1, v));
    }
}

/// For every set of held keys, the direction of travel before scaling is the
/// sum of the basis vectors the keys select, and holding both keys of an
/// opposing pair adds nothing on that axis.
pub proof fn lemma_direction_is_selected_sum(keys: Seq<MoveKey>, c: CameraPose)
    ensures
        direction(axes_of(keys), c) == selected_sum(keys, c),
        keys.contains(MoveKey::KeyD) && keys.contains(MoveKey::KeyA) ==> axes_of(keys).0 == 0,
        keys.contains(MoveKey::KeyE) && keys.contains(MoveKey::KeyQ) ==> axes_of(keys).1 == 0,
        keys.contains(MoveKey::KeyW) && keys.contains(MoveKey::KeyS) ==> axes_of(keys).2 == 0,
{
    lemma_pair(keys, MoveKey::KeyD, MoveKey::KeyA, c, v3(c.right));
    lemma_pair(keys, MoveKey::KeyE, MoveKey::KeyQ, c, v3(c.up));
    lemma_pair(keys, MoveKey::KeyW, MoveKey::KeyS, c, v3(c.forward));
}

/// Displacement is linear in elapsed time at the fixed speed: it is
/// `SPEED * dt` times the direction, the steps of two intervals add up to the
/// step of their sum, and doubling the time doubles the step.
pub proof fn lemma_displacement_linear(a: (int, int, int), c: CameraPose, dt1: int, dt2: int)
    ensures
        displacement(a, c, dt1) == scale(SPEED * dt1, direction(a, c)),
        displacement(a, c, dt1 + dt2) == add3(displacement(a, c, dt1), displacement(a, c, dt2)),
        displacement(a, c, 2 * dt1) == scale(2, displacement(a, c, dt1)),
{
    let d = direction(a, c);
    assert(SPEED * (dt1 + dt2) * d.0 == SPEED * dt1 * d.0 + SPEED * dt2 * d.0) by (nonlinear_arith);
    assert(SPEED * (dt1 + dt2) * d.1 == SPEED * dt1 * d.1 + SPEED * dt2 * d.1) by (nonlinear_arith);
    assert(SPEED * (dt1 + dt2) * d.2 == SPEED * dt1 * d.2 + SPEED * dt2 * d.2) by (nonlinear_arith);
    assert(SPEED * (2 * dt1) * d.0 == 2 * (SPEED * dt1 * d.0)) by (nonlinear_arith);
    assert(SPEED * (2 * dt1) * d.1 == 2 * (SPEED * dt1 * d.1)) by (nonlinear_arith);
    assert(SPEED * (2 * dt1) * d.2 == 2 * (SPEED * dt1 * d.2)) by (nonlinear_arith);
}

/// The spec-level triple of the axes.
pub open spec fn axes_view(a: MoveAxes) -> (int, int, int) {
    (a.x as int, a.y as int, a.z as int)
}

/// `a * u + b * v + c * w` for one component, with each weight in -1..=1 and
/// each term at most a unit.
fn weighted_sum(a: i64, u: i64, b: i64, v: i64, c: i64, w: i64) -> (r: i64)
    requires
        -1 <= a <= 1,
        -1 <= b <= 1,
        -1 <= c <= 1,
        -DIRECTION_SCALE <= u <= DIRECTION_SCALE,
        -DIRECTION_SCALE <= v <= DIRECTION_SCALE,
        -DIRECTION_SCALE <= w <= DIRECTION_SCALE,
    ensures
        r == a * u + b * v + c * w,
        -3 * DIRECTION_SCALE <= r <= 3 * DIRECTION_SCALE,
{
    assert(-DIRECTION_SCALE <= a * u <= DIRECTION_SCALE) by (nonlinear_arith)
        requires
            -1 <= a <= 1,
            -DIRECTION_SCALE <= u <= DIRECTION_SCALE,
    ;
    assert(-DIRECTION_SCALE <= b * v <= DIRECTION_SCALE) by (nonlinear_arith)
        requires
            -1 <= b <= 1,
            -DIRECTION_SCALE <= v <= DIRECTION_SCALE,
    ;
    assert(-DIRECTION_SCALE <= c * w <= DIRECTION_SCALE) by (nonlinear_arith)
        requires
            -1 <= c <= 1,
            -DIRECTION_SCALE <= w <= DIRECTION_SCALE,
    ;
    a * u + b * v + c * w
}

/// The direction of travel, before scaling, at `DIRECTION_SCALE`.
pub fn direction_of(axes: MoveAxes, cam: &CameraPose) -> (r: Vec3)
    requires
        axes.wf(),
        cam.wf(),
    ensures
        v3(r) == direction(axes_view(axes), *cam),
        -3 * DIRECTION_SCALE <= r.x <= 3 * DIRECTION_SCALE,
        -3 * DIRECTION_SCALE <= r.y <= 3 * DIRECTION_SCALE,
        -3 * DIRECTION_SCALE <= r.z <= 3 * DIRECTION_SCALE,
{
    Vec3 {
        x: weighted_sum(axes.x, cam.right.x, axes.y, cam.up.x, axes.z, cam.forward.x),
        y: weighted_sum(axes.x, cam.right.y, axes.y, cam.up.y, axes.z, cam.forward.y),
        z: weighted_sum(axes.x, cam.right.z, axes.y, cam.up.z, axes.z, cam.forward.z),
    }
}

/// `p + SPEED * dt * d`, one component of a step.
fn step_component(p: i64, d: i64, dt: u64) -> (r: i64)
    requires
        -3 * DIRECTION_SCALE <= d <= 3 * DIRECTION_SCALE,
        i64::MIN <= p + (SPEED * dt) * d <= i64::MAX,
    ensures
        r == p + (SPEED * dt) * d,
{
    let dw = d as i128;
    let tw = dt as i128;
    assert(-30_000_000 <= dw * 10 <= 30_000_000);
    assert(-30_000_000 * 18_446_744_073_709_551_615 <= (dw * 10) * tw <= 30_000_000
        * 18_446_744_073_709_551_615) by (nonlinear_arith)
        requires
            -30_000_000 <= dw * 10 <= 30_000_000,
            0 <= tw <= 18_446_744_073_709_551_615,
    ;
    let s = dw * (SPEED as i128) * tw;
    assert(s == (SPEED * dt) * d) by (nonlinear_arith)
        requires
            s == dw * 10 * tw,
            dw == d,
            tw == dt,
            SPEED == 10,
    ;
    (p as i128 + s) as i64
}

/// Moves the camera for `dt` microseconds along the axes asked for, in its
/// own right, up and forward directions, at `SPEED` units per second. Only
/// the position changes.
pub fn move_camera(cam: &mut CameraPose, axes: MoveAxes, dt: u64)
    requires
        old(cam).wf(),
        axes.wf(),
        fits_i64(moved_position(axes_view(axes), *old(cam), dt as int)),
    ensures
        v3(final(cam).position) == moved_position(axes_view(axes), *old(cam), dt as int),
        final(cam).right == old(cam).right,
        final(cam).up == old(cam).up,
        final(cam).forward == old(cam).forward,
{
    let d = direction_of(axes, cam);
    let p = cam.position;
    cam.position = Vec3 {
        x: step_component(p.x, d.x, dt),
        y: step_component(p.y, d.y, dt),
        z: step_component(p.z, d.z, dt),
    };
}

} // verus!
