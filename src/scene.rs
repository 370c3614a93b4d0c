//! An explicit registry of the scene's entities: each entity has a stable
//! index, a name, an optional parent, and a typed body.
use vstd::prelude::*;
use crate::camera::CameraPose;
use crate::dial::DialPose;

verus! {

/// A mesh's shape, sizes in micro-units.
#[derive(Clone, Copy, Debug, PartialEq, Eq)]
pub enum Shape {
    Cylinder { radius: u64, height: u64 },
    Cuboid { x: u64, y: u64, z: u64 },
}

/// A mesh's material color.
#[derive(Clone, Copy, Debug, PartialEq, Eq)]
pub enum Color {
    Plain,
    Gray,
    Black,
    Red,
}

/// A directional light: illuminance in lux, shadow casting, and the bounds
/// of its shadow cascades in micro-units.
#[derive(Clone, Copy, Debug, PartialEq, Eq)]
pub struct Light {
    pub illuminance: u64,
    pub shadows_enabled: bool,
    pub first_cascade_far_bound: u64,
    pub maximum_distance: u64,
}

/// What an entity is.
#[derive(Clone, Copy, Debug, PartialEq, Eq)]
pub enum Body {
    Camera(CameraPose),
    Light(Light),
    /// The clock face, lying flat at the origin.
    Face(Shape),
    /// A mesh placed on the dial: a tick mark or a hand.
    Marker { shape: Shape, color: Color, pose: DialPose },
}

pub open spec fn body_wf(b: Body) -> bool {
    match b {
        Body::Camera(c) => c.wf(),
        Body::Marker { pose, .. } => pose.wf(),
        _ => true,
    }
}

/// One entity of the scene.
#[derive(Debug)]
pub struct Entity {
    pub name: String,
    pub parent: Option<usize>,
    pub body: Body,
}

/// The scene: entity `i` is `entities[i]`.
#[derive(Debug)]
pub struct Scene {
    pub entities: Vec<Entity>,
}

impl Scene {
    /// Every camera and every dial pose is well formed.
    pub open spec fn wf(&self) -> bool {
        forall|i: int| 0 <= i < self.entities@.len() ==> body_wf(#[trigger] self.entities@[i].body)
    }

    /// An empty scene.
    pub fn new() -> (r: Scene)
        ensures
            r.entities@.len() == 0,
            r.wf(),
    {
        Scene { entities: Vec::new() }
    }

    /// Adds an entity and returns its index.
    pub fn spawn(&mut self, name: String, parent: Option<usize>, body: Body) -> (id: usize)
        requires
            old(self).entities@.len() < usize::MAX,
        ensures
            id == old(self).entities@.len(),
            final(self).entities@ == old(self).entities@.push(Entity { name, parent, body }),
    {
        let id = self.entities.len();
        self.entities.push(Entity { name, parent, body });
        id
    }

    /// The number of entities.
    pub fn len(&self) -> (r: usize)
        ensures
            r == self.entities@.len(),
    {
        self.entities.len()
    }
}

} // verus!
