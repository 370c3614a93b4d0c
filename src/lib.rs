//! A small 3D clock scene: a camera that flies under key control and an
//! analog clock whose hands follow the wall clock or sweep with frame time.
//!
//! Everything here works in exact fixed-point integers: positions and sizes
//! are counted in micro-units (or pico-units for the camera), angles in
//! `dial::TURN`-ths of a full turn, and time in microseconds.
pub mod dial;
pub mod clock;
pub mod camera;
pub mod scene;
pub mod clock_scene;
pub mod plugin;
