//! A declarative model of a small pinball-style physics scene: a tilted
//! floor, a hinged one-way gate, a bumper and a ball, together with the
//! revolute joint and gravity settings that a physics engine needs to run it.
//!
//! All lengths are fixed-point integers (see [`math`]), so every value the
//! model holds is exact. An engine front end converts the model to its own
//! floating-point types when it registers the scene.

pub mod math;
pub mod scene;
