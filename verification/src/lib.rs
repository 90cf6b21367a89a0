//! Intent-based locomotion and orbital follow-camera logic, modelled in
//! fixed-point arithmetic so that every rule of the simulation core is
//! verified: intent production (keyboard sampling and the autonomous
//! driver), the corrective-force computation, the orbit-camera state, and
//! the cursor-capture state machine.

pub mod fx;
pub mod vec3;
pub mod cursor;
pub mod movement;
pub mod player;
pub mod creature;
pub mod camera;
