//! Verified gameplay rules for a 2D platformer: reading contact normals,
//! ground detection, upright stabilisation, locomotion, a grappling hook
//! and a camera rig.
//!
//! The library decides and computes; it never touches the physics engine,
//! the input devices or the window. Its callers hand it what the engine
//! reported this tick and carry out what it answers.
//!
//! Every quantity is fixed-point: an `i64` count of millionths of a unit, a
//! factor or a radian (see [`units`]). Callers that hold floating-point
//! values convert them at the boundary.

pub mod angle;
pub mod camera;
pub mod contact;
pub mod entity;
pub mod grapple;
pub mod ground;
pub mod locomotion;
pub mod units;
pub mod upright;
pub mod vector;
