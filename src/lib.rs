//! Gameplay core of a side-scrolling platformer: boxes, collision sides,
//! kinematics, input intents and the player's discrete state.
//!
//! All quantities are fixed-point integers. Lengths are in thousandths of a
//! pixel, durations in microseconds, velocities in length units per second and
//! accelerations in length units per second squared.

pub mod units;
pub mod geometry;
pub mod transform;
pub mod collider;
pub mod physics;
pub mod controller;
pub mod player;
pub mod enemy;
pub mod stage;
pub mod camera;
pub mod tiles;
pub mod game;
pub mod brick;
pub mod animation;

