//! An orbit camera controller for a camera that circles a sphere.
//!
//! Every scalar is a fixed-point number counted in millionths: a degree, a pixel, a unit of
//! distance or of zoom level, a second. The controller keeps the zoom level, the look angles and
//! the open gestures of one rig, and tells its caller which corrections of the rig are due in a
//! tick; trigonometry and rotations are the caller's part.
pub mod fixed;
pub mod smoothing;
pub mod config;
pub mod state;
pub mod events;
pub mod controller;
pub mod exercises;
pub mod guessing;
pub mod tile;
