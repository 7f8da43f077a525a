//! Motion-control core of a small holonomic robot, in fixed-point arithmetic.
//!
//! Lengths are in micro-units (one millionth of a metre, or of a normalised
//! image unit), angles in micro-radians, and drive intents in millionths of
//! full scale.
use vstd::prelude::*;

pub mod angle;
pub mod controller_service;
pub mod driver;
pub mod fixed;
pub mod gamepad;
pub mod holonomic_controller;
pub mod ioc;
pub mod ir_tracker_localiser;
pub mod lidar;
pub mod localisation;
pub mod navigation;
pub mod simple_collision_detector;
pub mod trig;
