//! The core of a heading-hold controller for a small boat, in fixed-point
//! arithmetic: compass points, the track fed by GPS fixes, the pilot's
//! heading command, and the PID controller that steers the rudder servo.
//!
//! Every quantity is an integer. Headings and angles are in millidegrees,
//! coordinates in ten millionths of a degree, speeds in thousandths of a
//! knot, distances in millimetres, times in milliseconds, gains in
//! thousandths, pulse widths in nanoseconds and duty cycles in parts per
//! billion. Hardware is not touched: inputs are read from a bank of levels
//! that the caller fills, and the servo's output is a duty cycle that the
//! caller writes out.

pub mod angle;
pub mod compass;
pub mod config;
pub mod control;
pub mod decimal;
pub mod error;
pub mod gpio_input;
pub mod gps_tracker;
pub mod mocks;
pub mod position;
pub mod pwm;
pub mod vector;

pub use crate::gps_tracker::GpsTracker;
