//! Decision logic of a tilt-controlled USB mouse.
//!
//! An accelerometer reading and a push-button are turned into boot-protocol
//! mouse reports, and eight lamps show the direction of tilt. The crate holds
//! the rules only: every function is a pure step from plain values to plain
//! values, so the firmware around it can run each step inside one critical
//! section and hand the results to the hardware.

pub mod direction;
pub mod led;
pub mod motion;
pub mod report;
pub mod schedule;
pub mod usb;
