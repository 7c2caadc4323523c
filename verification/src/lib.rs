//! Control core of a two-unit robotic platform: a stationary tracker that
//! localizes a mobile car by passive acoustic time-of-arrival sensing, and
//! the car itself, which homes on the tracker with a closed-loop controller
//! driving two differential motors.
//!
//! The crate holds the verified logic: edge timing and localization on the
//! tracker side, the fixed-size wire codec and the shared latest-value slot
//! in the middle, and the state machine, integer PID controller and
//! dual-motor duty mapping on the car side. Hardware access, WiFi and socket
//! plumbing live outside the crate and exchange plain values with it.

pub mod car;
pub mod common;
pub mod slot;
pub mod tracker;
