//! Driver core for a motorized gripper on a CAN FD bus.
//!
//! The crate performs no I/O and holds no floating-point value. Frames are
//! byte arrays, positions, velocities and currents are in the motor's wire
//! units, grip fractions are Q15.16 fixed point, and time is in nanoseconds.
//! The caller owns the bus socket, the network listener and the clock; it
//! hands the library what it read and performs what the library decides.

pub mod wire;
pub mod arith;
pub mod codec;
pub mod transport;
pub mod calibration;
pub mod gripper;
pub mod estimator;
pub mod control;
pub mod remote;
pub mod position_cmd;
