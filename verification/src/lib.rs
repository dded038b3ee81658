//! Verified core of the userspace driver for the RoboRacer track-to-vehicle (T2V)
//! module: IR NEC frames, the driver protocol, and the decisions the driver and
//! its command line tool take between their I/O steps.

pub mod cli;
pub mod device;
pub mod frame;
pub mod path;
pub mod proto;
pub mod setup;
pub mod subscribers;
pub mod unit;
