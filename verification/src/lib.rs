//! Sensor-to-network telemetry bridge core.
//!
//! The crate holds the hardware-independent logic of a small telemetry
//! node: the bit-packed register protocol used to configure and read an
//! inertial/magnetic sensor pair, the line-oriented command/response
//! engine that drives a radio modem through its mode transitions, and
//! the coordinator policy that sequences sample, fuse, serialize and
//! transmit each cycle.  Every bus transaction, serial exchange and
//! settle delay is performed by a thin runtime outside this crate; the
//! functions here decide what to send, how to interpret what came back,
//! and what state follows.

pub mod constants;
pub mod gy87;
pub mod telemetry;
pub mod util;
pub mod wifi;
