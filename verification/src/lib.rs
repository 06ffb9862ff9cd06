//! Telemetry frames for a small flight controller: a sixteen-bit checksum, a
//! wrapping sequence counter, the heartbeat and attitude frames built from
//! them, and the scripts that carry a frame over a serial link, directly or
//! through a companion network module driven by text commands.

pub mod buffer;
pub mod crc;
pub mod frame;
pub mod sequence;
pub mod telemetry;
pub mod transport;
