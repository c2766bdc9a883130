//! Host side access to Linux DVB hardware: the EN 50221 Common Interface
//! protocol stack that talks to a conditional access module, and the plain
//! values that describe frontends, demuxes and network interfaces, with
//! what is computed from them: tuning a satellite frontend, checking
//! frontend properties, and normalizing signal statistics.
//!
//! The library decides and frames; it performs no I/O. The program that owns
//! a device file reads frames, flags and properties from it, hands them to
//! the library, and carries out what the library asks for: frames to write,
//! commands to send.

pub mod bytes;
pub mod ca;
pub mod dmx;
pub mod error;
pub mod fe;
pub mod frontend;
pub mod net;
pub mod tune;
