//! Values of the demux device.

use vstd::prelude::*;

verus! {

/// Only deliver sections whose CRC check succeeded.
pub const DMX_CHECK_CRC: u32 = 1;
/// Disable the section filter after one section has been delivered.
pub const DMX_ONESHOT: u32 = 2;
/// Start the filter at once, without `DMX_START`.
pub const DMX_IMMEDIATE_START: u32 = 4;

/// The PID that passes all PIDs.
pub const DMX_PID_ALL: u16 = 8192;

/// Packetized Elementary Stream (PES) filter parameters.
#[derive(Debug, Clone, Copy, PartialEq, Eq, Structural, Default)]
pub struct DmxPesFilterParams {
    /// PID to be filtered; `DMX_PID_ALL` passes all.
    pub pid: u16,
    /// Demux input: `DMX_IN_*`.
    pub input: u32,
    /// Demux output: `DMX_OUT_*`.
    pub output: u32,
    /// Type of the filter: `DMX_PES_*`.
    pub pes_type: u32,
    /// Filter flags.
    pub flags: u32,
}

} // verus!
