//! Values that the CA device exchanges with the host: slot and descrambler
//! descriptions and their constants.

use vstd::prelude::*;

verus! {

/// CI high level interface.
pub const CA_CI: u32 = 1;
/// CI link layer level interface.
pub const CA_CI_LINK: u32 = 2;
/// CI physical layer level interface.
pub const CA_CI_PHYS: u32 = 4;
/// Built-in descrambler.
pub const CA_DESCR: u32 = 8;
/// Simple smart card interface.
pub const CA_SC: u32 = 128;

/// No module in the slot.
pub const CA_CI_MODULE_NOT_FOUND: u32 = 0;
/// Module (or card) inserted.
pub const CA_CI_MODULE_PRESENT: u32 = 1;
/// Module is ready for usage.
pub const CA_CI_MODULE_READY: u32 = 2;

/// European Common Descrambler (ECD) hardware.
pub const CA_ECD: u32 = 1;
/// Videoguard (NDS) hardware.
pub const CA_NDS: u32 = 2;
/// Distributed Sample Scrambling (DSS) hardware.
pub const CA_DSS: u32 = 4;

/// CA slot interface type and state.
#[derive(Debug, Clone, Copy, PartialEq, Eq, Structural, Default)]
pub struct CaSlotInfo {
    /// Slot number.
    pub slot_num: u32,
    /// Slot type, one of `CA_CI` .. `CA_SC`.
    pub slot_type: u32,
    /// Flags of the slot: `CA_CI_MODULE_PRESENT`, `CA_CI_MODULE_READY`.
    pub flags: u32,
}

/// Descrambler types and info.
#[derive(Debug, Clone, Copy, PartialEq, Eq, Structural, Default)]
pub struct CaDescrInfo {
    /// Number of available descramblers (keys).
    pub descr_num: u32,
    /// Type of supported scrambling system: `CA_ECD`, `CA_NDS`, `CA_DSS`.
    pub descr_type: u32,
}

/// CA slot interface capabilities.
#[derive(Debug, Clone, Copy, PartialEq, Eq, Structural, Default)]
pub struct CaCaps {
    /// Total number of CA card and module slots.
    pub slot_num: u32,
    /// Bitmap of all supported slot types.
    pub slot_type: u32,
    /// Total number of descrambler slots (keys).
    pub descr_num: u32,
    /// Bitmap of all supported descrambler types.
    pub descr_type: u32,
}

/// A message to or from a CI-CAM.
#[derive(Debug, Clone, Copy)]
pub struct CaMsg {
    /// Unused.
    pub index: u32,
    /// Unused.
    pub typ: u32,
    /// Length of the message.
    pub length: u32,
    /// The message.
    pub msg: [u8; 256],
}

impl CaMsg {
    /// An empty message.
    pub fn new() -> (r: CaMsg)
        ensures
            r.length == 0,
            forall|i: int| 0 <= i < 256 ==> r.msg@[i] == 0u8,
    {
        CaMsg { index: 0, typ: 0, length: 0, msg: [0u8; 256] }
    }
}

/// CA descrambler control words.
#[derive(Debug, Clone, Copy, PartialEq, Eq, Default)]
pub struct CaDescr {
    /// CA descrambler slot.
    pub index: u32,
    /// Control words parity: 0 is even, 1 is odd.
    pub parity: u32,
    /// CA descrambler control words.
    pub cw: [u8; 8],
}

/// Assigns a PID to a descrambler.
#[derive(Debug, Clone, Copy, PartialEq, Eq, Structural, Default)]
pub struct CaPid {
    /// The PID.
    pub pid: u32,
    /// The descrambler, or -1 to disable.
    pub index: i32,
}

} // verus!
