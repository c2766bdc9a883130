//! Frontend properties of the DVB API version 5.

use vstd::prelude::*;

verus! {

pub const DTV_UNDEFINED: u32 = 0;
pub const DTV_TUNE: u32 = 1;
pub const DTV_CLEAR: u32 = 2;
pub const DTV_FREQUENCY: u32 = 3;
pub const DTV_MODULATION: u32 = 4;
pub const DTV_BANDWIDTH_HZ: u32 = 5;
pub const DTV_INVERSION: u32 = 6;
pub const DTV_DISEQC_MASTER: u32 = 7;
pub const DTV_SYMBOL_RATE: u32 = 8;
pub const DTV_INNER_FEC: u32 = 9;
pub const DTV_VOLTAGE: u32 = 10;
pub const DTV_TONE: u32 = 11;
pub const DTV_PILOT: u32 = 12;
pub const DTV_ROLLOFF: u32 = 13;
pub const DTV_DISEQC_SLAVE_REPLY: u32 = 14;
pub const DTV_FE_CAPABILITY_COUNT: u32 = 15;
pub const DTV_FE_CAPABILITY: u32 = 16;
pub const DTV_DELIVERY_SYSTEM: u32 = 17;
pub const DTV_API_VERSION: u32 = 35;
pub const DTV_GUARD_INTERVAL: u32 = 38;
pub const DTV_TRANSMISSION_MODE: u32 = 39;
pub const DTV_HIERARCHY: u32 = 40;
pub const DTV_STREAM_ID: u32 = 42;
pub const DTV_ENUM_DELSYS: u32 = 44;
pub const DTV_STAT_SIGNAL_STRENGTH: u32 = 62;
pub const DTV_STAT_CNR: u32 = 63;
pub const DTV_STAT_PRE_ERROR_BIT_COUNT: u32 = 64;
pub const DTV_STAT_ERROR_BLOCK_COUNT: u32 = 68;
pub const DTV_SCRAMBLING_SEQUENCE_INDEX: u32 = 70;

/// Output 13V to the LNB: vertical linear, right circular.
pub const SEC_VOLTAGE_13: u32 = 0;
/// Output 18V to the LNB: horizontal linear, left circular.
pub const SEC_VOLTAGE_18: u32 = 1;
/// No DC voltage to the LNB.
pub const SEC_VOLTAGE_OFF: u32 = 2;

/// Send the 22kHz tone.
pub const SEC_TONE_ON: u32 = 0;
/// No 22kHz tone.
pub const SEC_TONE_OFF: u32 = 1;

/// Mini-DiSEqC burst for satellite A.
pub const SEC_MINI_A: u32 = 0;
/// Mini-DiSEqC burst for satellite B.
pub const SEC_MINI_B: u32 = 1;

pub const INVERSION_OFF: u32 = 0;
pub const INVERSION_ON: u32 = 1;
pub const INVERSION_AUTO: u32 = 2;

pub const TRANSMISSION_MODE_AUTO: u32 = 2;
pub const GUARD_INTERVAL_AUTO: u32 = 4;
pub const HIERARCHY_AUTO: u32 = 4;

pub const PILOT_ON: u32 = 0;
pub const PILOT_OFF: u32 = 1;
pub const PILOT_AUTO: u32 = 2;

/// A frontend command and its value.
#[derive(Debug, Clone, Copy, PartialEq, Eq, Structural, Default)]
pub struct Property {
    /// Digital TV command: `DTV_*`.
    pub cmd: u32,
    /// Value of the command.
    pub data: u32,
    /// Result of the command (unused).
    pub result: i32,
}

impl Property {
    /// Command `cmd` with the value `data`.
    pub fn new(cmd: u32, data: u32) -> (r: Property)
        ensures
            r == (Property { cmd, data, result: 0 }),
    {
        Property { cmd, data, result: 0 }
    }
}

/// Frontend parameters of an event.
#[derive(Debug, Clone, Copy, PartialEq, Eq, Structural, Default)]
pub struct Parameters {
    /// Absolute frequency in Hz for DVB-C/DVB-T/ATSC, intermediate frequency
    /// in kHz for DVB-S.
    pub frequency: u32,
}

/// A frontend event.
#[derive(Debug, Clone, Copy, PartialEq, Eq, Structural, Default)]
pub struct Event {
    /// `FE_HAS_*` bits.
    pub status: u32,
    pub parameters: Parameters,
}

} // verus!
