//! Values that a frontend exchanges with the host, and their constants.

use vstd::prelude::*;

verus! {

/// Supports "2nd generation" modulation, e.g. DVB-S2, DVB-T2, DVB-C2.
pub const FE_CAN_2G_MODULATION: u32 = 0x1000_0000;
/// Supports multistream filtering.
pub const FE_CAN_MULTISTREAM: u32 = 0x0400_0000;
/// Can auto-detect frequency spectral band inversion.
pub const FE_CAN_INVERSION_AUTO: u32 = 0x1;
/// Can auto-detect the transmission mode.
pub const FE_CAN_TRANSMISSION_MODE_AUTO: u32 = 0x2_0000;
/// Can auto-detect the guard interval.
pub const FE_CAN_GUARD_INTERVAL_AUTO: u32 = 0x8_0000;
/// Can auto-detect the hierarchy.
pub const FE_CAN_HIERARCHY_AUTO: u32 = 0x10_0000;

/// The frontend has no lock of any kind.
pub const FE_NONE: u32 = 0x00;
/// Has found something above the noise level.
pub const FE_HAS_SIGNAL: u32 = 0x01;
/// Has found a signal.
pub const FE_HAS_CARRIER: u32 = 0x02;
/// FEC inner coding is stable.
pub const FE_HAS_VITERBI: u32 = 0x04;
/// Synchronization bytes were found.
pub const FE_HAS_SYNC: u32 = 0x08;
/// Locked, everything works.
pub const FE_HAS_LOCK: u32 = 0x10;

/// 8-VSB modulation.
pub const VSB_8: u32 = 7;
/// 16-VSB modulation.
pub const VSB_16: u32 = 8;

pub const SYS_UNDEFINED: u32 = 0;
pub const SYS_DVBC_ANNEX_A: u32 = 1;
pub const SYS_DVBC_ANNEX_B: u32 = 2;
pub const SYS_DVBT: u32 = 3;
pub const SYS_DSS: u32 = 4;
pub const SYS_DVBS: u32 = 5;
pub const SYS_DVBS2: u32 = 6;
pub const SYS_DVBH: u32 = 7;
pub const SYS_ISDBT: u32 = 8;
pub const SYS_ISDBS: u32 = 9;
pub const SYS_ISDBC: u32 = 10;
pub const SYS_ATSC: u32 = 11;
pub const SYS_ATSCMH: u32 = 12;
pub const SYS_DTMB: u32 = 13;
pub const SYS_CMMB: u32 = 14;
pub const SYS_DAB: u32 = 15;
pub const SYS_DVBT2: u32 = 16;
pub const SYS_TURBO: u32 = 17;
pub const SYS_DVBC_ANNEX_C: u32 = 18;
pub const SYS_DVBC2: u32 = 19;

/// The measure is not available.
pub const FE_SCALE_NOT_AVAILABLE: u8 = 0;
/// In steps of 0.001 dB.
pub const FE_SCALE_DECIBEL: u8 = 1;
/// Relative, from 0 (0%) to 0xFFFF (100%).
pub const FE_SCALE_RELATIVE: u8 = 2;
/// Counts events: bit errors, block errors, elapsed time.
pub const FE_SCALE_COUNTER: u8 = 3;

/// Statistics a property can hold.
pub const MAX_DTV_STATS: usize = 4;

/// Events the frontend queues.
pub const FE_MAX_EVENT: usize = 8;

/// Frontend properties and capabilities. Frequencies are in Hz for
/// terrestrial and cable systems, in kHz for satellite systems.
#[derive(Debug, Clone, Copy)]
pub struct FeInfo {
    /// Name of the frontend, NUL terminated.
    pub name: [u8; 128],
    /// Deprecated frontend type.
    pub fe_type: u32,
    pub frequency_min: u32,
    pub frequency_max: u32,
    /// All frequencies are multiples of this value.
    pub frequency_stepsize: u32,
    pub frequency_tolerance: u32,
    /// In bauds.
    pub symbol_rate_min: u32,
    /// In bauds.
    pub symbol_rate_max: u32,
    /// In ppm.
    pub symbol_rate_tolerance: u32,
    /// Deprecated.
    pub notifier_delay: u32,
    /// Capabilities: `FE_CAN_*` bits.
    pub caps: u32,
}

impl Default for FeInfo {
    /// A frontend with no name, no ranges and no capabilities.
    fn default() -> (r: FeInfo)
        ensures
            forall|i: int| 0 <= i < 128 ==> r.name@[i] == 0u8,
            r.frequency_min == 0 && r.frequency_max == 0,
            r.symbol_rate_min == 0 && r.symbol_rate_max == 0,
            r.caps == 0,
    {
        FeInfo {
            name: [0u8; 128],
            fe_type: 0,
            frequency_min: 0,
            frequency_max: 0,
            frequency_stepsize: 0,
            frequency_tolerance: 0,
            symbol_rate_min: 0,
            symbol_rate_max: 0,
            symbol_rate_tolerance: 0,
            notifier_delay: 0,
            caps: 0,
        }
    }
}

/// DiSEqC master command.
#[derive(Debug, Clone, Copy, PartialEq, Eq, Default)]
pub struct DiseqcMasterCmd {
    /// Framing, address and command, then up to three bytes of argument.
    pub msg: [u8; 6],
    /// Length of the message, 3 to 6.
    pub len: u8,
}

impl DiseqcMasterCmd {
    /// The command as the device call takes it.
    pub fn as_ptr(&self) -> (r: &DiseqcMasterCmd)
        ensures
            *r == *self,
    {
        self
    }
}

/// DiSEqC reply.
#[derive(Debug, Clone, Copy, PartialEq, Eq, Default)]
pub struct DiseqcSlaveReply {
    /// Framing, then up to three bytes of data.
    pub msg: [u8; 4],
    /// Length of the message, 0 to 4; 0 is no message.
    pub len: u8,
    /// Milliseconds to wait for a reply.
    pub timeout: u32,
}

/// A delivery system, named as users know it.
#[derive(Debug, Clone, Copy, PartialEq, Eq, Structural)]
pub struct DeliverySystemDisplay(pub u32);

/// The name of delivery system `system`.
pub open spec fn delivery_system_name(system: u32) -> Seq<char> {
    if system == SYS_UNDEFINED {
        "none"@
    } else if system == SYS_DVBC_ANNEX_A {
        "dvb-c"@
    } else if system == SYS_DVBC_ANNEX_B {
        "dvb-c/b"@
    } else if system == SYS_DVBT {
        "dvb-t"@
    } else if system == SYS_DSS {
        "dss"@
    } else if system == SYS_DVBS {
        "dvb-s"@
    } else if system == SYS_DVBS2 {
        "dvb-s2"@
    } else if system == SYS_DVBH {
        "dvb-h"@
    } else if system == SYS_ISDBT {
        "isdb-t"@
    } else if system == SYS_ISDBS {
        "isdb-s"@
    } else if system == SYS_ISDBC {
        "isdb-c"@
    } else if system == SYS_ATSC {
        "atsc"@
    } else if system == SYS_ATSCMH {
        "atsc-m/h"@
    } else if system == SYS_DTMB {
        "dtmb"@
    } else if system == SYS_CMMB {
        "cmmb"@
    } else if system == SYS_DAB {
        "dab"@
    } else if system == SYS_DVBT2 {
        "dvb-t2"@
    } else if system == SYS_TURBO {
        "dvb-s/turbo"@
    } else if system == SYS_DVBC_ANNEX_C {
        "dvb-c/c"@
    } else if system == SYS_DVBC2 {
        "dvb-c2"@
    } else {
        "unknown"@
    }
}

impl DeliverySystemDisplay {
    /// The name of the delivery system.
    pub fn name(&self) -> (r: &'static str)
        ensures
            r@ == delivery_system_name(self.0),
    {
        let system = self.0;
        if system == SYS_UNDEFINED {
            "none"
        } else if system == SYS_DVBC_ANNEX_A {
            "dvb-c"
        } else if system == SYS_DVBC_ANNEX_B {
            "dvb-c/b"
        } else if system == SYS_DVBT {
            "dvb-t"
        } else if system == SYS_DSS {
            "dss"
        } else if system == SYS_DVBS {
            "dvb-s"
        } else if system == SYS_DVBS2 {
            "dvb-s2"
        } else if system == SYS_DVBH {
            "dvb-h"
        } else if system == SYS_ISDBT {
            "isdb-t"
        } else if system == SYS_ISDBS {
            "isdb-s"
        } else if system == SYS_ISDBC {
            "isdb-c"
        } else if system == SYS_ATSC {
            "atsc"
        } else if system == SYS_ATSCMH {
            "atsc-m/h"
        } else if system == SYS_DTMB {
            "dtmb"
        } else if system == SYS_CMMB {
            "cmmb"
        } else if system == SYS_DAB {
            "dab"
        } else if system == SYS_DVBT2 {
            "dvb-t2"
        } else if system == SYS_TURBO {
            "dvb-s/turbo"
        } else if system == SYS_DVBC_ANNEX_C {
            "dvb-c/c"
        } else if system == SYS_DVBC2 {
            "dvb-c2"
        } else {
            "unknown"
        }
    }
}

/// One statistic of a frontend property.
#[derive(Debug, Clone, Copy, PartialEq, Eq, Structural)]
pub struct DtvStats {
    /// Scale of the value: `FE_SCALE_*`.
    pub scale: u8,
    pub value: i64,
}

/// The statistics of a frontend property.
#[derive(Debug, Clone, Copy)]
pub struct DtvFrontendStats {
    /// Number of statistics in use.
    pub len: u8,
    pub stat: [DtvStats; MAX_DTV_STATS],
}

impl DtvFrontendStats {
    /// Number of statistics in use that the array holds.
    pub open spec fn used(&self) -> int {
        if self.len as int <= MAX_DTV_STATS as int {
            self.len as int
        } else {
            MAX_DTV_STATS as int
        }
    }

    /// The value of the first statistic in use with scale `scale`.
    pub fn find_scale(&self, scale: u8) -> (r: Option<i64>)
        ensures
            r matches Some(v) ==> exists|i: int|
                0 <= i < self.used() && self.stat@[i].scale == scale && v == self.stat@[i].value
                    && forall|j: int| 0 <= j < i ==> self.stat@[j].scale != scale,
            r is None ==> forall|i: int| 0 <= i < self.used() ==> self.stat@[i].scale != scale,
    {
        let n: usize = if (self.len as usize) < MAX_DTV_STATS {
            self.len as usize
        } else {
            MAX_DTV_STATS
        };
        let mut i: usize = 0;
        while i < n
            invariant
                n == self.used(),
                i <= n,
                n <= MAX_DTV_STATS,
                forall|j: int| 0 <= j < i ==> self.stat@[j].scale != scale,
            decreases n - i,
        {
            let s = self.stat[i];
            if s.scale == scale {
                return Some(s.value);
            }
            i += 1;
        }
        None
    }

    /// The value of the first counter among the statistics in use.
    pub fn get_counter(&self) -> (r: Option<u64>)
        ensures
            r matches Some(v) ==> exists|i: int|
                0 <= i < self.used() && self.stat@[i].scale == FE_SCALE_COUNTER && v == self.stat@[i].value
                    as u64 && forall|j: int| 0 <= j < i ==> self.stat@[j].scale != FE_SCALE_COUNTER,
            r is None ==> forall|i: int| 0 <= i < self.used() ==> self.stat@[i].scale != FE_SCALE_COUNTER,
    {
        match self.find_scale(FE_SCALE_COUNTER) {
            Some(v) => Some(v as u64),
            None => None,
        }
    }
}

/// Frontend parameters of an event.
#[derive(Debug, Clone, Copy, PartialEq, Eq, Structural, Default)]
pub struct FeParameters {
    /// Absolute frequency in Hz for DVB-C/DVB-T/ATSC, intermediate
    /// frequency in kHz for DVB-S.
    pub frequency: u32,
    pub inversion: u32,
}

/// A frontend event.
#[derive(Debug, Clone, Copy, PartialEq, Eq, Structural, Default)]
pub struct FeEvent {
    /// `FE_HAS_*` bits.
    pub status: u32,
    pub parameters: FeParameters,
}

} // verus!
