//! What a frontend is and what it can tune.
//!
//! `FeDevice` holds what the frontend reported about itself; the program
//! that owns the device file queries the frontend and builds it with
//! `FeDevice::new`, and checks properties against it before it sets them.

pub mod status;
pub mod sys;

use vstd::prelude::*;
use crate::error::{Error, PropertyError};
use crate::frontend::{
    Property, DTV_FREQUENCY, DTV_GUARD_INTERVAL, DTV_HIERARCHY, DTV_INVERSION, DTV_STREAM_ID,
    DTV_SYMBOL_RATE, DTV_TRANSMISSION_MODE, GUARD_INTERVAL_AUTO, HIERARCHY_AUTO, INVERSION_AUTO,
    TRANSMISSION_MODE_AUTO,
};
use self::sys::{
    FeInfo, FE_CAN_GUARD_INTERVAL_AUTO, FE_CAN_HIERARCHY_AUTO, FE_CAN_INVERSION_AUTO,
    FE_CAN_MULTISTREAM, FE_CAN_TRANSMISSION_MODE_AUTO,
};

verus! {

/// Bytes of the delivery system list that a frontend reports.
pub const DELIVERY_SYSTEM_BUFFER: usize = 32;

/// Where the first NUL of `name` at `i` or after stands, or -1.
pub open spec fn first_nul(name: Seq<u8>, i: int) -> int
    decreases name.len() - i,
{
    if i < 0 || i >= name.len() {
        -1
    } else if name[i] == 0 {
        i
    } else {
        first_nul(name, i + 1)
    }
}

/// The bytes of `name` before its first NUL; none where it has no NUL.
pub open spec fn c_name(name: Seq<u8>) -> Seq<u8> {
    let n = first_nul(name, 0);
    if n < 0 {
        Seq::empty()
    } else {
        name.subrange(0, n)
    }
}

/// The delivery systems in the first `len` bytes of `buffer` (at most all
/// of them).
pub open spec fn delivery_systems(buffer: Seq<u8>, len: u32) -> Seq<u32> {
    let n = if len as int <= buffer.len() { len as int } else { buffer.len() as int };
    buffer.subrange(0, n).map_values(|b: u8| b as u32)
}

/// What a frontend reported about itself.
pub struct FeDevice {
    api_version: u16,
    name: Vec<u8>,
    delivery_system_list: Vec<u32>,
    frequency_min: u32,
    frequency_max: u32,
    symbolrate_min: u32,
    symbolrate_max: u32,
    caps: u32,
}

impl FeDevice {
    pub closed spec fn spec_api_version(&self) -> u16 {
        self.api_version
    }

    pub closed spec fn spec_name(&self) -> Seq<u8> {
        self.name@
    }

    pub closed spec fn spec_delivery_systems(&self) -> Seq<u32> {
        self.delivery_system_list@
    }

    /// The frequencies the frontend tunes: from the first, inclusive, to the
    /// second, exclusive.
    pub closed spec fn spec_frequency_range(&self) -> (u32, u32) {
        (self.frequency_min, self.frequency_max)
    }

    /// The symbol rates the frontend tunes: from the first, inclusive, to
    /// the second, exclusive.
    pub closed spec fn spec_symbolrate_range(&self) -> (u32, u32) {
        (self.symbolrate_min, self.symbolrate_max)
    }

    pub closed spec fn spec_caps(&self) -> u32 {
        self.caps
    }

    /// What `info`, the API version property `api_version` and the first
    /// `delivery_len` bytes of the delivery system buffer `delivery` say of a
    /// frontend.
    pub fn new(info: &FeInfo, api_version: u16, delivery: &[u8; 32], delivery_len: u32) -> (r: FeDevice)
        ensures
            r.spec_api_version() == api_version,
            r.spec_name() == c_name(info.name@),
            r.spec_delivery_systems() == delivery_systems(delivery@, delivery_len),
            r.spec_frequency_range() == (info.frequency_min, info.frequency_max),
            r.spec_symbolrate_range() == (info.symbol_rate_min, info.symbol_rate_max),
            r.spec_caps() == info.caps,
    {
        let mut name: Vec<u8> = Vec::new();
        let mut i: usize = 0;
        while i < 128 && info.name[i] != 0
            invariant
                i <= 128,
                info.name@.len() == 128,
                name@ == info.name@.subrange(0, i as int),
                first_nul(info.name@, 0) == first_nul(info.name@, i as int),
            decreases 128 - i,
        {
            name.push(info.name[i]);
            i += 1;
            assert(name@ =~= info.name@.subrange(0, i as int));
        }
        if i == 128 {
            name = Vec::new();
            assert(name@ =~= c_name(info.name@));
        }
        let n: usize = if (delivery_len as usize) < DELIVERY_SYSTEM_BUFFER {
            delivery_len as usize
        } else {
            DELIVERY_SYSTEM_BUFFER
        };
        let mut list: Vec<u32> = Vec::new();
        let mut k: usize = 0;
        while k < n
            invariant
                n <= 32,
                k <= n,
                list@ == delivery@.subrange(0, k as int).map_values(|b: u8| b as u32),
            decreases n - k,
        {
            list.push(delivery[k] as u32);
            k += 1;
            assert(list@ =~= delivery@.subrange(0, k as int).map_values(|b: u8| b as u32));
        }
        assert(list@ =~= delivery_systems(delivery@, delivery_len));
        FeDevice {
            api_version,
            name,
            delivery_system_list: list,
            frequency_min: info.frequency_min,
            frequency_max: info.frequency_max,
            symbolrate_min: info.symbol_rate_min,
            symbolrate_max: info.symbol_rate_max,
            caps: info.caps,
        }
    }

    /// Why the frontend refuses `p`, if it does.
    pub open spec fn property_fault(&self, p: Property) -> Option<PropertyError> {
        let (fmin, fmax) = self.spec_frequency_range();
        let (smin, smax) = self.spec_symbolrate_range();
        let caps = self.spec_caps();
        if p.cmd == DTV_FREQUENCY && !(fmin <= p.data < fmax) {
            Some(PropertyError::FrequencyOutOfRange)
        } else if p.cmd == DTV_SYMBOL_RATE && !(smin <= p.data < smax) {
            Some(PropertyError::SymbolRateOutOfRange)
        } else if p.cmd == DTV_INVERSION && p.data == INVERSION_AUTO && caps & FE_CAN_INVERSION_AUTO == 0 {
            Some(PropertyError::NoInversionAuto)
        } else if p.cmd == DTV_TRANSMISSION_MODE && p.data == TRANSMISSION_MODE_AUTO && caps
            & FE_CAN_TRANSMISSION_MODE_AUTO == 0 {
            Some(PropertyError::NoTransmissionModeAuto)
        } else if p.cmd == DTV_GUARD_INTERVAL && p.data == GUARD_INTERVAL_AUTO && caps
            & FE_CAN_GUARD_INTERVAL_AUTO == 0 {
            Some(PropertyError::NoGuardIntervalAuto)
        } else if p.cmd == DTV_HIERARCHY && p.data == HIERARCHY_AUTO && caps & FE_CAN_HIERARCHY_AUTO == 0 {
            Some(PropertyError::NoHierarchyAuto)
        } else if p.cmd == DTV_STREAM_ID && caps & FE_CAN_MULTISTREAM == 0 {
            Some(PropertyError::NoMultistream)
        } else {
            None
        }
    }

    /// The fault of the first property of `cmdseq` that the frontend
    /// refuses.
    pub open spec fn first_fault(&self, cmdseq: Seq<Property>) -> Option<PropertyError>
        decreases cmdseq.len(),
    {
        if cmdseq.len() == 0 {
            None
        } else {
            match self.property_fault(cmdseq[0]) {
                Some(e) => Some(e),
                None => self.first_fault(cmdseq.subrange(1, cmdseq.len() as int)),
            }
        }
    }

    /// Why the frontend refuses `p`, if it does.
    fn check_property(&self, p: &Property) -> (r: Option<PropertyError>)
        ensures
            r == self.property_fault(*p),
    {
        if p.cmd == DTV_FREQUENCY && !(self.frequency_min <= p.data && p.data < self.frequency_max) {
            Some(PropertyError::FrequencyOutOfRange)
        } else if p.cmd == DTV_SYMBOL_RATE && !(self.symbolrate_min <= p.data && p.data < self.symbolrate_max) {
            Some(PropertyError::SymbolRateOutOfRange)
        } else if p.cmd == DTV_INVERSION && p.data == INVERSION_AUTO && self.caps & FE_CAN_INVERSION_AUTO == 0 {
            Some(PropertyError::NoInversionAuto)
        } else if p.cmd == DTV_TRANSMISSION_MODE && p.data == TRANSMISSION_MODE_AUTO && self.caps
            & FE_CAN_TRANSMISSION_MODE_AUTO == 0 {
            Some(PropertyError::NoTransmissionModeAuto)
        } else if p.cmd == DTV_GUARD_INTERVAL && p.data == GUARD_INTERVAL_AUTO && self.caps
            & FE_CAN_GUARD_INTERVAL_AUTO == 0 {
            Some(PropertyError::NoGuardIntervalAuto)
        } else if p.cmd == DTV_HIERARCHY && p.data == HIERARCHY_AUTO && self.caps & FE_CAN_HIERARCHY_AUTO == 0 {
            Some(PropertyError::NoHierarchyAuto)
        } else if p.cmd == DTV_STREAM_ID && self.caps & FE_CAN_MULTISTREAM == 0 {
            Some(PropertyError::NoMultistream)
        } else {
            None
        }
    }

    /// Checks `cmdseq` before it is set: each frequency and symbol rate must
    /// lie in the frontend's range, and each automatic setting and stream
    /// selection needs the frontend's capability. Fails with the fault of
    /// the first property refused.
    pub fn check_properties(&self, cmdseq: &[Property]) -> (r: Result<(), Error>)
        ensures
            self.first_fault(cmdseq@) matches Some(e) ==> r == Err::<(), Error>(Error::InvalidProperty(e)),
            self.first_fault(cmdseq@) is None ==> r is Ok,
    {
        let mut i: usize = 0;
        assert(cmdseq@.subrange(0, cmdseq@.len() as int) =~= cmdseq@);
        while i < cmdseq.len()
            invariant
                i <= cmdseq@.len(),
                self.first_fault(cmdseq@) == self.first_fault(cmdseq@.subrange(i as int, cmdseq@.len() as int)),
            decreases cmdseq@.len() - i,
        {
            let ghost rest = cmdseq@.subrange(i as int, cmdseq@.len() as int);
            assert(rest[0] == cmdseq@[i as int]);
            assert(rest.subrange(1, rest.len() as int) =~= cmdseq@.subrange(i + 1, cmdseq@.len() as int));
            if let Some(e) = self.check_property(&cmdseq[i]) {
                return Err(Error::InvalidProperty(e));
            }
            i += 1;
        }
        Ok(())
    }

    /// The DVB API version: major in the high byte, minor in the low byte.
    pub fn api_version(&self) -> (r: u16)
        ensures
            r == self.spec_api_version(),
    {
        self.api_version
    }

    /// The frontend's name.
    pub fn name(&self) -> (r: &Vec<u8>)
        ensures
            r@ == self.spec_name(),
    {
        &self.name
    }

    /// The delivery systems the frontend supports.
    pub fn delivery_system_list(&self) -> (r: &Vec<u32>)
        ensures
            r@ == self.spec_delivery_systems(),
    {
        &self.delivery_system_list
    }

    /// The frequencies the frontend tunes: from the first, inclusive, to the
    /// second, exclusive.
    pub fn frequency_range(&self) -> (r: (u32, u32))
        ensures
            r == self.spec_frequency_range(),
    {
        (self.frequency_min, self.frequency_max)
    }

    /// The symbol rates the frontend tunes: from the first, inclusive, to
    /// the second, exclusive.
    pub fn symbolrate_range(&self) -> (r: (u32, u32))
        ensures
            r == self.spec_symbolrate_range(),
    {
        (self.symbolrate_min, self.symbolrate_max)
    }

    /// Capabilities: `FE_CAN_*` bits.
    pub fn caps(&self) -> (r: u32)
        ensures
            r == self.spec_caps(),
    {
        self.caps
    }
}

} // verus!
