//! The status of a frontend and its signal statistics, brought to one form:
//! the decibel measure first and the relative measure second, a relative
//! measure computed from the decibels where the frontend gives none.

use vstd::prelude::*;
use super::sys::{
    DtvFrontendStats, DtvStats, FE_HAS_CARRIER, FE_HAS_LOCK, FE_HAS_SIGNAL, FE_NONE,
    FE_SCALE_COUNTER, FE_SCALE_DECIBEL, FE_SCALE_NOT_AVAILABLE, FE_SCALE_RELATIVE, SYS_ATSC,
    SYS_DVBC2, SYS_DVBC_ANNEX_A, SYS_DVBC_ANNEX_B, SYS_DVBC_ANNEX_C, SYS_DVBS, SYS_DVBS2, SYS_DVBT,
    SYS_DVBT2, VSB_16, VSB_8,
};

verus! {

/// Top of the relative scale.
pub const RELATIVE_MAX: i64 = 65535;
/// Signal strength, in 0.001 dBm, at and below which the relative measure is 0%.
pub const SIGNAL_LOW: i64 = -85000;
/// Signal strength, in 0.001 dBm, at and above which the relative measure is 100%.
pub const SIGNAL_HIGH: i64 = -6000;

/// A statistic that is not available.
pub open spec fn not_available() -> DtvStats {
    DtvStats { scale: FE_SCALE_NOT_AVAILABLE, value: 0 }
}

/// `value` on the relative scale, where `lo` is 0% and `hi` is 100%.
pub open spec fn relative(value: i64, lo: i64, hi: i64) -> i64 {
    if value >= hi {
        RELATIVE_MAX
    } else if value <= lo {
        0
    } else {
        (RELATIVE_MAX * (value - lo) / (hi - lo)) as i64
    }
}

/// The signal to noise ratio, in 0.001 dB, that is 100% on the relative
/// scale for `delivery_system` and `modulation`; none where unknown.
pub open spec fn snr_high(delivery_system: u32, modulation: u32) -> Option<i64> {
    if delivery_system == SYS_DVBS || delivery_system == SYS_DVBS2 {
        Some(15000)
    } else if delivery_system == SYS_DVBC_ANNEX_A || delivery_system == SYS_DVBC_ANNEX_B
        || delivery_system == SYS_DVBC_ANNEX_C || delivery_system == SYS_DVBC2 {
        Some(28000)
    } else if delivery_system == SYS_DVBT || delivery_system == SYS_DVBT2 {
        Some(19000)
    } else if delivery_system == SYS_ATSC {
        if modulation == VSB_8 || modulation == VSB_16 {
            Some(19000)
        } else {
            Some(28000)
        }
    } else {
        None
    }
}

/// The first two statistics of `s`, those beyond its length not available.
pub open spec fn padded(s: DtvFrontendStats) -> Seq<DtvStats> {
    s.stat@.update(0, if s.len >= 1 { s.stat@[0] } else { not_available() }).update(
        1,
        if s.len >= 2 { s.stat@[1] } else { not_available() },
    )
}

/// The statistics `s` brought to the form decibel first, relative second.
/// A relative measure first moves to second place. Where `measured` holds
/// and only decibels are known, the relative measure is computed on the
/// scale from `range.0` to `range.1`.
pub open spec fn normalized(s: DtvFrontendStats, measured: bool, range: Option<(i64, i64)>) -> Seq<DtvStats> {
    let p = padded(s);
    if p[0].scale == FE_SCALE_RELATIVE {
        p.update(0, p[1]).update(1, p[0])
    } else if p[1].scale == FE_SCALE_RELATIVE || !measured || p[0].scale != FE_SCALE_DECIBEL {
        p
    } else {
        match range {
            Some((lo, hi)) => p.update(
                1,
                DtvStats { scale: FE_SCALE_RELATIVE, value: relative(p[0].value, lo, hi) },
            ),
            None => p,
        }
    }
}

/// The statistics of a counter `s`, with a first one where it has none.
pub open spec fn counter_padded(s: DtvFrontendStats) -> (u8, Seq<DtvStats>) {
    if s.len == 0 {
        (1, s.stat@.update(0, not_available()))
    } else {
        (s.len, s.stat@)
    }
}

/// A relative measure in percent.
pub open spec fn percent(value: i64) -> u32 {
    ((value & 0xFFFF) * 100 / 65535) as u32
}

/// `value` on the relative scale from `lo` to `hi`.
fn scale_relative(value: i64, lo: i64, hi: i64) -> (r: i64)
    requires
        lo < hi,
        hi - lo <= 1_000_000,
    ensures
        r == relative(value, lo, hi),
{
    if value >= hi {
        RELATIVE_MAX
    } else if value <= lo {
        0
    } else {
        assert(0 < value - lo < hi - lo);
        assert(RELATIVE_MAX * (value - lo) <= RELATIVE_MAX * 1_000_000) by (nonlinear_arith)
            requires
                0 < value - lo <= 1_000_000,
        ;
        let scaled = RELATIVE_MAX * (value - lo);
        let span = hi - lo;
        assert(0 <= scaled / span <= scaled) by (nonlinear_arith)
            requires
                scaled >= 0,
                span > 0,
        ;
        scaled / span
    }
}

/// `s` brought to the form decibel first, relative second, as `normalized`
/// says.
fn normalize(s: DtvFrontendStats, measured: bool, range: Option<(i64, i64)>) -> (r: DtvFrontendStats)
    requires
        range matches Some((lo, hi)) ==> lo < hi && hi - lo <= 1_000_000,
    ensures
        r.len == 2,
        r.stat@ == normalized(s, measured, range),
{
    let mut st = s.stat;
    if s.len < 1 {
        st[0] = DtvStats { scale: FE_SCALE_NOT_AVAILABLE, value: 0 };
    }
    if s.len < 2 {
        st[1] = DtvStats { scale: FE_SCALE_NOT_AVAILABLE, value: 0 };
    }
    assert(st@ =~= padded(s));
    let first = st[0];
    let second = st[1];
    if first.scale == FE_SCALE_RELATIVE {
        st[0] = second;
        st[1] = first;
    } else if !(second.scale == FE_SCALE_RELATIVE || !measured || first.scale != FE_SCALE_DECIBEL) {
        if let Some((lo, hi)) = range {
            st[1] = DtvStats { scale: FE_SCALE_RELATIVE, value: scale_relative(first.value, lo, hi) };
        }
    }
    let r = DtvFrontendStats { len: 2, stat: st };
    assert(r.stat@ =~= normalized(s, measured, range));
    r
}

/// The status of a frontend and its statistics.
pub struct FeStatus {
    status: u32,
    delivery_system: u32,
    modulation: u32,
    signal_strength: DtvFrontendStats,
    snr: DtvFrontendStats,
    ber: DtvFrontendStats,
    unc: DtvFrontendStats,
}

/// A `FeStatus` as a value.
pub struct FeStatusView {
    pub status: u32,
    pub delivery_system: u32,
    pub modulation: u32,
    pub signal_strength: DtvFrontendStats,
    pub snr: DtvFrontendStats,
    pub ber: DtvFrontendStats,
    pub unc: DtvFrontendStats,
}

impl View for FeStatus {
    type V = FeStatusView;

    closed spec fn view(&self) -> FeStatusView {
        FeStatusView {
            status: self.status,
            delivery_system: self.delivery_system,
            modulation: self.modulation,
            signal_strength: self.signal_strength,
            snr: self.snr,
            ber: self.ber,
            unc: self.unc,
        }
    }
}

/// No statistics.
fn no_stats() -> (r: DtvFrontendStats)
    ensures
        r.len == 0,
{
    let none = DtvStats { scale: FE_SCALE_NOT_AVAILABLE, value: 0 };
    DtvFrontendStats { len: 0, stat: [none, none, none, none] }
}

impl FeStatus {
    /// A frontend that is off.
    pub fn new() -> (r: FeStatus)
        ensures
            r@.status == FE_NONE,
            r@.delivery_system == 0,
            r@.modulation == 0,
            r@.signal_strength.len == 0,
            r@.snr.len == 0,
            r@.ber.len == 0,
            r@.unc.len == 0,
    {
        FeStatus {
            status: FE_NONE,
            delivery_system: 0,
            modulation: 0,
            signal_strength: no_stats(),
            snr: no_stats(),
            ber: no_stats(),
            unc: no_stats(),
        }
    }

    /// Takes the status just read from the frontend. Returns whether the
    /// frontend is on, so that its properties are to be read.
    pub fn set_status(&mut self, status: u32) -> (r: bool)
        ensures
            final(self)@ == (FeStatusView { status, ..old(self)@ }),
            r == (status != FE_NONE),
    {
        self.status = status;
        status != FE_NONE
    }

    /// Takes the properties just read from the frontend and brings its
    /// statistics to one form: signal strength and signal to noise ratio
    /// with the decibel measure first and the relative one second, error
    /// counters with at least their first statistic.
    pub fn set_properties(
        &mut self,
        delivery_system: u32,
        modulation: u32,
        signal_strength: DtvFrontendStats,
        snr: DtvFrontendStats,
        ber: DtvFrontendStats,
        unc: DtvFrontendStats,
    )
        ensures
            final(self)@.status == old(self)@.status,
            final(self)@.delivery_system == delivery_system,
            final(self)@.modulation == modulation,
            final(self)@.signal_strength.len == 2,
            final(self)@.signal_strength.stat@ == normalized(
                signal_strength,
                old(self)@.status & FE_HAS_SIGNAL != 0,
                Some((SIGNAL_LOW, SIGNAL_HIGH)),
            ),
            final(self)@.snr.len == 2,
            final(self)@.snr.stat@ == normalized(
                snr,
                old(self)@.status & FE_HAS_CARRIER != 0,
                match snr_high(delivery_system, modulation) {
                    Some(hi) => Some((0i64, hi)),
                    None => None,
                },
            ),
            (final(self)@.ber.len, final(self)@.ber.stat@) == counter_padded(ber),
            (final(self)@.unc.len, final(self)@.unc.stat@) == counter_padded(unc),
    {
        self.delivery_system = delivery_system;
        self.modulation = modulation;
        self.signal_strength = normalize(
            signal_strength,
            self.status & FE_HAS_SIGNAL != 0,
            Some((SIGNAL_LOW, SIGNAL_HIGH)),
        );
        let hi = if delivery_system == SYS_DVBS || delivery_system == SYS_DVBS2 {
            Some(15000i64)
        } else if delivery_system == SYS_DVBC_ANNEX_A || delivery_system == SYS_DVBC_ANNEX_B
            || delivery_system == SYS_DVBC_ANNEX_C || delivery_system == SYS_DVBC2 {
            Some(28000i64)
        } else if delivery_system == SYS_DVBT || delivery_system == SYS_DVBT2 {
            Some(19000i64)
        } else if delivery_system == SYS_ATSC {
            if modulation == VSB_8 || modulation == VSB_16 {
                Some(19000i64)
            } else {
                Some(28000i64)
            }
        } else {
            None
        };
        let range = match hi {
            Some(hi) => Some((0i64, hi)),
            None => None,
        };
        self.snr = normalize(snr, self.status & FE_HAS_CARRIER != 0, range);
        self.ber = pad_counter(ber);
        self.unc = pad_counter(unc);
    }

    /// The bit error counter is to be read from the older API: the
    /// frontend is locked and gave no counter.
    pub fn needs_ber(&self) -> (r: bool)
        ensures
            r == (self@.ber.stat@[0].scale != FE_SCALE_COUNTER && self@.status & FE_HAS_LOCK != 0),
    {
        self.ber.stat[0].scale != FE_SCALE_COUNTER && self.status & FE_HAS_LOCK != 0
    }

    /// The block error counter is to be read from the older API: the
    /// frontend is locked and gave no counter.
    pub fn needs_unc(&self) -> (r: bool)
        ensures
            r == (self@.unc.stat@[0].scale != FE_SCALE_COUNTER && self@.status & FE_HAS_LOCK != 0),
    {
        self.unc.stat[0].scale != FE_SCALE_COUNTER && self.status & FE_HAS_LOCK != 0
    }

    /// Takes the bit error counter read from the older API.
    pub fn set_ber(&mut self, value: u32)
        ensures
            final(self)@ == (FeStatusView { ber: final(self)@.ber, ..old(self)@ }),
            final(self)@.ber.len == old(self)@.ber.len,
            final(self)@.ber.stat@ == old(self)@.ber.stat@.update(
                0,
                DtvStats { scale: FE_SCALE_COUNTER, value: value as i64 },
            ),
    {
        self.ber.stat[0] = DtvStats { scale: FE_SCALE_COUNTER, value: value as i64 };
        assert(self.ber.stat@ =~= old(self)@.ber.stat@.update(
            0,
            DtvStats { scale: FE_SCALE_COUNTER, value: value as i64 },
        ));
    }

    /// Takes the block error counter read from the older API.
    pub fn set_unc(&mut self, value: u32)
        ensures
            final(self)@ == (FeStatusView { unc: final(self)@.unc, ..old(self)@ }),
            final(self)@.unc.len == old(self)@.unc.len,
            final(self)@.unc.stat@ == old(self)@.unc.stat@.update(
                0,
                DtvStats { scale: FE_SCALE_COUNTER, value: value as i64 },
            ),
    {
        self.unc.stat[0] = DtvStats { scale: FE_SCALE_COUNTER, value: value as i64 };
        assert(self.unc.stat@ =~= old(self)@.unc.stat@.update(
            0,
            DtvStats { scale: FE_SCALE_COUNTER, value: value as i64 },
        ));
    }

    /// The status bits: `FE_HAS_*`.
    pub fn status(&self) -> (r: u32)
        ensures
            r == self@.status,
    {
        self.status
    }

    /// The current delivery system.
    pub fn get_delivery_system(&self) -> (r: u32)
        ensures
            r == self@.delivery_system,
    {
        self.delivery_system
    }

    /// The current modulation.
    pub fn get_modulation(&self) -> (r: u32)
        ensures
            r == self@.modulation,
    {
        self.modulation
    }

    /// Signal strength in 0.001 dBm, where known.
    pub fn get_signal_strength_millidecibel(&self) -> (r: Option<i64>)
        ensures
            r == (if self@.signal_strength.stat@[0].scale == FE_SCALE_DECIBEL {
                Some(self@.signal_strength.stat@[0].value)
            } else {
                None
            }),
    {
        let s = self.signal_strength.stat[0];
        if s.scale == FE_SCALE_DECIBEL {
            Some(s.value)
        } else {
            None
        }
    }

    /// Signal strength in percent, where known.
    pub fn get_signal_strength(&self) -> (r: Option<u32>)
        ensures
            r == (if self@.signal_strength.stat@[1].scale == FE_SCALE_RELATIVE {
                Some(percent(self@.signal_strength.stat@[1].value))
            } else {
                None
            }),
    {
        let s = self.signal_strength.stat[1];
        if s.scale == FE_SCALE_RELATIVE {
            Some(percent_of(s.value))
        } else {
            None
        }
    }

    /// Signal to noise ratio in 0.001 dB, where known.
    pub fn get_snr_millidecibel(&self) -> (r: Option<i64>)
        ensures
            r == (if self@.snr.stat@[0].scale == FE_SCALE_DECIBEL {
                Some(self@.snr.stat@[0].value)
            } else {
                None
            }),
    {
        let s = self.snr.stat[0];
        if s.scale == FE_SCALE_DECIBEL {
            Some(s.value)
        } else {
            None
        }
    }

    /// Signal to noise ratio in percent, where known.
    pub fn get_snr(&self) -> (r: Option<u32>)
        ensures
            r == (if self@.snr.stat@[1].scale == FE_SCALE_RELATIVE {
                Some(percent(self@.snr.stat@[1].value))
            } else {
                None
            }),
    {
        let s = self.snr.stat[1];
        if s.scale == FE_SCALE_RELATIVE {
            Some(percent_of(s.value))
        } else {
            None
        }
    }

    /// The bit error counter, where known.
    pub fn get_ber(&self) -> (r: Option<u32>)
        ensures
            r == (if self@.ber.stat@[0].scale == FE_SCALE_COUNTER {
                Some(self@.ber.stat@[0].value as u32)
            } else {
                None
            }),
    {
        let s = self.ber.stat[0];
        if s.scale == FE_SCALE_COUNTER {
            Some(s.value as u32)
        } else {
            None
        }
    }

    /// The block error counter, where known.
    pub fn get_unc(&self) -> (r: Option<u32>)
        ensures
            r == (if self@.unc.stat@[0].scale == FE_SCALE_COUNTER {
                Some(self@.unc.stat@[0].value as u32)
            } else {
                None
            }),
    {
        let s = self.unc.stat[0];
        if s.scale == FE_SCALE_COUNTER {
            Some(s.value as u32)
        } else {
            None
        }
    }
}

/// A relative measure in percent.
fn percent_of(value: i64) -> (r: u32)
    ensures
        r == percent(value),
{
    let low: i64 = value & 0xFFFF;
    assert(0 <= low <= 0xFFFF) by (bit_vector)
        requires
            low == value & 0xFFFF,
    ;
    ((low * 100) / 65535) as u32
}

/// The statistics of a counter, with a first one where it has none.
fn pad_counter(s: DtvFrontendStats) -> (r: DtvFrontendStats)
    ensures
        (r.len, r.stat@) == counter_padded(s),
{
    let mut r = s;
    if r.len == 0 {
        r.stat[0] = DtvStats { scale: FE_SCALE_NOT_AVAILABLE, value: 0 };
        r.len = 1;
    }
    assert(r.stat@ =~= counter_padded(s).1);
    r
}

} // verus!
