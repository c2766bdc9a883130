use libdvb::error::{Error, PropertyError};
use libdvb::fe::status::FeStatus;
use libdvb::fe::sys::{
    DtvFrontendStats, DtvStats, FeInfo, FE_CAN_INVERSION_AUTO, FE_CAN_MULTISTREAM, FE_HAS_CARRIER,
    FE_HAS_LOCK, FE_HAS_SIGNAL, FE_SCALE_COUNTER, FE_SCALE_DECIBEL, FE_SCALE_NOT_AVAILABLE,
    FE_SCALE_RELATIVE, SYS_DVBS, SYS_DVBS2, SYS_DVBT,
};
use libdvb::fe::FeDevice;
use libdvb::frontend::{
    Property, DTV_FREQUENCY, DTV_INVERSION, DTV_STREAM_ID, DTV_SYMBOL_RATE, INVERSION_AUTO,
};

fn info(caps: u32) -> FeInfo {
    let mut name = [0u8; 128];
    name[..8].copy_from_slice(b"STV0910\0");
    name[10] = b'x';
    FeInfo {
        name,
        fe_type: 0,
        frequency_min: 950_000,
        frequency_max: 2_150_000,
        frequency_stepsize: 0,
        frequency_tolerance: 0,
        symbol_rate_min: 1_000_000,
        symbol_rate_max: 45_000_000,
        symbol_rate_tolerance: 0,
        notifier_delay: 0,
        caps,
    }
}

fn device(caps: u32) -> FeDevice {
    let mut delivery = [0u8; 32];
    delivery[0] = SYS_DVBS as u8;
    delivery[1] = SYS_DVBS2 as u8;
    FeDevice::new(&info(caps), 0x050B, &delivery, 2)
}

#[test]
fn device_takes_what_the_frontend_reports() {
    let fe = device(0);
    assert_eq!(fe.name(), &b"STV0910".to_vec());
    assert_eq!(fe.api_version(), 0x050B);
    assert_eq!(fe.delivery_system_list(), &vec![SYS_DVBS, SYS_DVBS2]);
    assert_eq!(fe.frequency_range(), (950_000, 2_150_000));
    assert_eq!(fe.symbolrate_range(), (1_000_000, 45_000_000));
}

#[test]
fn name_without_nul_is_empty() {
    let mut i = info(0);
    i.name = [b'a'; 128];
    let fe = FeDevice::new(&i, 0, &[0; 32], 200);
    assert!(fe.name().is_empty());
    assert_eq!(fe.delivery_system_list().len(), 32);
}

#[test]
fn properties_in_range_pass() {
    let fe = device(FE_CAN_INVERSION_AUTO);
    let cmdseq = [
        Property::new(DTV_FREQUENCY, 950_000),
        Property::new(DTV_SYMBOL_RATE, 27_500_000),
        Property::new(DTV_INVERSION, INVERSION_AUTO),
    ];
    assert_eq!(fe.check_properties(&cmdseq), Ok(()));
}

#[test]
fn first_refused_property_decides() {
    let fe = device(0);
    let cmdseq = [
        Property::new(DTV_FREQUENCY, 1_000_000),
        Property::new(DTV_SYMBOL_RATE, 50_000_000),
        Property::new(DTV_FREQUENCY, 2_150_000),
    ];
    assert_eq!(
        fe.check_properties(&cmdseq),
        Err(Error::InvalidProperty(PropertyError::SymbolRateOutOfRange))
    );
    assert_eq!(
        fe.check_properties(&[Property::new(DTV_FREQUENCY, 2_150_000)]),
        Err(Error::InvalidProperty(PropertyError::FrequencyOutOfRange))
    );
    assert_eq!(
        fe.check_properties(&[Property::new(DTV_INVERSION, INVERSION_AUTO)]),
        Err(Error::InvalidProperty(PropertyError::NoInversionAuto))
    );
    assert_eq!(
        fe.check_properties(&[Property::new(DTV_STREAM_ID, 0)]),
        Err(Error::InvalidProperty(PropertyError::NoMultistream))
    );
    assert_eq!(device(FE_CAN_MULTISTREAM).check_properties(&[Property::new(DTV_STREAM_ID, 0)]), Ok(()));
}

fn stats(len: u8, first: DtvStats, second: DtvStats) -> DtvFrontendStats {
    let none = DtvStats { scale: FE_SCALE_NOT_AVAILABLE, value: 0 };
    DtvFrontendStats { len, stat: [first, second, none, none] }
}

fn db(value: i64) -> DtvStats {
    DtvStats { scale: FE_SCALE_DECIBEL, value }
}

fn rel(value: i64) -> DtvStats {
    DtvStats { scale: FE_SCALE_RELATIVE, value }
}

fn none() -> DtvFrontendStats {
    stats(0, db(0), db(0))
}

#[test]
fn off_frontend_reads_no_properties() {
    let mut st = FeStatus::new();
    assert!(!st.set_status(0));
    assert!(st.set_status(FE_HAS_SIGNAL));
}

#[test]
fn relative_signal_is_computed_from_decibels() {
    let mut st = FeStatus::new();
    st.set_status(FE_HAS_SIGNAL | FE_HAS_CARRIER | FE_HAS_LOCK);
    st.set_properties(SYS_DVBS2, 9, stats(1, db(-45500), db(0)), stats(1, db(7500), db(0)), none(), none());
    assert_eq!(st.get_signal_strength_millidecibel(), Some(-45500));
    // (-45500 + 85000) * 65535 / 79000 = 32767
    assert_eq!(st.get_signal_strength(), Some(49));
    assert_eq!(st.get_snr_millidecibel(), Some(7500));
    // 7500 * 65535 / 15000 = 32767
    assert_eq!(st.get_snr(), Some(49));
    assert_eq!(st.get_delivery_system(), SYS_DVBS2);
    assert_eq!(st.get_modulation(), 9);
}

#[test]
fn relative_measure_moves_second() {
    let mut st = FeStatus::new();
    st.set_status(FE_HAS_SIGNAL);
    st.set_properties(SYS_DVBT, 0, stats(2, rel(65535), db(-30000)), none(), none(), none());
    assert_eq!(st.get_signal_strength(), Some(100));
    assert_eq!(st.get_signal_strength_millidecibel(), Some(-30000));
    assert_eq!(st.get_snr(), None);
}

#[test]
fn signal_scale_is_clamped() {
    let mut st = FeStatus::new();
    st.set_status(FE_HAS_SIGNAL | FE_HAS_CARRIER);
    st.set_properties(SYS_DVBT, 0, stats(1, db(-1000), db(0)), stats(1, db(-5), db(0)), none(), none());
    assert_eq!(st.get_signal_strength(), Some(100));
    assert_eq!(st.get_snr(), Some(0));
}

#[test]
fn no_relative_measure_without_signal() {
    let mut st = FeStatus::new();
    st.set_status(FE_HAS_LOCK);
    st.set_properties(SYS_DVBS, 0, stats(1, db(-45500), db(0)), stats(1, db(7500), db(0)), none(), none());
    assert_eq!(st.get_signal_strength(), None);
    assert_eq!(st.get_snr(), None);
}

#[test]
fn error_counters_fall_back_when_locked() {
    let mut st = FeStatus::new();
    st.set_status(FE_HAS_LOCK);
    st.set_properties(SYS_DVBS, 0, none(), none(), none(), stats(1, DtvStats { scale: FE_SCALE_COUNTER, value: 5 }, db(0)));
    assert!(st.needs_ber());
    assert!(!st.needs_unc());
    assert_eq!(st.get_ber(), None);
    st.set_ber(12);
    assert_eq!(st.get_ber(), Some(12));
    assert_eq!(st.get_unc(), Some(5));
    st.set_unc(3);
    assert_eq!(st.get_unc(), Some(3));
}
