use libdvb::fe::sys::{
    DeliverySystemDisplay, DiseqcMasterCmd, DtvFrontendStats, DtvStats, FE_SCALE_COUNTER,
    FE_SCALE_DECIBEL, FE_SCALE_NOT_AVAILABLE, SYS_DVBC2, SYS_DVBS2,
};
use libdvb::frontend::{Property, DTV_FREQUENCY};

fn stats(len: u8, stat: [DtvStats; 4]) -> DtvFrontendStats {
    DtvFrontendStats { len, stat }
}

const NONE: DtvStats = DtvStats { scale: FE_SCALE_NOT_AVAILABLE, value: 0 };

#[test]
fn counter_is_first_counter_in_use() {
    let s = stats(
        3,
        [
            DtvStats { scale: FE_SCALE_DECIBEL, value: -5 },
            DtvStats { scale: FE_SCALE_COUNTER, value: 42 },
            DtvStats { scale: FE_SCALE_COUNTER, value: 7 },
            NONE,
        ],
    );
    assert_eq!(s.get_counter(), Some(42));
}

#[test]
fn counter_beyond_len_is_ignored() {
    let s = stats(1, [NONE, DtvStats { scale: FE_SCALE_COUNTER, value: 42 }, NONE, NONE]);
    assert_eq!(s.get_counter(), None);
    let s = stats(200, [NONE, NONE, NONE, DtvStats { scale: FE_SCALE_COUNTER, value: 3 }]);
    assert_eq!(s.get_counter(), Some(3));
}

#[test]
fn delivery_system_names() {
    assert_eq!(DeliverySystemDisplay(SYS_DVBS2).name(), "dvb-s2");
    assert_eq!(DeliverySystemDisplay(SYS_DVBC2).name(), "dvb-c2");
    assert_eq!(DeliverySystemDisplay(0).name(), "none");
    assert_eq!(DeliverySystemDisplay(99).name(), "unknown");
}

#[test]
fn property_new_sets_command_and_value() {
    let p = Property::new(DTV_FREQUENCY, 1_234_000);
    assert_eq!(p.cmd, DTV_FREQUENCY);
    assert_eq!(p.data, 1_234_000);
    assert_eq!(p.result, 0);
}

#[test]
fn diseqc_command_is_passed_as_is() {
    let cmd = DiseqcMasterCmd { msg: [0xE0, 0x10, 0x38, 0xF0, 0, 0], len: 4 };
    assert_eq!(*cmd.as_ptr(), cmd);
}

#[test]
fn first_statistic_of_a_scale() {
    let s = stats(
        2,
        [
            DtvStats { scale: FE_SCALE_COUNTER, value: 1 },
            DtvStats { scale: FE_SCALE_DECIBEL, value: -38560 },
            DtvStats { scale: FE_SCALE_DECIBEL, value: 0 },
            NONE,
        ],
    );
    assert_eq!(s.find_scale(FE_SCALE_DECIBEL), Some(-38560));
    assert_eq!(s.find_scale(FE_SCALE_NOT_AVAILABLE), None);
}

#[test]
fn default_frontend_info_is_empty() {
    let info = libdvb::fe::sys::FeInfo::default();
    assert!(info.name.iter().all(|&b| b == 0));
    assert_eq!(info.caps, 0);
    assert_eq!(info.frequency_max, 0);
}

#[test]
fn empty_ca_message() {
    let m = libdvb::ca::sys::CaMsg::new();
    assert_eq!(m.length, 0);
    assert!(m.msg.iter().all(|&b| b == 0));
}
