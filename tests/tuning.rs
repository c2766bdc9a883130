use libdvb::error::Error;
use libdvb::fe::sys::{FeInfo, FE_CAN_2G_MODULATION};
use libdvb::frontend::{
    Property, DTV_DELIVERY_SYSTEM, DTV_FREQUENCY, DTV_SYMBOL_RATE, DTV_TUNE, SEC_TONE_OFF,
    SEC_TONE_ON, SEC_VOLTAGE_13, SEC_VOLTAGE_18,
};
use libdvb::tune::{Adapter, DvbS2, FrontendCommand, Lnb, LnbMode, Transponder};

fn dvbs2(frequency: u32, mode: LnbMode, lof1: u32, lof2: u32, slof: u32) -> DvbS2 {
    DvbS2 {
        adapter: Adapter { id: 0, device: 0, modulation: 9 },
        transponder: Transponder { frequency, polarization: SEC_VOLTAGE_18, symbolrate: 29950 },
        lnb: Lnb { mode, lof1, lof2, slof },
        fec: 9,
        rof: 3,
        mis: 0,
    }
}

fn info() -> FeInfo {
    FeInfo {
        name: [0; 128],
        fe_type: 0,
        frequency_min: 950_000,
        frequency_max: 2_150_000,
        frequency_stepsize: 0,
        frequency_tolerance: 0,
        symbol_rate_min: 1_000_000,
        symbol_rate_max: 45_000_000,
        symbol_rate_tolerance: 0,
        notifier_delay: 0,
        caps: FE_CAN_2G_MODULATION,
    }
}

#[test]
fn universal_lnb_high_band() {
    let s = dvbs2(12732, LnbMode::AUTO, 9750, 10600, 11700);
    assert_eq!(s.intermediate_frequency(), Ok((2132, SEC_TONE_ON)));
    let plan = s.plan(&info()).unwrap();
    assert_eq!(
        plan.commands,
        vec![
            FrontendCommand::SetTone(SEC_TONE_OFF),
            FrontendCommand::SetVoltage(SEC_VOLTAGE_18),
            FrontendCommand::Sleep(100),
            FrontendCommand::SetTone(SEC_TONE_ON),
            FrontendCommand::Sleep(100),
        ]
    );
    assert_eq!(plan.properties.len(), 11);
    assert_eq!(plan.properties[0], Property::new(DTV_DELIVERY_SYSTEM, 6));
    assert_eq!(plan.properties[1], Property::new(DTV_FREQUENCY, 2_132_000));
    assert_eq!(plan.properties[4], Property::new(DTV_SYMBOL_RATE, 29_950_000));
    assert_eq!(plan.properties[10], Property::new(DTV_TUNE, 0));
}

#[test]
fn universal_lnb_low_band() {
    let s = dvbs2(11000, LnbMode::AUTO, 9750, 10600, 11700);
    assert_eq!(s.intermediate_frequency(), Ok((1250, SEC_TONE_OFF)));
}

#[test]
fn inverted_c_band_lnb() {
    let s = dvbs2(3900, LnbMode::OFF, 5150, 0, 0);
    assert_eq!(s.intermediate_frequency(), Ok((1250, SEC_TONE_OFF)));
}

#[test]
fn standard_bands_without_oscillator() {
    assert_eq!(dvbs2(1500, LnbMode::AUTO, 0, 0, 0).intermediate_frequency(), Ok((1500, SEC_TONE_OFF)));
    assert_eq!(dvbs2(2600, LnbMode::AUTO, 0, 0, 0).intermediate_frequency(), Ok((1050, SEC_TONE_OFF)));
    assert_eq!(dvbs2(4000, LnbMode::AUTO, 0, 0, 0).intermediate_frequency(), Ok((1150, SEC_TONE_OFF)));
    assert_eq!(dvbs2(4600, LnbMode::AUTO, 0, 0, 0).intermediate_frequency(), Ok((1350, SEC_TONE_OFF)));
    assert_eq!(dvbs2(11000, LnbMode::AUTO, 0, 0, 0).intermediate_frequency(), Ok((1250, SEC_TONE_OFF)));
    assert_eq!(dvbs2(12732, LnbMode::AUTO, 0, 0, 0).intermediate_frequency(), Ok((2132, SEC_TONE_ON)));
}

#[test]
fn frequency_outside_every_band() {
    let s = dvbs2(3000, LnbMode::AUTO, 0, 0, 0);
    assert_eq!(s.intermediate_frequency(), Err(Error::FrequencyOutOfBand));
    assert_eq!(s.plan(&info()), Err(Error::FrequencyOutOfBand));
    let s = dvbs2(12000, LnbMode::AUTO, 9750, 12500, 11700);
    assert_eq!(s.intermediate_frequency(), Err(Error::FrequencyOutOfBand));
}

#[test]
fn frontend_limits_are_checked() {
    let mut i = info();
    i.caps = 0;
    let s = dvbs2(12732, LnbMode::AUTO, 9750, 10600, 11700);
    assert_eq!(s.plan(&i), Err(Error::UnsupportedParameters));
    let mut i = info();
    i.frequency_max = 2_000_000;
    assert_eq!(s.plan(&i), Err(Error::UnsupportedParameters));
    let mut i = info();
    i.symbol_rate_max = 27_500_000;
    assert_eq!(s.plan(&i), Err(Error::UnsupportedParameters));
}

#[test]
fn lnb_modes_set_up_voltage_and_tone() {
    let s = dvbs2(11000, LnbMode::TONE, 9750, 10600, 11700);
    assert_eq!(
        s.lnb_commands(SEC_TONE_OFF),
        vec![
            FrontendCommand::SetTone(SEC_TONE_OFF),
            FrontendCommand::SetVoltage(SEC_VOLTAGE_18),
            FrontendCommand::Sleep(100),
            FrontendCommand::SetTone(SEC_TONE_ON),
            FrontendCommand::Sleep(100),
        ]
    );
    let mut s = dvbs2(11000, LnbMode::OFF, 9750, 10600, 11700);
    s.transponder.polarization = SEC_VOLTAGE_13;
    assert_eq!(
        s.lnb_commands(SEC_TONE_OFF),
        vec![FrontendCommand::SetTone(SEC_TONE_OFF), FrontendCommand::SetVoltage(2)]
    );
    let s = dvbs2(11000, LnbMode::DISEQC_1_0(1), 9750, 10600, 11700);
    assert!(s.lnb_commands(SEC_TONE_ON).is_empty());
}
