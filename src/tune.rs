//! Tuning a DVB-S/S2 frontend: from the transponder and LNB that the user
//! describes to the commands and properties that the frontend takes.

use vstd::prelude::*;
use crate::error::Error;
use crate::fe::sys::{FeInfo, FE_CAN_2G_MODULATION, SYS_DVBS2};
use crate::frontend::{
    Property, DTV_DELIVERY_SYSTEM, DTV_FREQUENCY, DTV_INNER_FEC, DTV_INVERSION, DTV_MODULATION,
    DTV_PILOT, DTV_ROLLOFF, DTV_SCRAMBLING_SEQUENCE_INDEX, DTV_STREAM_ID, DTV_SYMBOL_RATE, DTV_TUNE,
    INVERSION_AUTO, PILOT_AUTO, SEC_TONE_OFF, SEC_TONE_ON, SEC_VOLTAGE_OFF,
};

verus! {

/// Milliseconds for the LNB to settle after a change of voltage or tone.
pub const LNB_SETTLE_MS: u32 = 100;

/// A DVB adapter and its frontend.
#[derive(Debug, Clone, Copy, PartialEq, Eq, Structural)]
pub struct Adapter {
    /// Adapter number: /dev/dvb/adapterX.
    pub id: u32,
    /// Device number: /dev/dvb/adapterX/frontendX.
    pub device: u32,
    /// Modulation.
    pub modulation: u32,
}

/// DVB-S/S2 Unicable options.
#[derive(Debug, Clone, Copy, PartialEq, Eq, Structural)]
pub struct Unicable {
    /// Slot, 1 to 8.
    pub slot: u32,
    /// Frequency, 950 to 2150 MHz.
    pub frequency: u32,
    /// Position, 1 to 2.
    pub position: u32,
}

/// DVB-S/S2 LNB mode.
#[allow(non_camel_case_types)]
#[derive(Debug, Clone, Copy, PartialEq, Eq, Structural)]
pub enum LnbMode {
    /// 22kHz tone to the LNB where the frequency is at least `slof`.
    AUTO,
    /// 22kHz tone to the LNB.
    TONE,
    /// Tone burst, port 1 to 2.
    TONEBURST(u32),
    /// DiSEqC 1.0, port 1 to 4.
    DISEQC_1_0(u32),
    /// DiSEqC 1.1, port 1 to 16.
    DISEQC_1_1(u32),
    /// EN50494 / Unicable.
    UNICABLE_1_0(Unicable),
    /// EN50607 / Unicable-II.
    UNICABLE_2_0(Unicable),
    /// LNB disabled.
    OFF,
}

/// DVB-S/S2 transponder.
#[derive(Debug, Clone, Copy, PartialEq, Eq, Structural)]
pub struct Transponder {
    /// Frequency in MHz.
    pub frequency: u32,
    /// Polarization: `SEC_VOLTAGE_13` for V/R, `SEC_VOLTAGE_18` for H/L.
    pub polarization: u32,
    /// Symbol rate in kBaud.
    pub symbolrate: u32,
}

/// DVB-S/S2 LNB.
#[derive(Debug, Clone, Copy, PartialEq, Eq, Structural)]
pub struct Lnb {
    pub mode: LnbMode,
    /// Low band local oscillator frequency in MHz; 0 takes the standard
    /// bands.
    pub lof1: u32,
    /// High band local oscillator frequency in MHz.
    pub lof2: u32,
    /// Frequency in MHz between the low and the high band.
    pub slof: u32,
}

/// DVB-S2 options.
#[derive(Debug, Clone, Copy, PartialEq, Eq, Structural)]
pub struct DvbS2 {
    pub adapter: Adapter,
    pub transponder: Transponder,
    pub lnb: Lnb,
    pub fec: u32,
    pub rof: u32,
    pub mis: u32,
}

/// A command to the frontend, or a pause between two.
#[derive(Debug, Clone, Copy, PartialEq, Eq, Structural)]
pub enum FrontendCommand {
    /// Set the 22kHz tone: `SEC_TONE_ON` or `SEC_TONE_OFF`.
    SetTone(u32),
    /// Set the LNB voltage: `SEC_VOLTAGE_*`.
    SetVoltage(u32),
    /// Wait this many milliseconds.
    Sleep(u32),
}

/// What tunes the frontend: the commands that set up the LNB, in order,
/// then the properties to set at once.
#[derive(Debug, PartialEq, Eq)]
pub struct TunePlan {
    pub commands: Vec<FrontendCommand>,
    pub properties: Vec<Property>,
}

/// The intermediate frequency in MHz that `lnb` turns `frequency` into, and
/// the tone that selects its band. Without a local oscillator frequency the
/// standard bands apply: L, S, C (two), Ku low and Ku high.
pub open spec fn intermediate(lnb: Lnb, frequency: u32) -> Option<(u32, u32)> {
    if lnb.lof1 > 0 {
        if lnb.slof > 0 && lnb.lof2 > 0 && frequency >= lnb.slof {
            if frequency >= lnb.lof2 {
                Some(((frequency - lnb.lof2) as u32, SEC_TONE_ON))
            } else {
                None
            }
        } else if lnb.lof1 > frequency {
            Some(((lnb.lof1 - frequency) as u32, SEC_TONE_OFF))
        } else {
            Some(((frequency - lnb.lof1) as u32, SEC_TONE_OFF))
        }
    } else if 950 <= frequency <= 2150 {
        Some((frequency, SEC_TONE_OFF))
    } else if 2500 <= frequency <= 2700 {
        Some(((3650 - frequency) as u32, SEC_TONE_OFF))
    } else if 3400 <= frequency <= 4200 {
        Some(((5150 - frequency) as u32, SEC_TONE_OFF))
    } else if 4500 <= frequency <= 4800 {
        Some(((5950 - frequency) as u32, SEC_TONE_OFF))
    } else if 10700 <= frequency < 11700 {
        Some(((frequency - 9750) as u32, SEC_TONE_OFF))
    } else if 11700 <= frequency < 13250 {
        Some(((frequency - 10600) as u32, SEC_TONE_ON))
    } else {
        None
    }
}

/// The commands that set up an LNB in `mode` for `polarization` and `tone`.
pub open spec fn lnb_commands(mode: LnbMode, polarization: u32, tone: u32) -> Seq<FrontendCommand> {
    match mode {
        LnbMode::AUTO => seq![
            FrontendCommand::SetTone(SEC_TONE_OFF),
            FrontendCommand::SetVoltage(polarization),
            FrontendCommand::Sleep(LNB_SETTLE_MS),
            FrontendCommand::SetTone(tone),
            FrontendCommand::Sleep(LNB_SETTLE_MS),
        ],
        LnbMode::TONE => seq![
            FrontendCommand::SetTone(SEC_TONE_OFF),
            FrontendCommand::SetVoltage(polarization),
            FrontendCommand::Sleep(LNB_SETTLE_MS),
            FrontendCommand::SetTone(SEC_TONE_ON),
            FrontendCommand::Sleep(LNB_SETTLE_MS),
        ],
        LnbMode::OFF => seq![
            FrontendCommand::SetTone(SEC_TONE_OFF),
            FrontendCommand::SetVoltage(SEC_VOLTAGE_OFF),
        ],
        _ => Seq::empty(),
    }
}

/// The properties that tune `s` to `frequency` kHz at `symbolrate` baud.
pub open spec fn tune_properties(s: DvbS2, frequency: u32, symbolrate: u32) -> Seq<Property> {
    seq![
        Property { cmd: DTV_DELIVERY_SYSTEM, data: SYS_DVBS2, result: 0 },
        Property { cmd: DTV_FREQUENCY, data: frequency, result: 0 },
        Property { cmd: DTV_MODULATION, data: s.adapter.modulation, result: 0 },
        Property { cmd: DTV_INVERSION, data: INVERSION_AUTO, result: 0 },
        Property { cmd: DTV_SYMBOL_RATE, data: symbolrate, result: 0 },
        Property { cmd: DTV_INNER_FEC, data: s.fec, result: 0 },
        Property { cmd: DTV_PILOT, data: PILOT_AUTO, result: 0 },
        Property { cmd: DTV_ROLLOFF, data: s.rof, result: 0 },
        Property { cmd: DTV_STREAM_ID, data: 0, result: 0 },
        Property { cmd: DTV_SCRAMBLING_SEQUENCE_INDEX, data: 0, result: 0 },
        Property { cmd: DTV_TUNE, data: 0, result: 0 },
    ]
}

/// The frontend that `info` describes can tune `frequency` kHz at
/// `symbolrate` baud with second generation modulation.
pub open spec fn frontend_accepts(info: FeInfo, frequency: int, symbolrate: int) -> bool {
    &&& info.caps & FE_CAN_2G_MODULATION != 0
    &&& info.frequency_min <= frequency <= info.frequency_max
    &&& info.symbol_rate_min <= symbolrate <= info.symbol_rate_max
}

/// How `s` tunes the frontend that `info` describes: the LNB commands and
/// the properties, or why it cannot.
pub open spec fn tune_plan(s: DvbS2, info: FeInfo) -> Result<(Seq<FrontendCommand>, Seq<Property>), Error> {
    match intermediate(s.lnb, s.transponder.frequency) {
        None => Err(Error::FrequencyOutOfBand),
        Some((frequency, tone)) => {
            let khz = frequency * 1000;
            let baud = s.transponder.symbolrate * 1000;
            if !frontend_accepts(info, khz, baud) {
                Err(Error::UnsupportedParameters)
            } else {
                Ok(
                    (
                        lnb_commands(s.lnb.mode, s.transponder.polarization, tone),
                        tune_properties(s, khz as u32, baud as u32),
                    ),
                )
            }
        },
    }
}

impl DvbS2 {
    /// The intermediate frequency in MHz and the tone for the transponder.
    /// Fails with `FrequencyOutOfBand` where no band of the LNB holds it.
    pub fn intermediate_frequency(&self) -> (r: Result<(u32, u32), Error>)
        ensures
            intermediate(self.lnb, self.transponder.frequency) matches Some(p) ==> r == Ok::<
                (u32, u32),
                Error,
            >(p),
            intermediate(self.lnb, self.transponder.frequency) is None ==> r == Err::<(u32, u32), Error>(
                Error::FrequencyOutOfBand,
            ),
    {
        let frequency = self.transponder.frequency;
        let lnb = &self.lnb;
        if lnb.lof1 > 0 {
            if lnb.slof > 0 && lnb.lof2 > 0 && frequency >= lnb.slof {
                if frequency >= lnb.lof2 {
                    Ok((frequency - lnb.lof2, SEC_TONE_ON))
                } else {
                    Err(Error::FrequencyOutOfBand)
                }
            } else if lnb.lof1 > frequency {
                Ok((lnb.lof1 - frequency, SEC_TONE_OFF))
            } else {
                Ok((frequency - lnb.lof1, SEC_TONE_OFF))
            }
        } else if 950 <= frequency && frequency <= 2150 {
            Ok((frequency, SEC_TONE_OFF))
        } else if 2500 <= frequency && frequency <= 2700 {
            Ok((3650 - frequency, SEC_TONE_OFF))
        } else if 3400 <= frequency && frequency <= 4200 {
            Ok((5150 - frequency, SEC_TONE_OFF))
        } else if 4500 <= frequency && frequency <= 4800 {
            Ok((5950 - frequency, SEC_TONE_OFF))
        } else if 10700 <= frequency && frequency < 11700 {
            Ok((frequency - 9750, SEC_TONE_OFF))
        } else if 11700 <= frequency && frequency < 13250 {
            Ok((frequency - 10600, SEC_TONE_ON))
        } else {
            Err(Error::FrequencyOutOfBand)
        }
    }

    /// The commands that set up the LNB for `tone`.
    pub fn lnb_commands(&self, tone: u32) -> (r: Vec<FrontendCommand>)
        ensures
            r@ == lnb_commands(self.lnb.mode, self.transponder.polarization, tone),
    {
        let mut r: Vec<FrontendCommand> = Vec::new();
        match self.lnb.mode {
            LnbMode::AUTO => {
                r.push(FrontendCommand::SetTone(SEC_TONE_OFF));
                r.push(FrontendCommand::SetVoltage(self.transponder.polarization));
                r.push(FrontendCommand::Sleep(LNB_SETTLE_MS));
                r.push(FrontendCommand::SetTone(tone));
                r.push(FrontendCommand::Sleep(LNB_SETTLE_MS));
            },
            LnbMode::TONE => {
                r.push(FrontendCommand::SetTone(SEC_TONE_OFF));
                r.push(FrontendCommand::SetVoltage(self.transponder.polarization));
                r.push(FrontendCommand::Sleep(LNB_SETTLE_MS));
                r.push(FrontendCommand::SetTone(SEC_TONE_ON));
                r.push(FrontendCommand::Sleep(LNB_SETTLE_MS));
            },
            LnbMode::OFF => {
                r.push(FrontendCommand::SetTone(SEC_TONE_OFF));
                r.push(FrontendCommand::SetVoltage(SEC_VOLTAGE_OFF));
            },
            _ => {},
        }
        assert(r@ =~= lnb_commands(self.lnb.mode, self.transponder.polarization, tone));
        r
    }

    /// The properties that tune to `frequency` kHz at `symbolrate` baud.
    pub fn properties(&self, frequency: u32, symbolrate: u32) -> (r: Vec<Property>)
        ensures
            r@ == tune_properties(*self, frequency, symbolrate),
    {
        let r: Vec<Property> = vec![
            Property::new(DTV_DELIVERY_SYSTEM, SYS_DVBS2),
            Property::new(DTV_FREQUENCY, frequency),
            Property::new(DTV_MODULATION, self.adapter.modulation),
            Property::new(DTV_INVERSION, INVERSION_AUTO),
            Property::new(DTV_SYMBOL_RATE, symbolrate),
            Property::new(DTV_INNER_FEC, self.fec),
            Property::new(DTV_PILOT, PILOT_AUTO),
            Property::new(DTV_ROLLOFF, self.rof),
            Property::new(DTV_STREAM_ID, 0),
            Property::new(DTV_SCRAMBLING_SEQUENCE_INDEX, 0),
            Property::new(DTV_TUNE, 0),
        ];
        assert(r@ =~= tune_properties(*self, frequency, symbolrate));
        r
    }

    /// How to tune the frontend that `info` describes to the transponder:
    /// the LNB commands, then the properties. Fails with
    /// `FrequencyOutOfBand` where no band of the LNB holds the transponder,
    /// and with `UnsupportedParameters` where the frontend lacks second
    /// generation modulation or the frequency or symbol rate is out of its
    /// range.
    pub fn plan(&self, info: &FeInfo) -> (r: Result<TunePlan, Error>)
        ensures
            tune_plan(*self, *info) matches Err(e) ==> r == Err::<TunePlan, Error>(e),
            tune_plan(*self, *info) matches Ok((c, p)) ==> (r matches Ok(plan) && plan.commands@ == c
                && plan.properties@ == p),
    {
        let (frequency, tone) = match self.intermediate_frequency() {
            Ok(p) => p,
            Err(e) => {
                return Err(e);
            },
        };
        let khz = frequency as u64 * 1000;
        let baud = self.transponder.symbolrate as u64 * 1000;
        if info.caps & FE_CAN_2G_MODULATION == 0 || khz < info.frequency_min as u64 || khz
            > info.frequency_max as u64 || baud < info.symbol_rate_min as u64 || baud
            > info.symbol_rate_max as u64 {
            return Err(Error::UnsupportedParameters);
        }
        let commands = self.lnb_commands(tone);
        let properties = self.properties(khz as u32, baud as u32);
        Ok(TunePlan { commands, properties })
    }
}

} // verus!
