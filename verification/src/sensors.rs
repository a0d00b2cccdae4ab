//! Turning raw ADC samples into the board's measurements.
use vstd::prelude::*;
use crate::calibration::{
    Converter, FactoryCalibration, Resolution, VREFINT_CAL_RESOLUTION, converted, data_mv,
    temperature, temperature_fits, vrefanalog_mv,
};

verus! {

/// Microamps per millivolt across a current-sense shunt of `shunt_mohm` milliohms
/// read through an amplifier of gain `v_gain`.
pub fn current_sense_mv_to_ua(shunt_mohm: u32, v_gain: u32) -> (r: u32)
    requires
        shunt_mohm * v_gain > 0,
        shunt_mohm * v_gain <= u32::MAX,
    ensures
        r == 1_000_000u32 / (shunt_mohm * v_gain) as u32,
{
    1_000_000 / (shunt_mohm * v_gain)
}

/// Microamps per millivolt of the board's supply current sense.
pub const ISENSE_UA_PER_MV: u32 = 25;
/// Microamps per millivolt of the FPGA current sense.
pub const FPGA_ISENSE_UA_PER_MV: u32 = 10;
/// Divider in front of the external battery voltage input.
pub const VBATEXT_VOLTAGE_DIV: u32 = 2;
/// Divider in front of the internal supply voltage channel.
pub const VBATINT_VOLTAGE_DIV: u32 = 3;
/// Resolution the ADC is configured for.
pub const RESOLUTION: Resolution = Resolution::BITS12;
/// ADC clock frequency, in Hz.
pub const CLOCK_HZ: u32 = 16_000_000;

/// The current-sense factors follow from the shunts (200 and 500 mΩ) and the amplifier gain (200).
pub proof fn lemma_current_sense_factors()
    ensures
        ISENSE_UA_PER_MV == 1_000_000int / (200 * 200int),
        FPGA_ISENSE_UA_PER_MV == 1_000_000int / (500 * 200int),
{
}

/// ADC sampling durations, in ADC clock cycles.
#[allow(non_camel_case_types)]
#[derive(Clone, Copy, Debug, PartialEq, Eq, Structural)]
pub enum SampleTime {
    CYCLES1_5,
    CYCLES3_5,
    CYCLES7_5,
    CYCLES12_5,
    CYCLES19_5,
    CYCLES39_5,
    CYCLES79_5,
    CYCLES160_5,
}

/// A sampling duration in thousandths of a clock cycle.
pub open spec fn periods_x1000(s: SampleTime) -> u64 {
    match s {
        SampleTime::CYCLES1_5 => 1_500,
        SampleTime::CYCLES3_5 => 3_500,
        SampleTime::CYCLES7_5 => 7_500,
        SampleTime::CYCLES12_5 => 12_500,
        SampleTime::CYCLES19_5 => 19_500,
        SampleTime::CYCLES39_5 => 39_500,
        SampleTime::CYCLES79_5 => 79_500,
        SampleTime::CYCLES160_5 => 160_500,
    }
}

/// Sampling duration in nanoseconds, with the clock counted in whole megahertz.
pub fn sampling_time_ns(clock_hz: u32, sample_time: SampleTime) -> (ns: u64)
    requires
        clock_hz >= 1_000_000,
    ensures
        ns == periods_x1000(sample_time) / ((clock_hz / 1_000_000) as u64),
{
    let periods: u64 = match sample_time {
        SampleTime::CYCLES1_5 => 1_500,
        SampleTime::CYCLES3_5 => 3_500,
        SampleTime::CYCLES7_5 => 7_500,
        SampleTime::CYCLES12_5 => 12_500,
        SampleTime::CYCLES19_5 => 19_500,
        SampleTime::CYCLES39_5 => 39_500,
        SampleTime::CYCLES79_5 => 79_500,
        SampleTime::CYCLES160_5 => 160_500,
    };
    let c_mhz = (clock_hz / 1_000_000) as u64;
    periods / c_mhz
}

/// Sampling of the internal reference lasts at least the 4 µs the datasheet asks for.
pub proof fn lemma_vrefint_sampling_time_legal()
    ensures
        periods_x1000(SampleTime::CYCLES79_5) / ((CLOCK_HZ / 1_000_000) as u64) >= 4_000,
{
}

/// One set of the board's measurements.
#[derive(Clone, Copy, Debug, PartialEq, Eq, Structural)]
pub struct Measurement {
    pub temperature_degc: i32,
    pub vdd_mv: u32,
    pub vbat_mv: u32,
    pub isense_ua: u32,
    pub fpga_isense_ua: u32,
}

/// Samples of one round, in order: internal reference, temperature sensor,
/// internal supply, supply current sense, FPGA current sense, external battery.
pub type Samples = [u16; 6];

/// The conditions under which a round of samples converts without overflow.
pub open spec fn samples_convertible(cal: FactoryCalibration, resolution: Resolution, buf: Seq<u16>) -> bool {
    let vref = vrefanalog_mv(cal, buf[0], resolution);
    &&& buf.len() == 6
    &&& converted(buf[0], resolution, VREFINT_CAL_RESOLUTION) != 0
    &&& temperature_fits(cal, vref, buf[1], resolution)
    &&& forall|i: int| 2 <= i < 6 ==> buf[i] * vref <= u32::MAX
    &&& data_mv(buf[2], vref as u32, resolution) * VBATINT_VOLTAGE_DIV <= u32::MAX
    &&& data_mv(buf[3], vref as u32, resolution) * ISENSE_UA_PER_MV <= u32::MAX
    &&& data_mv(buf[4], vref as u32, resolution) * FPGA_ISENSE_UA_PER_MV <= u32::MAX
    &&& data_mv(buf[5], vref as u32, resolution) * VBATEXT_VOLTAGE_DIV <= u32::MAX
}

/// The measurement that a round of samples indicates.
pub open spec fn measurement_of(cal: FactoryCalibration, resolution: Resolution, buf: Seq<u16>) -> Measurement {
    let vref = vrefanalog_mv(cal, buf[0], resolution);
    Measurement {
        temperature_degc: temperature(cal, vref, buf[1], resolution) as i32,
        vdd_mv: (data_mv(buf[2], vref as u32, resolution) * VBATINT_VOLTAGE_DIV) as u32,
        isense_ua: (data_mv(buf[3], vref as u32, resolution) * ISENSE_UA_PER_MV) as u32,
        fpga_isense_ua: (data_mv(buf[4], vref as u32, resolution) * FPGA_ISENSE_UA_PER_MV) as u32,
        vbat_mv: (data_mv(buf[5], vref as u32, resolution) * VBATEXT_VOLTAGE_DIV) as u32,
    }
}

/// The latest measurements of the board.
#[derive(Clone, Copy, Debug, PartialEq, Eq, Structural)]
pub struct SensorReadings {
    pub latest: Measurement,
}

impl SensorReadings {
    /// Readings before the first sampling round.
    pub fn new() -> (r: Self)
        ensures
            r.latest == (Measurement { temperature_degc: 20, vdd_mv: 3000, vbat_mv: 3000, isense_ua: 0, fpga_isense_ua: 0 }),
    {
        SensorReadings {
            latest: Measurement { temperature_degc: 20, vdd_mv: 3000, vbat_mv: 3000, isense_ua: 0, fpga_isense_ua: 0 },
        }
    }

    /// Takes in one round of samples. A round whose reference sample is zero is ignored.
    pub fn update(&mut self, cal: &FactoryCalibration, resolution: Resolution, buf: &Samples)
        requires
            buf@[0] != 0 ==> samples_convertible(*cal, resolution, buf@),
        ensures
            buf@[0] == 0 ==> *final(self) == *old(self),
            buf@[0] != 0 ==> final(self).latest == measurement_of(*cal, resolution, buf@),
    {
        if buf[0] != 0 {
            let conv = Converter::new(cal, resolution, buf[0]);
            let temperature_degc = conv.temperature_degc(buf[1]);
            let vdd_mv = conv.data_to_mv(buf[2]) * VBATINT_VOLTAGE_DIV;
            let isense_ua = conv.data_to_mv(buf[3]) * ISENSE_UA_PER_MV;
            let fpga_isense_ua = conv.data_to_mv(buf[4]) * FPGA_ISENSE_UA_PER_MV;
            let vbat_mv = conv.data_to_mv(buf[5]) * VBATEXT_VOLTAGE_DIV;
            self.latest = Measurement { temperature_degc, vdd_mv, vbat_mv, isense_ua, fpga_isense_ua };
        }
    }

    /// Battery voltage, in mV.
    pub fn get_vbat_mv(&self) -> (mv: u32)
        ensures
            mv == self.latest.vbat_mv,
    {
        self.latest.vbat_mv
    }

    /// All of the latest measurements.
    pub fn get_status(&self) -> (m: Measurement)
        ensures
            m == self.latest,
    {
        self.latest
    }
}

} // verus!
