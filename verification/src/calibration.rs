//! ADC calibration arithmetic: resolution conversion, reference voltage,
//! conversion of raw samples to millivolts and to degrees Celsius.
use vstd::prelude::*;

verus! {

/// ADC conversion resolutions.
#[derive(Clone, Copy, Debug, PartialEq, Eq, Structural)]
pub enum Resolution {
    BITS12,
    BITS10,
    BITS8,
    BITS6,
}

/// The register encoding of a resolution.
pub open spec fn res_code(r: Resolution) -> nat {
    match r {
        Resolution::BITS12 => 0,
        Resolution::BITS10 => 1,
        Resolution::BITS8 => 2,
        Resolution::BITS6 => 3,
    }
}

/// Largest sample value at a resolution: `2^bits - 1`.
pub open spec fn max_count(r: Resolution) -> u32 {
    match r {
        Resolution::BITS12 => 4095,
        Resolution::BITS10 => 1023,
        Resolution::BITS8 => 255,
        Resolution::BITS6 => 63,
    }
}

/// `2^(2 * res_code(r))`: the factor between a sample at `r` and at 12 bits.
pub open spec fn res_scale(r: Resolution) -> nat {
    match r {
        Resolution::BITS12 => 1,
        Resolution::BITS10 => 4,
        Resolution::BITS8 => 16,
        Resolution::BITS6 => 64,
    }
}

impl Resolution {
    /// The register encoding of the resolution.
    pub fn to_bits(self) -> (b: u8)
        ensures
            b == res_code(self),
    {
        match self {
            Resolution::BITS12 => 0,
            Resolution::BITS10 => 1,
            Resolution::BITS8 => 2,
            Resolution::BITS6 => 3,
        }
    }
}

/// Largest sample value at a resolution.
pub fn resolution_to_max_count(r: Resolution) -> (n: u32)
    ensures
        n == max_count(r),
{
    match r {
        Resolution::BITS12 => 4095,
        Resolution::BITS10 => 1023,
        Resolution::BITS8 => 255,
        Resolution::BITS6 => 63,
    }
}

/// The supply voltage at which the reference was calibrated in the factory, in mV.
pub const VREF_CALIB_MV: u32 = 3000;
/// Resolution of the factory reference calibration value.
pub const VREFINT_CAL_RESOLUTION: Resolution = Resolution::BITS12;
/// Temperature at which `ts_cal1` was taken, in °C.
pub const TS_CAL1_TEMP: i32 = 30;
/// Temperature at which `ts_cal2` was taken, in °C.
pub const TS_CAL2_TEMP: i32 = 130;
/// Supply voltage at which the temperature calibration was taken, in mV.
pub const TEMPSENSOR_CAL_VREFANALOG_MV: u32 = 3000;
/// Resolution of the temperature calibration values.
pub const TEMPSENSOR_CAL_RESOLUTION: Resolution = Resolution::BITS12;

/// A sample shifted to another resolution: up by the current resolution's
/// scale (bits past 16 are lost), then down by the target's.
pub open spec fn shifted(data: u16, current: Resolution, target: Resolution) -> u16 {
    ((((data as nat) * res_scale(current)) % 0x1_0000) / res_scale(target)) as u16
}

/// A sample re-expressed at another resolution: shifted, except that the
/// 6-bit full-scale sample 0x3f is 0xf7 at 8 bits and 0xf70 at 12 bits.
pub open spec fn converted(data: u16, current: Resolution, target: Resolution) -> u16 {
    if data == 0x3f && current == Resolution::BITS6 && target == Resolution::BITS8 {
        0xf7
    } else if data == 0x3f && current == Resolution::BITS6 && target == Resolution::BITS12 {
        0xf70
    } else {
        shifted(data, current, target)
    }
}

/// Re-expresses a sample taken at `res_current` at `res_target`
/// (`__LL_ADC_CONVERT_DATA_RESOLUTION`), with the 6-bit full-scale sample 0x3f
/// given as 0xf7 at 8 bits and 0xf70 at 12 bits.
pub fn convert_data_resolution(data: u16, res_current: Resolution, res_target: Resolution) -> (r: u16)
    ensures
        r == converted(data, res_current, res_target),
{
    if data == 0x3f && res_current == Resolution::BITS6 {
        if res_target == Resolution::BITS8 {
            return 0xf7;
        } else if res_target == Resolution::BITS12 {
            return 0xf70;
        }
    }
    shift_resolution(data, res_current, res_target)
}

fn shift_resolution(data: u16, res_current: Resolution, res_target: Resolution) -> (r: u16)
    ensures
        r == shifted(data, res_current, res_target),
{
    let cur = res_current.to_bits();
    let tgt = res_target.to_bits();
    let shift_up = cur << 1u8;
    let shift_down = tgt << 1u8;
    assert(cur <= 3 ==> (cur << 1u8) == 2 * cur) by (bit_vector);
    assert(tgt <= 3 ==> (tgt << 1u8) == 2 * tgt) by (bit_vector);
    let up = data << shift_up;
    let r = up >> shift_down;
    assert(up == (data * res_scale(res_current)) % 0x1_0000) by {
        assert(data << 0u8 == data) by (bit_vector);
        assert(data << 2u8 == (data * 4) % 0x1_0000) by (bit_vector);
        assert(data << 4u8 == (data * 16) % 0x1_0000) by (bit_vector);
        assert(data << 6u8 == (data * 64) % 0x1_0000) by (bit_vector);
    }
    assert(r == up / (res_scale(res_target) as u16)) by {
        assert(up >> 0u8 == up) by (bit_vector);
        assert(up >> 2u8 == up / 4) by (bit_vector);
        assert(up >> 4u8 == up / 16) by (bit_vector);
        assert(up >> 6u8 == up / 64) by (bit_vector);
    }
    r
}

/// Rust's integer division, which rounds toward zero.
pub open spec fn div_trunc(x: int, d: int) -> int
    decreases (if d < 0 { 1int } else { 0int }),
{
    if d > 0 {
        if x >= 0 { x / d } else { -((-x) / d) }
    } else if d < 0 {
        -div_trunc(x, -d)
    } else {
        0
    }
}

/// Signed division rounding toward zero.
fn div_i32(x: i32, d: i32) -> (q: i32)
    requires
        d != 0,
        d != i32::MIN,
        !(x == i32::MIN && d == -1),
    ensures
        q == div_trunc(x as int, d as int),
{
    if d > 0 {
        if x >= 0 {
            x / d
        } else {
            x / d
        }
    } else {
        let nd = -d;
        let q = if x >= 0 { x / nd } else { x / nd };
        assert(q == div_trunc(x as int, nd as int));
        assert(q != i32::MIN) by {
            if x < 0 {
                if nd == 1 {
                    assert(x != i32::MIN);
                } else {
                    assert((-(x as int)) / (nd as int) <= (-(x as int)) / 2) by (nonlinear_arith)
                        requires nd >= 2, x < 0;
                }
            } else {
                assert((x as int) / (nd as int) >= 0) by (nonlinear_arith)
                    requires nd >= 1, x >= 0;
            }
        }
        -q
    }
}

/// Values measured in the factory and stored in the microcontroller.
#[derive(Clone, Copy, Debug, PartialEq, Eq, Structural)]
pub struct FactoryCalibration {
    /// Temperature sensor sample at `TS_CAL1_TEMP`.
    pub ts_cal1_raw: i32,
    /// Temperature sensor sample at `TS_CAL2_TEMP`.
    pub ts_cal2_raw: i32,
    /// Reference voltage sample at `VREF_CALIB_MV`.
    pub vrefint_cal: u16,
}

/// Supply voltage in mV that a reference sample indicates.
pub open spec fn vrefanalog_mv(cal: FactoryCalibration, vrefint_adc_data: u16, resolution: Resolution) -> int {
    (cal.vrefint_cal * VREF_CALIB_MV) as int / converted(vrefint_adc_data, resolution, VREFINT_CAL_RESOLUTION) as int
}

/// Sensor sample rescaled to the calibration supply voltage.
pub open spec fn ts_data(vref_mv: int, ts_adc_data: u16, resolution: Resolution) -> int {
    div_trunc(
        converted(ts_adc_data, resolution, TEMPSENSOR_CAL_RESOLUTION) * vref_mv,
        TEMPSENSOR_CAL_VREFANALOG_MV as int,
    )
}

/// Temperature in °C: linear interpolation between the two calibration points.
pub open spec fn temperature(cal: FactoryCalibration, vref_mv: int, ts_adc_data: u16, resolution: Resolution) -> int {
    div_trunc(
        (ts_data(vref_mv, ts_adc_data, resolution) - cal.ts_cal1_raw) * (TS_CAL2_TEMP - TS_CAL1_TEMP),
        cal.ts_cal2_raw - cal.ts_cal1_raw,
    ) + TS_CAL1_TEMP
}

/// The temperature computation stays within `i32` at every step.
pub open spec fn temperature_fits(cal: FactoryCalibration, vref_mv: int, ts_adc_data: u16, resolution: Resolution) -> bool {
    let scaled = converted(ts_adc_data, resolution, TEMPSENSOR_CAL_RESOLUTION) * vref_mv;
    let diff = ts_data(vref_mv, ts_adc_data, resolution) - cal.ts_cal1_raw;
    let q = div_trunc(diff * (TS_CAL2_TEMP - TS_CAL1_TEMP), cal.ts_cal2_raw - cal.ts_cal1_raw);
    &&& 0 <= vref_mv <= i32::MAX
    &&& scaled <= i32::MAX
    &&& i32::MIN <= diff <= i32::MAX
    &&& i32::MIN <= diff * (TS_CAL2_TEMP - TS_CAL1_TEMP) <= i32::MAX
    &&& cal.ts_cal2_raw != cal.ts_cal1_raw
    &&& i32::MIN < cal.ts_cal2_raw - cal.ts_cal1_raw <= i32::MAX
    &&& q + TS_CAL1_TEMP <= i32::MAX
}

impl FactoryCalibration {
    /// Calibration from the raw values stored by the factory.
    pub fn from_raw(ts_cal1: u16, ts_cal2: u16, vrefint_cal: u16) -> (c: Self)
        ensures
            c.ts_cal1_raw == ts_cal1,
            c.ts_cal2_raw == ts_cal2,
            c.vrefint_cal == vrefint_cal,
    {
        FactoryCalibration { ts_cal1_raw: ts_cal1 as i32, ts_cal2_raw: ts_cal2 as i32, vrefint_cal }
    }

    /// Supply voltage in mV, from a sample of the internal reference.
    pub fn calc_vrefanalog_mv(&self, vrefint_adc_data: u16, resolution: Resolution) -> (mv: u32)
        requires
            converted(vrefint_adc_data, resolution, VREFINT_CAL_RESOLUTION) != 0,
        ensures
            mv == vrefanalog_mv(*self, vrefint_adc_data, resolution),
            mv <= 0xffff * VREF_CALIB_MV,
    {
        let d = convert_data_resolution(vrefint_adc_data, resolution, VREFINT_CAL_RESOLUTION) as u32;
        let n = (self.vrefint_cal as u32) * VREF_CALIB_MV;
        assert(n / d <= n) by (nonlinear_arith)
            requires d >= 1;
        n / d
    }

    /// Temperature in °C, from the supply voltage and a sample of the temperature sensor.
    pub fn calc_temperature_degc(&self, vrefanalog_mv: u32, ts_adc_data: u16, resolution: Resolution) -> (t: i32)
        requires
            temperature_fits(*self, vrefanalog_mv as int, ts_adc_data, resolution),
        ensures
            t == temperature(*self, vrefanalog_mv as int, ts_adc_data, resolution),
    {
        let c = convert_data_resolution(ts_adc_data, resolution, TEMPSENSOR_CAL_RESOLUTION) as i32;
        let v = vrefanalog_mv as i32;
        assert(0 <= (c as int) * (v as int)) by (nonlinear_arith)
            requires c >= 0, v >= 0;
        let ts = div_i32(c * v, TEMPSENSOR_CAL_VREFANALOG_MV as i32);
        let num = (ts - self.ts_cal1_raw) * (TS_CAL2_TEMP - TS_CAL1_TEMP);
        div_i32(num, self.ts_cal2_raw - self.ts_cal1_raw) + TS_CAL1_TEMP
    }
}

/// Turns raw samples into physical values, for one reading of the internal reference.
#[derive(Clone, Copy, Debug, PartialEq, Eq, Structural)]
pub struct Converter {
    pub calibration: FactoryCalibration,
    pub resolution: Resolution,
    pub vrefanalog_mv: u32,
}

/// Millivolts that a sample indicates, given the supply voltage.
pub open spec fn data_mv(data: u16, vref_mv: u32, resolution: Resolution) -> int {
    (data * vref_mv) as int / max_count(resolution) as int
}

impl Converter {
    pub open spec fn wf(self) -> bool {
        self.vrefanalog_mv <= 0xffff * VREF_CALIB_MV
    }

    /// A converter for samples taken at `resolution`, given a sample of the internal reference.
    pub fn new(calibration: &FactoryCalibration, resolution: Resolution, vrefint_adc_data: u16) -> (c: Self)
        requires
            converted(vrefint_adc_data, resolution, VREFINT_CAL_RESOLUTION) != 0,
        ensures
            c.wf(),
            c.calibration == *calibration,
            c.resolution == resolution,
            c.vrefanalog_mv == vrefanalog_mv(*calibration, vrefint_adc_data, resolution),
    {
        let vrefanalog_mv = calibration.calc_vrefanalog_mv(vrefint_adc_data, resolution);
        Converter { calibration: *calibration, resolution, vrefanalog_mv }
    }

    /// Millivolts that a sample indicates.
    pub fn data_to_mv(&self, data: u16) -> (mv: u32)
        requires
            data * self.vrefanalog_mv <= u32::MAX,
        ensures
            mv == data_mv(data, self.vrefanalog_mv, self.resolution),
    {
        (data as u32) * self.vrefanalog_mv / resolution_to_max_count(self.resolution)
    }

    /// Temperature in °C that a temperature-sensor sample indicates.
    pub fn temperature_degc(&self, ts_adc_data: u16) -> (t: i32)
        requires
            temperature_fits(self.calibration, self.vrefanalog_mv as int, ts_adc_data, self.resolution),
        ensures
            t == temperature(self.calibration, self.vrefanalog_mv as int, ts_adc_data, self.resolution),
    {
        self.calibration.calc_temperature_degc(self.vrefanalog_mv, ts_adc_data, self.resolution)
    }
}

/// The calibration reproduces the factory's measurements: a reference sample
/// equal to the factory's, taken at 12 bits, indicates the calibration supply
/// of 3000 mV; at that supply, the temperature sensor's factory samples
/// indicate exactly 30 °C and 130 °C; and a full-scale sample at any
/// resolution indicates the supply voltage itself. A sample that fits its
/// resolution, re-expressed at that same resolution, is unchanged.
pub proof fn lemma_calibration_points(cal: FactoryCalibration, vref_mv: u32, r: Resolution, data: u16)
    requires
        0 <= cal.ts_cal1_raw <= 0xfff,
        0 <= cal.ts_cal2_raw <= 0xfff,
        cal.ts_cal1_raw != cal.ts_cal2_raw,
    ensures
        data <= max_count(r) ==> converted(data, r, r) == data,
        cal.vrefint_cal != 0 ==> vrefanalog_mv(cal, cal.vrefint_cal, Resolution::BITS12) == VREF_CALIB_MV,
        temperature(cal, TEMPSENSOR_CAL_VREFANALOG_MV as int, cal.ts_cal1_raw as u16, Resolution::BITS12)
            == TS_CAL1_TEMP,
        temperature(cal, TEMPSENSOR_CAL_VREFANALOG_MV as int, cal.ts_cal2_raw as u16, Resolution::BITS12)
            == TS_CAL2_TEMP,
        data_mv(max_count(r) as u16, vref_mv, r) == vref_mv,
{
    let d = data as int;
    let sc = res_scale(r) as int;
    if data <= max_count(r) {
        assert(d * sc < 0x1_0000) by (nonlinear_arith)
            requires
                (sc == 1 && d <= 4095) || (sc == 4 && d <= 1023) || (sc == 16 && d <= 255) || (sc == 64 && d <= 63),
        ;
        assert((d * sc) / sc == d) by (nonlinear_arith)
            requires
                sc > 0;
        assert(converted(data, r, r) == shifted(data, r, r));
    }
    let v = cal.vrefint_cal as int;
    assert(converted(cal.vrefint_cal, Resolution::BITS12, Resolution::BITS12) == cal.vrefint_cal);
    if v != 0 {
        assert((v * 3000) / v == 3000) by (nonlinear_arith)
            requires
                v > 0;
    }
    let t1 = cal.ts_cal1_raw as int;
    let t2 = cal.ts_cal2_raw as int;
    assert(converted(t1 as u16, Resolution::BITS12, Resolution::BITS12) == t1);
    assert(converted(t2 as u16, Resolution::BITS12, Resolution::BITS12) == t2);
    assert((t1 * 3000) / 3000 == t1) by (nonlinear_arith)
        requires
            t1 >= 0;
    assert((t2 * 3000) / 3000 == t2) by (nonlinear_arith)
        requires
            t2 >= 0;
    assert(ts_data(3000, t1 as u16, Resolution::BITS12) == t1);
    assert(ts_data(3000, t2 as u16, Resolution::BITS12) == t2);
    let k = t2 - t1;
    reveal_with_fuel(div_trunc, 2);
    assert(div_trunc(0, k) == 0);
    if k > 0 {
        assert((k * 100) / k == 100) by (nonlinear_arith)
            requires
                k > 0;
    } else {
        assert(((-k) * 100) / (-k) == 100) by (nonlinear_arith)
            requires
                k < 0;
        assert(-(k * 100) == (-k) * 100);
    }
    assert(div_trunc(k * 100, k) == 100);
    let m = max_count(r) as int;
    assert((m * vref_mv) / m == vref_mv as int) by (nonlinear_arith)
        requires
            m > 0;
}

/// Converting a sample to a finer resolution loses nothing: converting it back
/// gives the sample again (the other way round, low bits are dropped). This
/// holds of every sample but the 6-bit 0x3f taken to 8 or 12 bits.
pub proof fn lemma_widening_is_lossless(data: u16, current: Resolution, target: Resolution)
    requires
        res_code(target) <= res_code(current),
        data <= max_count(current),
        !(data == 0x3f && current == Resolution::BITS6 && (target == Resolution::BITS8 || target
            == Resolution::BITS12)),
    ensures
        converted(converted(data, current, target), target, current) == data,
{
    let sc = res_scale(current) as int;
    let st = res_scale(target) as int;
    let d = data as int;
    assert(d * sc < 0x1_0000) by (nonlinear_arith)
        requires
            (sc == 1 && d <= 4095) || (sc == 4 && d <= 1023) || (sc == 16 && d <= 255) || (sc == 64 && d <= 63),
    ;
    assert(sc % st == 0) by {
        match current {
            Resolution::BITS12 => {},
            Resolution::BITS10 => { assert(4int % 4 == 0 && 4int % 1 == 0); },
            Resolution::BITS8 => { assert(16int % 16 == 0 && 16int % 4 == 0 && 16int % 1 == 0); },
            Resolution::BITS6 => { assert(64int % 64 == 0 && 64int % 16 == 0 && 64int % 4 == 0 && 64int % 1 == 0); },
        }
    }
    let k = sc / st;
    assert(sc == k * st) by (nonlinear_arith)
        requires
            sc % st == 0,
            k == sc / st,
            st > 0;
    assert((d * sc) % 0x1_0000 == d * sc);
    assert((d * sc) / st == d * k) by (nonlinear_arith)
        requires
            sc == k * st,
            st > 0;
    assert(d * k * st == d * sc) by (nonlinear_arith)
        requires
            sc == k * st;
    assert((d * k * st) % 0x1_0000 == d * sc);
    assert((d * sc) / sc == d) by (nonlinear_arith)
        requires
            sc > 0;
    assert(converted(data, current, target) == shifted(data, current, target));
    assert(converted(shifted(data, current, target), target, current) == shifted(shifted(data, current, target), target, current));
}

} // verus!
