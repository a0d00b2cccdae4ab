use amber_sensor::calibration::{
    convert_data_resolution, resolution_to_max_count, Converter, FactoryCalibration, Resolution,
};
use amber_sensor::calibration::Resolution::{BITS10, BITS12, BITS6, BITS8};
use amber_sensor::sensors::{
    current_sense_mv_to_ua, sampling_time_ns, Measurement, SampleTime, SensorReadings,
};

#[test]
fn convert_resolution() {
    let cases = [
        ((0x0fff, BITS12), (0x003f, BITS6)),
        ((0x0fff, BITS12), (0x00ff, BITS8)),
        ((0x0fff, BITS12), (0x03ff, BITS10)),
        ((0x0fff, BITS12), (0x0fff, BITS12)),
        ((0x003f, BITS6), (0x003f, BITS6)),
        ((0x003f, BITS6), (0x00f7, BITS8)),
        ((0x003f, BITS6), (0x03f0, BITS10)),
        ((0x003f, BITS6), (0x0f70, BITS12)),
    ];

    for (from, to) in cases {
        assert_eq!(convert_data_resolution(from.0, from.1, to.1), to.0);
    }
}

#[test]
fn convert_resolution_shifts_by_two_bits_per_step() {
    assert_eq!(convert_data_resolution(0x003e, Resolution::BITS6, Resolution::BITS8), 0x00f8);
    assert_eq!(convert_data_resolution(0x003e, Resolution::BITS6, Resolution::BITS12), 0x0f80);
    // The 6-bit full-scale sample is given as 0xf7 at 8 bits and 0xf70 at 12 bits.
    assert_eq!(convert_data_resolution(0x003f, Resolution::BITS6, Resolution::BITS8), 0x00f7);
    assert_eq!(convert_data_resolution(0x003f, Resolution::BITS6, Resolution::BITS12), 0x0f70);
    assert_eq!(convert_data_resolution(0x0123, Resolution::BITS10, Resolution::BITS12), 0x048c);
    // Bits shifted past 16 are lost.
    assert_eq!(convert_data_resolution(0xffff, Resolution::BITS6, Resolution::BITS12), 0xffc0);
}

#[test]
fn max_counts() {
    assert_eq!(resolution_to_max_count(Resolution::BITS12), 4095);
    assert_eq!(resolution_to_max_count(Resolution::BITS10), 1023);
    assert_eq!(resolution_to_max_count(Resolution::BITS8), 255);
    assert_eq!(resolution_to_max_count(Resolution::BITS6), 63);
    assert_eq!(Resolution::BITS6.to_bits(), 3);
}

#[test]
fn reference_voltage_from_calibration() {
    let cal = FactoryCalibration::from_raw(1000, 1300, 1650);
    assert_eq!(cal.calc_vrefanalog_mv(1650, Resolution::BITS12), 3000);
    assert_eq!(cal.calc_vrefanalog_mv(1500, Resolution::BITS12), 3300);
    // An 8-bit sample is first brought to 12 bits: 103 << 4 = 1648.
    assert_eq!(cal.calc_vrefanalog_mv(103, Resolution::BITS8), 1650 * 3000 / 1648);
}

#[test]
fn temperature_interpolates_between_calibration_points() {
    let cal = FactoryCalibration::from_raw(1000, 1300, 1650);
    assert_eq!(cal.calc_temperature_degc(3000, 1000, Resolution::BITS12), 30);
    assert_eq!(cal.calc_temperature_degc(3000, 1300, Resolution::BITS12), 130);
    assert_eq!(cal.calc_temperature_degc(3000, 1150, Resolution::BITS12), 80);
    assert_eq!(cal.calc_temperature_degc(3300, 1150, Resolution::BITS12), 118);
    // Division rounds toward zero below the first point.
    assert_eq!(cal.calc_temperature_degc(3000, 900, Resolution::BITS12), -3);
}

#[test]
fn converter_turns_samples_into_millivolts() {
    let cal = FactoryCalibration::from_raw(1000, 1300, 1650);
    let conv = Converter::new(&cal, Resolution::BITS12, 1650);
    assert_eq!(conv.vrefanalog_mv, 3000);
    assert_eq!(conv.data_to_mv(2048), 1500);
    assert_eq!(conv.data_to_mv(4095), 3000);
    assert_eq!(conv.temperature_degc(1150), 80);
}

#[test]
fn current_sense_factor() {
    assert_eq!(current_sense_mv_to_ua(200, 200), 25);
    assert_eq!(current_sense_mv_to_ua(500, 200), 10);
}

#[test]
fn sampling_time() {
    assert_eq!(sampling_time_ns(16_000_000, SampleTime::CYCLES79_5), 4968);
    assert_eq!(sampling_time_ns(16_000_000, SampleTime::CYCLES1_5), 93);
    assert_eq!(sampling_time_ns(1_000_000, SampleTime::CYCLES160_5), 160_500);
}

#[test]
fn readings_update_from_samples() {
    let cal = FactoryCalibration::from_raw(1000, 1300, 1650);
    let mut r = SensorReadings::new();
    assert_eq!(r.get_vbat_mv(), 3000);
    r.update(&cal, Resolution::BITS12, &[1650, 1150, 1365, 100, 200, 3000]);
    assert_eq!(
        r.get_status(),
        Measurement { temperature_degc: 80, vdd_mv: 3000, vbat_mv: 4394, isense_ua: 1825, fpga_isense_ua: 1460 }
    );
    assert_eq!(r.get_vbat_mv(), 4394);
    // A round without a reference sample is ignored.
    r.update(&cal, Resolution::BITS12, &[0, 1, 2, 3, 4, 5]);
    assert_eq!(r.get_vbat_mv(), 4394);
}

#[test]
fn widening_then_narrowing_is_lossless() {
    for (d, cur, tgt) in [
        (0x3eu16, Resolution::BITS6, Resolution::BITS12),
        (0xab, Resolution::BITS8, Resolution::BITS10),
        (0x3ff, Resolution::BITS10, Resolution::BITS12),
        (0x7, Resolution::BITS12, Resolution::BITS12),
    ] {
        let wide = convert_data_resolution(d, cur, tgt);
        assert_eq!(convert_data_resolution(wide, tgt, cur), d);
    }
    // Narrowing drops low bits.
    let narrow = convert_data_resolution(0x0fff, Resolution::BITS12, Resolution::BITS6);
    assert_eq!(narrow, 0x3f);
    assert_eq!(convert_data_resolution(narrow, Resolution::BITS6, Resolution::BITS10), 0x03f0);
    // The full-scale 6-bit sample does not come back to where it started at 8 bits.
    let full = convert_data_resolution(0x3f, Resolution::BITS6, Resolution::BITS8);
    assert_eq!(convert_data_resolution(full, Resolution::BITS8, Resolution::BITS6), 0x3d);
}
