use weather_station::text::signed_decimal;
use weather_station::errors::{
    AbortReason, AdcError, I2cError, Lis2mdlDriverError, Lis2mdlError, Mpl3115a2DriverError,
    Mpl3115a2Error, SensorError, Sht4xDriverError, Sht4xError, Tsl2591DriverError, Tsl2591Error,
};
use weather_station::payloads::{
    AirQualityIndex,    CpuTempData, Ens160Data, Lis2mdlData, Mpl3115a2Data, NoiseData, Sht4xData, Tsl2591Data,
    UvData,
};
use weather_station::readings::assemble_sensor_data;

#[test]
fn uv_zero_ticks_is_dark() {
    let d = UvData::from_adc_ticks(0);
    assert_eq!(d, UvData { power_micro_watts: 0, voltage_micro_volts: 0 });
}

#[test]
fn uv_full_scale_is_three_point_three_volts() {
    let d = UvData::from_adc_ticks(65535);
    assert_eq!(d.voltage_micro_volts, 3_300_000);
    assert_eq!(d.power_micro_watts, 3_300_000 * 1000 / 366);
    assert_eq!(d.power_micro_watts, 9_016_393);
}

#[test]
fn uv_mid_reading() {
    // 4095 ticks: 4095 * 3300000 / 65535 = 206_202 (rounded down from 206_202.8)
    let d = UvData::from_adc_ticks(4095);
    assert_eq!(d.voltage_micro_volts, 206_202);
    assert_eq!(d.power_micro_watts, 206_202 * 1000 / 366);
    assert_eq!(d.power_micro_watts, 563_393);
}

#[test]
fn uv_is_monotonic_on_samples() {
    let mut last = UvData::from_adc_ticks(0);
    for t in (0..=65535u32).step_by(97) {
        let d = UvData::from_adc_ticks(t as u16);
        assert!(d.voltage_micro_volts >= last.voltage_micro_volts);
        assert!(d.power_micro_watts >= last.power_micro_watts);
        last = d;
    }
}

#[test]
fn driver_errors_map_one_to_one() {
    let bus = I2cError::Abort(AbortReason::NoAcknowledge);
    assert_eq!(Mpl3115a2Error::from(Mpl3115a2DriverError::I2c(bus)), Mpl3115a2Error::I2c(bus));
    assert_eq!(Mpl3115a2Error::from(Mpl3115a2DriverError::InvalidData), Mpl3115a2Error::InvalidData);
    assert_eq!(
        Mpl3115a2Error::from(Mpl3115a2DriverError::UnsupportedChip),
        Mpl3115a2Error::UnsupportedChip
    );
    assert_eq!(Lis2mdlError::from(Lis2mdlDriverError::I2c(bus)), Lis2mdlError::I2c(bus));
    assert_eq!(Lis2mdlError::from(Lis2mdlDriverError::InvalidData), Lis2mdlError::InvalidData);
    assert_eq!(Sht4xError::from(Sht4xDriverError::I2c(bus)), Sht4xError::I2c(bus));
    assert_eq!(Sht4xError::from(Sht4xDriverError::Crc), Sht4xError::Unknown);
    assert_eq!(Tsl2591Error::from(Tsl2591DriverError::I2c(bus)), Tsl2591Error::I2c(bus));
    assert_eq!(Tsl2591Error::from(Tsl2591DriverError::IdMismatch(0x12)), Tsl2591Error::IdMismatch(0x12));
    assert_eq!(Tsl2591Error::from(Tsl2591DriverError::SignalOverflow), Tsl2591Error::SignalOverflow);
    assert_eq!(
        Tsl2591Error::from(Tsl2591DriverError::InfraredOverflow),
        Tsl2591Error::InfraredOverflow
    );
}

#[test]
fn sensor_errors_keep_their_cause() {
    let bus = I2cError::AddressReserved(0x07);
    assert_eq!(SensorError::from(bus), SensorError::I2c(bus));
    assert_eq!(SensorError::from(AdcError::ConversionFailed), SensorError::Adc(AdcError::ConversionFailed));
    assert_eq!(SensorError::from(Mpl3115a2Error::I2c(bus)), SensorError::I2c(bus));
    assert_eq!(SensorError::from(Mpl3115a2Error::InvalidData), SensorError::InvalidData);
    assert_eq!(SensorError::from(Mpl3115a2Error::UnsupportedChip), SensorError::UnsupportedChip);
    assert_eq!(SensorError::from(Sht4xError::I2c(bus)), SensorError::I2c(bus));
    assert_eq!(SensorError::from(Sht4xError::Unknown), SensorError::Unknown);
    assert_eq!(SensorError::from(Tsl2591Error::I2c(bus)), SensorError::I2c(bus));
    assert_eq!(SensorError::from(Tsl2591Error::IdMismatch(3)), SensorError::IdMismatch(3));
    assert_eq!(SensorError::from(Tsl2591Error::SignalOverflow), SensorError::SignalOverflow);
    assert_eq!(SensorError::from(Tsl2591Error::InfraredOverflow), SensorError::InfraredOverflow);
    assert_eq!(SensorError::from(Tsl2591Error::TotalOverflow), SensorError::TotalOverflow);
    assert_eq!(SensorError::from(Lis2mdlError::I2c(bus)), SensorError::I2c(bus));
    assert_eq!(SensorError::from(Lis2mdlError::InvalidData), SensorError::InvalidData);
}

fn sample() -> (
    Ens160Data,
    Mpl3115a2Data,
    Sht4xData,
    Tsl2591Data,
    Lis2mdlData,
    UvData,
    NoiseData,
    CpuTempData,
) {
    (
        Ens160Data { air_quality: 2, eco2_ppm: 450, tvoc_ppb: 30 },
        Mpl3115a2Data { pressure_bits: 101_325.0f32.to_bits() },
        Sht4xData { temperature_milli_celsius: 21_500, humidity_milli_percent: 48_250 },
        Tsl2591Data { nano_lux: 1_234_000_000, visible: 900, infrared: 120 },
        Lis2mdlData { x_nano_tesla: 1, y_nano_telsa: -2, z_nano_tesla: 3 },
        UvData::from_adc_ticks(1000),
        NoiseData { noise_db_bits: (-3.5f32).to_bits(), zero_to_one_bits: 0.5f32.to_bits(), ticks: 831 },
        CpuTempData { temperature_celsius_bits: 27.3f32.to_bits() },
    )
}

#[test]
fn round_with_all_readings_succeeds() {
    let (a, p, t, l, m, u, n, c) = sample();
    let data = assemble_sensor_data(Ok(a), Ok(p), Ok(t), Ok(l), Ok(m), Ok(u), Ok(n), Ok(c)).unwrap();
    assert_eq!(data.air_quality, a);
    assert_eq!(data.pressure, p);
    assert_eq!(f32::from_bits(data.pressure.pressure_bits), 101_325.0);
    assert_eq!(data.temperature, t);
    assert_eq!(data.light, l);
    assert_eq!(data.magnetic, m);
    assert_eq!(data.uv, u);
    assert_eq!(data.noise, n);
    assert_eq!(data.cpu_temp, c);
}

#[test]
fn round_reports_first_failure_in_order() {
    let (a, p, t, l, m, u, n, c) = sample();
    let bus = I2cError::InvalidReadBufferLength;
    // the light sensor fails before the magnetometer in the fixed order
    let r = assemble_sensor_data(
        Ok(a),
        Ok(p),
        Ok(t),
        Err(Tsl2591Error::TotalOverflow),
        Err(Lis2mdlError::InvalidData),
        Ok(u),
        Ok(n),
        Ok(c),
    );
    assert_eq!(r, Err(SensorError::TotalOverflow));
    // the air quality sensor comes first of all
    let r = assemble_sensor_data(
        Err(bus),
        Err(Mpl3115a2Error::UnsupportedChip),
        Ok(t),
        Ok(l),
        Ok(m),
        Err(AdcError::ConversionFailed),
        Ok(n),
        Ok(c),
    );
    assert_eq!(r, Err(SensorError::I2c(bus)));
    // an ADC failure of the CPU temperature alone
    let r = assemble_sensor_data(Ok(a), Ok(p), Ok(t), Ok(l), Ok(m), Ok(u), Ok(n), Err(AdcError::ConversionFailed));
    assert_eq!(r, Err(SensorError::Adc(AdcError::ConversionFailed)));
    // a temperature sensor CRC failure reaches the set as unknown
    let r = assemble_sensor_data(
        Ok(a),
        Ok(p),
        Err(Sht4xError::from(Sht4xDriverError::Crc)),
        Ok(l),
        Ok(m),
        Ok(u),
        Ok(n),
        Ok(c),
    );
    assert_eq!(r, Err(SensorError::Unknown));
}

#[test]
fn gas_sensor_payload_numbers_the_index() {
    let d = Ens160Data::from_readings(AirQualityIndex::Moderate, 612, 87);
    assert_eq!(d, Ens160Data { air_quality: 3, eco2_ppm: 612, tvoc_ppb: 87 });
    assert_eq!(AirQualityIndex::Excellent.level(), 1);
    assert_eq!(AirQualityIndex::Good.level(), 2);
    assert_eq!(AirQualityIndex::Poor.level(), 4);
    assert_eq!(AirQualityIndex::Unhealthy.level(), 5);
}

#[test]
fn decimal_text_of_numbers() {
    assert_eq!(weather_station::text::decimal(0), "0");
    assert_eq!(weather_station::text::decimal(7), "7");
    assert_eq!(weather_station::text::decimal(10), "10");
    assert_eq!(weather_station::text::decimal(4_294_967_295), "4294967295");
}

#[test]
fn sensor_error_log_texts() {
    assert_eq!(
        SensorError::I2c(I2cError::Abort(AbortReason::NoAcknowledge)).text(),
        "I2C error: Abort(NoAcknowledge)"
    );
    assert_eq!(
        SensorError::I2c(I2cError::Abort(AbortReason::TxNotEmpty(12))).text(),
        "I2C error: Abort(TxNotEmpty(12))"
    );
    assert_eq!(
        SensorError::I2c(I2cError::AddressReserved(120)).text(),
        "I2C error: AddressReserved(120)"
    );
    assert_eq!(
        SensorError::Adc(AdcError::ConversionFailed).text(),
        "ADC error: ConversionFailed"
    );
    assert_eq!(SensorError::IdMismatch(80).text(), "ID mismatch: 80");
    assert_eq!(SensorError::InvalidData.text(), "Invalid data");
    assert_eq!(SensorError::UnsupportedChip.text(), "Unsupported chip");
    assert_eq!(SensorError::Unknown.text(), "Unknown error");
    assert_eq!(SensorError::SignalOverflow.text(), "Signal overflow");
    assert_eq!(SensorError::InfraredOverflow.text(), "Infrared overflow");
    assert_eq!(SensorError::TotalOverflow.text(), "Total overflow");
}

#[test]
fn signed_decimal_text_of_numbers() {
    assert_eq!(signed_decimal(0), "0");
    assert_eq!(signed_decimal(-45), "-45");
    assert_eq!(signed_decimal(123), "123");
    assert_eq!(signed_decimal(i64::MIN), "-9223372036854775808");
    assert_eq!(signed_decimal(i64::MAX), "9223372036854775807");
}

#[test]
fn payload_log_texts() {
    assert_eq!(
        Ens160Data { air_quality: 2, eco2_ppm: 450, tvoc_ppb: 31 }.text(),
        "Ens160Data { air_quality: 2, eco2: 450 ppm, tvoc: 31 ppb }"
    );
    assert_eq!(
        Lis2mdlData { x_nano_tesla: -1500, y_nano_telsa: 0, z_nano_tesla: 42 }.text(),
        "Lis2mdlData { x: -1500 uT, y: 0 uT, z: 42 uT }"
    );
    assert_eq!(
        Sht4xData { temperature_milli_celsius: -2500, humidity_milli_percent: 55_000 }.text(),
        "Sht4xData { temperature: -2500 mC, humidity: 55000 m% }"
    );
    assert_eq!(
        Tsl2591Data { nano_lux: 12_345_678, visible: 300, infrared: 40 }.text(),
        "Tsl2591Data { lux: 12345678 nlx, visible: 300, infrared: 40 }"
    );
    assert_eq!(
        UvData { power_micro_watts: 9016, voltage_micro_volts: 3_300_000 }.text(),
        "UvData { power: 9016 uW/cm^2, voltage: 3300000 uV }"
    );
}
