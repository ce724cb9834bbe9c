//! Payloads that the station serves as JSON, one per sensor.
//!
//! Readings that the station measures as `f32` are carried here by their
//! IEEE-754 bit patterns (`f32::to_bits`), which the library only moves and
//! never computes on.

use vstd::prelude::*;

use crate::text::{decimal, decimal_text, signed_decimal, signed_decimal_text};

verus! {

/// Full scale of the UV sensor's analog reading, in micro-volts.
pub const UV_FULL_SCALE_MICRO_VOLTS: u64 = 3300000;

/// The raw value that stands for the full scale of the analog input.
pub const UV_FULL_SCALE_TICKS: u64 = 65535;

/// Responsivity of the UV photodiode: micro-volts per micro-watt/cm^2, times 1000.
pub const UV_MICRO_VOLTS_PER_MILLI_POWER: u64 = 366;

/// Air quality reading of the ENS160 gas sensor.
#[derive(Clone, Copy, Debug, PartialEq, Eq, Structural)]
pub struct Ens160Data {
    pub air_quality: u8,
    pub eco2_ppm: u16,
    pub tvoc_ppb: u16,
}

/// Magnetic field reading of the LIS2MDL magnetometer.
#[derive(Clone, Copy, Debug, PartialEq, Eq, Structural)]
pub struct Lis2mdlData {
    pub x_nano_tesla: i32,
    pub y_nano_telsa: i32,
    pub z_nano_tesla: i32,
}

/// Temperature and humidity reading of the SHT4x sensor.
#[derive(Clone, Copy, Debug, PartialEq, Eq, Structural)]
pub struct Sht4xData {
    pub temperature_milli_celsius: i32,
    pub humidity_milli_percent: i32,
}

/// Light reading of the TSL2591 sensor.
#[derive(Clone, Copy, Debug, PartialEq, Eq, Structural)]
pub struct Tsl2591Data {
    pub nano_lux: i64,
    pub visible: u16,
    pub infrared: u16,
}

/// UV reading of the analog UV sensor.
#[derive(Clone, Copy, Debug, PartialEq, Eq, Structural)]
pub struct UvData {
    pub power_micro_watts: u64,
    pub voltage_micro_volts: u64,
}

/// Pressure reading of the MPL3115A2 barometer (the `f32` pressure in Pa, by its bits).
#[derive(Clone, Copy, Debug, PartialEq, Eq, Structural)]
pub struct Mpl3115a2Data {
    pub pressure_bits: u32,
}

/// Noise reading of the analog microphone (the `f32` values by their bits).
#[derive(Clone, Copy, Debug, PartialEq, Eq, Structural)]
pub struct NoiseData {
    pub noise_db_bits: u32,
    pub zero_to_one_bits: u32,
    pub ticks: u16,
}

/// Die temperature of the microcontroller (the `f32` in degrees Celsius, by its bits).
#[derive(Clone, Copy, Debug, PartialEq, Eq, Structural)]
pub struct CpuTempData {
    pub temperature_celsius_bits: u32,
}

/// Everything the station measures in one round.
#[derive(Clone, Copy, Debug, PartialEq, Eq, Structural)]
pub struct SensorData {
    pub air_quality: Ens160Data,
    pub pressure: Mpl3115a2Data,
    pub temperature: Sht4xData,
    pub light: Tsl2591Data,
    pub uv: UvData,
    pub noise: NoiseData,
    pub magnetic: Lis2mdlData,
    pub cpu_temp: CpuTempData,
}

/// Air quality index of the ENS160, from excellent to unhealthy.
#[derive(Clone, Copy, Debug, PartialEq, Eq, Structural)]
pub enum AirQualityIndex {
    Excellent,
    Good,
    Moderate,
    Poor,
    Unhealthy,
}

/// The number of an air quality index: 1 (excellent) to 5 (unhealthy).
pub open spec fn air_quality_level(index: AirQualityIndex) -> u8 {
    match index {
        AirQualityIndex::Excellent => 1,
        AirQualityIndex::Good => 2,
        AirQualityIndex::Moderate => 3,
        AirQualityIndex::Poor => 4,
        AirQualityIndex::Unhealthy => 5,
    }
}

impl AirQualityIndex {
    /// The number of the index: 1 (excellent) to 5 (unhealthy).
    pub fn level(&self) -> (n: u8)
        ensures
            n == air_quality_level(*self),
            1 <= n <= 5,
    {
        match self {
            AirQualityIndex::Excellent => 1,
            AirQualityIndex::Good => 2,
            AirQualityIndex::Moderate => 3,
            AirQualityIndex::Poor => 4,
            AirQualityIndex::Unhealthy => 5,
        }
    }
}

impl Ens160Data {
    /// The payload of one reading of the gas sensor.
    pub fn from_readings(index: AirQualityIndex, eco2_ppm: u16, tvoc_ppb: u16) -> (d: Ens160Data)
        ensures
            d == (Ens160Data { air_quality: air_quality_level(index), eco2_ppm, tvoc_ppb }),
    {
        Ens160Data { air_quality: index.level(), eco2_ppm, tvoc_ppb }
    }
}

/// Voltage in micro-volts that a raw UV reading stands for (rounded down).
pub open spec fn uv_voltage_micro_volts(ticks: int) -> int {
    ticks * UV_FULL_SCALE_MICRO_VOLTS / UV_FULL_SCALE_TICKS as int
}

/// UV power in micro-watts/cm^2 that a voltage in micro-volts stands for (rounded down).
pub open spec fn uv_power_micro_watts(voltage_micro_volts: int) -> int {
    voltage_micro_volts * 1000 / UV_MICRO_VOLTS_PER_MILLI_POWER as int
}

impl UvData {
    /// Converts a raw reading of the UV sensor's analog input into voltage and power.
    pub fn from_adc_ticks(ticks: u16) -> (data: UvData)
        ensures
            data.voltage_micro_volts == uv_voltage_micro_volts(ticks as int),
            data.power_micro_watts == uv_power_micro_watts(data.voltage_micro_volts as int),
    {
        let scaled: u64 = ticks as u64 * UV_FULL_SCALE_MICRO_VOLTS;
        assert(scaled <= 65535 * 3300000) by (nonlinear_arith)
            requires
                scaled == ticks as u64 * 3300000,
                ticks <= 65535,
        ;
        let voltage_micro_volts: u64 = scaled / UV_FULL_SCALE_TICKS;
        assert(voltage_micro_volts <= 3300000) by (nonlinear_arith)
            requires
                voltage_micro_volts == scaled / 65535,
                scaled <= 65535 * 3300000,
        ;
        let power_micro_watts: u64 = voltage_micro_volts * 1000 / UV_MICRO_VOLTS_PER_MILLI_POWER;
        UvData { power_micro_watts, voltage_micro_volts }
    }
}

/// A stronger raw UV reading never gives a lower voltage or a lower power.
pub proof fn lemma_uv_conversion_monotonic(low: u16, high: u16)
    requires
        low <= high,
    ensures
        uv_voltage_micro_volts(low as int) <= uv_voltage_micro_volts(high as int),
        uv_power_micro_watts(uv_voltage_micro_volts(low as int)) <= uv_power_micro_watts(
            uv_voltage_micro_volts(high as int),
        ),
{
    assert(low * 3300000int <= high * 3300000int) by (nonlinear_arith)
        requires
            low <= high,
    ;
    vstd::arithmetic::div_mod::lemma_div_is_ordered(low * 3300000int, high * 3300000int, 65535);
    let vl = uv_voltage_micro_volts(low as int);
    let vh = uv_voltage_micro_volts(high as int);
    assert(vl * 1000 <= vh * 1000) by (nonlinear_arith)
        requires
            vl <= vh,
    ;
    vstd::arithmetic::div_mod::lemma_div_is_ordered(vl * 1000, vh * 1000, 366);
}

impl Ens160Data {
    /// The reading as the firmware logs it.
    pub fn text(&self) -> (t: String)
        ensures
            t@ == "Ens160Data { air_quality: "@ + decimal_text(self.air_quality as nat) + ", eco2: "@
                + decimal_text(self.eco2_ppm as nat) + " ppm, tvoc: "@ + decimal_text(
                self.tvoc_ppb as nat,
            ) + " ppb }"@,
    {
        String::from_str("Ens160Data { air_quality: ").concat(
            decimal(self.air_quality as u64).as_str(),
        ).concat(", eco2: ").concat(decimal(self.eco2_ppm as u64).as_str()).concat(
            " ppm, tvoc: ",
        ).concat(decimal(self.tvoc_ppb as u64).as_str()).concat(" ppb }")
    }
}

impl Lis2mdlData {
    /// The reading as the firmware logs it.
    pub fn text(&self) -> (t: String)
        ensures
            t@ == "Lis2mdlData { x: "@ + signed_decimal_text(self.x_nano_tesla as int) + " uT, y: "@
                + signed_decimal_text(self.y_nano_telsa as int) + " uT, z: "@ + signed_decimal_text(
                self.z_nano_tesla as int,
            ) + " uT }"@,
    {
        String::from_str("Lis2mdlData { x: ").concat(
            signed_decimal(self.x_nano_tesla as i64).as_str(),
        ).concat(" uT, y: ").concat(signed_decimal(self.y_nano_telsa as i64).as_str()).concat(
            " uT, z: ",
        ).concat(signed_decimal(self.z_nano_tesla as i64).as_str()).concat(" uT }")
    }
}

impl Sht4xData {
    /// The reading as the firmware logs it.
    pub fn text(&self) -> (t: String)
        ensures
            t@ == "Sht4xData { temperature: "@ + signed_decimal_text(
                self.temperature_milli_celsius as int,
            ) + " mC, humidity: "@ + signed_decimal_text(self.humidity_milli_percent as int)
                + " m% }"@,
    {
        String::from_str("Sht4xData { temperature: ").concat(
            signed_decimal(self.temperature_milli_celsius as i64).as_str(),
        ).concat(" mC, humidity: ").concat(
            signed_decimal(self.humidity_milli_percent as i64).as_str(),
        ).concat(" m% }")
    }
}

impl Tsl2591Data {
    /// The reading as the firmware logs it.
    pub fn text(&self) -> (t: String)
        ensures
            t@ == "Tsl2591Data { lux: "@ + signed_decimal_text(self.nano_lux as int)
                + " nlx, visible: "@ + decimal_text(self.visible as nat) + ", infrared: "@
                + decimal_text(self.infrared as nat) + " }"@,
    {
        String::from_str("Tsl2591Data { lux: ").concat(signed_decimal(self.nano_lux).as_str()).concat(
            " nlx, visible: ",
        ).concat(decimal(self.visible as u64).as_str()).concat(", infrared: ").concat(
            decimal(self.infrared as u64).as_str(),
        ).concat(" }")
    }
}

impl UvData {
    /// The reading as the firmware logs it.
    pub fn text(&self) -> (t: String)
        ensures
            t@ == "UvData { power: "@ + decimal_text(self.power_micro_watts as nat)
                + " uW/cm^2, voltage: "@ + decimal_text(self.voltage_micro_volts as nat) + " uV }"@,
    {
        String::from_str("UvData { power: ").concat(decimal(self.power_micro_watts).as_str()).concat(
            " uW/cm^2, voltage: ",
        ).concat(decimal(self.voltage_micro_volts).as_str()).concat(" uV }")
    }
}

} // verus!
