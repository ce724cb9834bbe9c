//! Error model of the sensor bus, the sensor drivers and the sensor set.
//!
//! `I2cError`, `AbortReason` and `AdcError` hold the same variants as the
//! I2C and ADC error types of the RP2040 hardware layer; the `*DriverError`
//! types hold the variants of the drivers' own error types. The firmware
//! converts a hardware or driver error into these one variant for one variant.

use vstd::prelude::*;

use crate::text::{bracketed, decimal, decimal_text};

verus! {

/// Why the I2C controller aborted a transfer.
#[derive(Clone, Copy, Debug, PartialEq, Eq, Structural)]
pub enum AbortReason {
    NoAcknowledge,
    ArbitrationLoss,
    TxNotEmpty(u16),
    Other(u32),
}

/// An I2C bus error.
#[derive(Clone, Copy, Debug, PartialEq, Eq, Structural)]
pub enum I2cError {
    Abort(AbortReason),
    InvalidReadBufferLength,
    InvalidWriteBufferLength,
    AddressOutOfRange(u16),
    AddressReserved(u16),
}

/// An ADC conversion error.
#[derive(Clone, Copy, Debug, PartialEq, Eq, Structural)]
pub enum AdcError {
    ConversionFailed,
}

/// Error of the MPL3115A2 barometer driver.
#[derive(Clone, Copy, Debug, PartialEq, Eq, Structural)]
pub enum Mpl3115a2DriverError {
    I2c(I2cError),
    InvalidData,
    UnsupportedChip,
}

/// Error of the LIS2MDL magnetometer driver.
#[derive(Clone, Copy, Debug, PartialEq, Eq, Structural)]
pub enum Lis2mdlDriverError {
    I2c(I2cError),
    InvalidData,
}

/// Error of the SHT4x temperature and humidity sensor driver.
#[derive(Clone, Copy, Debug, PartialEq, Eq, Structural)]
pub enum Sht4xDriverError {
    /// Failed I2C communication.
    I2c(I2cError),
    /// Failed CRC verification of sensor data.
    Crc,
}

/// Error of the TSL2591 light sensor driver.
#[derive(Clone, Copy, Debug, PartialEq, Eq, Structural)]
pub enum Tsl2591DriverError {
    I2c(I2cError),
    IdMismatch(u8),
    SignalOverflow,
    InfraredOverflow,
}

/// Error of the station's barometer.
#[derive(Clone, Copy, Debug, PartialEq, Eq, Structural)]
pub enum Mpl3115a2Error {
    I2c(I2cError),
    InvalidData,
    UnsupportedChip,
}

/// Error of the station's temperature and humidity sensor.
#[derive(Clone, Copy, Debug, PartialEq, Eq, Structural)]
pub enum Sht4xError {
    I2c(I2cError),
    Unknown,
}

/// Error of the station's light sensor.
#[derive(Clone, Copy, Debug, PartialEq, Eq, Structural)]
pub enum Tsl2591Error {
    I2c(I2cError),
    IdMismatch(u8),
    SignalOverflow,
    InfraredOverflow,
    /// Heuristic was unable to find a valid gain/integration time combination
    /// for the current light level
    TotalOverflow,
}

/// Error of the station's magnetometer.
#[derive(Clone, Copy, Debug, PartialEq, Eq, Structural)]
pub enum Lis2mdlError {
    I2c(I2cError),
    InvalidData,
}

/// Error of the sensor set as a whole.
#[derive(Clone, Copy, Debug, PartialEq, Eq, Structural)]
pub enum SensorError {
    I2c(I2cError),
    Adc(AdcError),
    InvalidData,
    UnsupportedChip,
    Unknown,
    IdMismatch(u8),
    SignalOverflow,
    InfraredOverflow,
    /// Heuristic was unable to find a valid gain/integration time combination
    /// for the current light level
    TotalOverflow,
}

/// The barometer error that a driver error becomes.
pub open spec fn mpl3115a2_error_of(e: Mpl3115a2DriverError) -> Mpl3115a2Error {
    match e {
        Mpl3115a2DriverError::I2c(i) => Mpl3115a2Error::I2c(i),
        Mpl3115a2DriverError::InvalidData => Mpl3115a2Error::InvalidData,
        Mpl3115a2DriverError::UnsupportedChip => Mpl3115a2Error::UnsupportedChip,
    }
}

impl From<Mpl3115a2DriverError> for Mpl3115a2Error {
    fn from(e: Mpl3115a2DriverError) -> (r: Self) {
        match e {
            Mpl3115a2DriverError::I2c(i) => Mpl3115a2Error::I2c(i),
            Mpl3115a2DriverError::InvalidData => Mpl3115a2Error::InvalidData,
            Mpl3115a2DriverError::UnsupportedChip => Mpl3115a2Error::UnsupportedChip,
        }
    }
}

impl vstd::std_specs::convert::FromSpecImpl<Mpl3115a2DriverError> for Mpl3115a2Error {
    open spec fn obeys_from_spec() -> bool {
        true
    }

    open spec fn from_spec(e: Mpl3115a2DriverError) -> Self {
        mpl3115a2_error_of(e)
    }
}

/// The magnetometer error that a driver error becomes.
pub open spec fn lis2mdl_error_of(e: Lis2mdlDriverError) -> Lis2mdlError {
    match e {
        Lis2mdlDriverError::I2c(i) => Lis2mdlError::I2c(i),
        Lis2mdlDriverError::InvalidData => Lis2mdlError::InvalidData,
    }
}

impl From<Lis2mdlDriverError> for Lis2mdlError {
    fn from(e: Lis2mdlDriverError) -> (r: Self) {
        match e {
            Lis2mdlDriverError::I2c(i) => Lis2mdlError::I2c(i),
            Lis2mdlDriverError::InvalidData => Lis2mdlError::InvalidData,
        }
    }
}

impl vstd::std_specs::convert::FromSpecImpl<Lis2mdlDriverError> for Lis2mdlError {
    open spec fn obeys_from_spec() -> bool {
        true
    }

    open spec fn from_spec(e: Lis2mdlDriverError) -> Self {
        lis2mdl_error_of(e)
    }
}

/// The temperature sensor error that a driver error becomes: a failed CRC
/// check is reported as an unknown error.
pub open spec fn sht4x_error_of(e: Sht4xDriverError) -> Sht4xError {
    match e {
        Sht4xDriverError::I2c(i) => Sht4xError::I2c(i),
        _ => Sht4xError::Unknown,
    }
}

impl From<Sht4xDriverError> for Sht4xError {
    fn from(e: Sht4xDriverError) -> (r: Self) {
        match e {
            Sht4xDriverError::I2c(i) => Sht4xError::I2c(i),
            _ => Sht4xError::Unknown,
        }
    }
}

impl vstd::std_specs::convert::FromSpecImpl<Sht4xDriverError> for Sht4xError {
    open spec fn obeys_from_spec() -> bool {
        true
    }

    open spec fn from_spec(e: Sht4xDriverError) -> Self {
        sht4x_error_of(e)
    }
}

/// The light sensor error that a driver error becomes.
pub open spec fn tsl2591_error_of(e: Tsl2591DriverError) -> Tsl2591Error {
    match e {
        Tsl2591DriverError::I2c(i) => Tsl2591Error::I2c(i),
        Tsl2591DriverError::IdMismatch(id) => Tsl2591Error::IdMismatch(id),
        Tsl2591DriverError::SignalOverflow => Tsl2591Error::SignalOverflow,
        Tsl2591DriverError::InfraredOverflow => Tsl2591Error::InfraredOverflow,
    }
}

impl From<Tsl2591DriverError> for Tsl2591Error {
    fn from(e: Tsl2591DriverError) -> (r: Self) {
        match e {
            Tsl2591DriverError::I2c(i) => Tsl2591Error::I2c(i),
            Tsl2591DriverError::IdMismatch(id) => Tsl2591Error::IdMismatch(id),
            Tsl2591DriverError::SignalOverflow => Tsl2591Error::SignalOverflow,
            Tsl2591DriverError::InfraredOverflow => Tsl2591Error::InfraredOverflow,
        }
    }
}

impl vstd::std_specs::convert::FromSpecImpl<Tsl2591DriverError> for Tsl2591Error {
    open spec fn obeys_from_spec() -> bool {
        true
    }

    open spec fn from_spec(e: Tsl2591DriverError) -> Self {
        tsl2591_error_of(e)
    }
}

impl From<I2cError> for SensorError {
    fn from(error: I2cError) -> (r: Self) {
        SensorError::I2c(error)
    }
}

impl vstd::std_specs::convert::FromSpecImpl<I2cError> for SensorError {
    open spec fn obeys_from_spec() -> bool {
        true
    }

    open spec fn from_spec(error: I2cError) -> Self {
        SensorError::I2c(error)
    }
}

impl From<AdcError> for SensorError {
    fn from(error: AdcError) -> (r: Self) {
        SensorError::Adc(error)
    }
}

impl vstd::std_specs::convert::FromSpecImpl<AdcError> for SensorError {
    open spec fn obeys_from_spec() -> bool {
        true
    }

    open spec fn from_spec(error: AdcError) -> Self {
        SensorError::Adc(error)
    }
}

/// The sensor-set error that a barometer error becomes.
pub open spec fn sensor_error_of_mpl3115a2(error: Mpl3115a2Error) -> SensorError {
    match error {
        Mpl3115a2Error::I2c(e) => SensorError::I2c(e),
        Mpl3115a2Error::InvalidData => SensorError::InvalidData,
        Mpl3115a2Error::UnsupportedChip => SensorError::UnsupportedChip,
    }
}

impl From<Mpl3115a2Error> for SensorError {
    fn from(error: Mpl3115a2Error) -> (r: Self) {
        match error {
            Mpl3115a2Error::I2c(e) => SensorError::I2c(e),
            Mpl3115a2Error::InvalidData => SensorError::InvalidData,
            Mpl3115a2Error::UnsupportedChip => SensorError::UnsupportedChip,
        }
    }
}

impl vstd::std_specs::convert::FromSpecImpl<Mpl3115a2Error> for SensorError {
    open spec fn obeys_from_spec() -> bool {
        true
    }

    open spec fn from_spec(error: Mpl3115a2Error) -> Self {
        sensor_error_of_mpl3115a2(error)
    }
}

/// The sensor-set error that a temperature sensor error becomes.
pub open spec fn sensor_error_of_sht4x(error: Sht4xError) -> SensorError {
    match error {
        Sht4xError::I2c(e) => SensorError::I2c(e),
        Sht4xError::Unknown => SensorError::Unknown,
    }
}

impl From<Sht4xError> for SensorError {
    fn from(error: Sht4xError) -> (r: Self) {
        match error {
            Sht4xError::I2c(e) => SensorError::I2c(e),
            Sht4xError::Unknown => SensorError::Unknown,
        }
    }
}

impl vstd::std_specs::convert::FromSpecImpl<Sht4xError> for SensorError {
    open spec fn obeys_from_spec() -> bool {
        true
    }

    open spec fn from_spec(error: Sht4xError) -> Self {
        sensor_error_of_sht4x(error)
    }
}

/// The sensor-set error that a light sensor error becomes.
pub open spec fn sensor_error_of_tsl2591(error: Tsl2591Error) -> SensorError {
    match error {
        Tsl2591Error::I2c(e) => SensorError::I2c(e),
        Tsl2591Error::IdMismatch(id) => SensorError::IdMismatch(id),
        Tsl2591Error::SignalOverflow => SensorError::SignalOverflow,
        Tsl2591Error::InfraredOverflow => SensorError::InfraredOverflow,
        Tsl2591Error::TotalOverflow => SensorError::TotalOverflow,
    }
}

impl From<Tsl2591Error> for SensorError {
    fn from(error: Tsl2591Error) -> (r: Self) {
        match error {
            Tsl2591Error::I2c(e) => SensorError::I2c(e),
            Tsl2591Error::IdMismatch(id) => SensorError::IdMismatch(id),
            Tsl2591Error::SignalOverflow => SensorError::SignalOverflow,
            Tsl2591Error::InfraredOverflow => SensorError::InfraredOverflow,
            Tsl2591Error::TotalOverflow => SensorError::TotalOverflow,
        }
    }
}

impl vstd::std_specs::convert::FromSpecImpl<Tsl2591Error> for SensorError {
    open spec fn obeys_from_spec() -> bool {
        true
    }

    open spec fn from_spec(error: Tsl2591Error) -> Self {
        sensor_error_of_tsl2591(error)
    }
}

/// The sensor-set error that a magnetometer error becomes.
pub open spec fn sensor_error_of_lis2mdl(error: Lis2mdlError) -> SensorError {
    match error {
        Lis2mdlError::I2c(e) => SensorError::I2c(e),
        Lis2mdlError::InvalidData => SensorError::InvalidData,
    }
}

impl From<Lis2mdlError> for SensorError {
    fn from(error: Lis2mdlError) -> (r: Self) {
        match error {
            Lis2mdlError::I2c(e) => SensorError::I2c(e),
            Lis2mdlError::InvalidData => SensorError::InvalidData,
        }
    }
}

impl vstd::std_specs::convert::FromSpecImpl<Lis2mdlError> for SensorError {
    open spec fn obeys_from_spec() -> bool {
        true
    }

    open spec fn from_spec(error: Lis2mdlError) -> Self {
        sensor_error_of_lis2mdl(error)
    }
}

/// A bus failure keeps its cause on the way up: whichever sensor reports the
/// I2C error `e`, the sensor set reports `SensorError::I2c(e)`.
pub proof fn lemma_bus_errors_keep_their_cause(e: I2cError)
    ensures
        sensor_error_of_mpl3115a2(mpl3115a2_error_of(Mpl3115a2DriverError::I2c(e)))
            == SensorError::I2c(e),
        sensor_error_of_lis2mdl(lis2mdl_error_of(Lis2mdlDriverError::I2c(e))) == SensorError::I2c(
            e,
        ),
        sensor_error_of_tsl2591(tsl2591_error_of(Tsl2591DriverError::I2c(e))) == SensorError::I2c(
            e,
        ),
        sensor_error_of_sht4x(sht4x_error_of(Sht4xDriverError::I2c(e))) == SensorError::I2c(e),
{
}

/// Text of an abort reason, as the firmware's log shows it.
pub open spec fn abort_reason_text(r: AbortReason) -> Seq<char> {
    match r {
        AbortReason::NoAcknowledge => "NoAcknowledge"@,
        AbortReason::ArbitrationLoss => "ArbitrationLoss"@,
        AbortReason::TxNotEmpty(n) => "TxNotEmpty("@ + decimal_text(n as nat) + ")"@,
        AbortReason::Other(n) => "Other("@ + decimal_text(n as nat) + ")"@,
    }
}

/// Text of an I2C bus error, as the firmware's log shows it.
pub open spec fn i2c_error_text(e: I2cError) -> Seq<char> {
    match e {
        I2cError::Abort(r) => "Abort("@ + abort_reason_text(r) + ")"@,
        I2cError::InvalidReadBufferLength => "InvalidReadBufferLength"@,
        I2cError::InvalidWriteBufferLength => "InvalidWriteBufferLength"@,
        I2cError::AddressOutOfRange(a) => "AddressOutOfRange("@ + decimal_text(a as nat) + ")"@,
        I2cError::AddressReserved(a) => "AddressReserved("@ + decimal_text(a as nat) + ")"@,
    }
}

/// Text of an ADC error, as the firmware's log shows it.
pub open spec fn adc_error_text(e: AdcError) -> Seq<char> {
    match e {
        AdcError::ConversionFailed => "ConversionFailed"@,
    }
}

/// Text of a sensor error, as the firmware logs it.
pub open spec fn sensor_error_text(e: SensorError) -> Seq<char> {
    match e {
        SensorError::I2c(i) => "I2C error: "@ + i2c_error_text(i),
        SensorError::Adc(a) => "ADC error: "@ + adc_error_text(a),
        SensorError::InvalidData => "Invalid data"@,
        SensorError::UnsupportedChip => "Unsupported chip"@,
        SensorError::Unknown => "Unknown error"@,
        SensorError::IdMismatch(id) => "ID mismatch: "@ + decimal_text(id as nat),
        SensorError::SignalOverflow => "Signal overflow"@,
        SensorError::InfraredOverflow => "Infrared overflow"@,
        SensorError::TotalOverflow => "Total overflow"@,
    }
}

impl AbortReason {
    /// Text of the abort reason, as the firmware's log shows it.
    pub fn text(&self) -> (t: String)
        ensures
            t@ == abort_reason_text(*self),
    {
        match self {
            AbortReason::NoAcknowledge => String::from_str("NoAcknowledge"),
            AbortReason::ArbitrationLoss => String::from_str("ArbitrationLoss"),
            AbortReason::TxNotEmpty(n) => bracketed("TxNotEmpty(", decimal(*n as u64)),
            AbortReason::Other(n) => bracketed("Other(", decimal(*n as u64)),
        }
    }
}

impl I2cError {
    /// Text of the bus error, as the firmware's log shows it.
    pub fn text(&self) -> (t: String)
        ensures
            t@ == i2c_error_text(*self),
    {
        match self {
            I2cError::Abort(r) => bracketed("Abort(", r.text()),
            I2cError::InvalidReadBufferLength => String::from_str("InvalidReadBufferLength"),
            I2cError::InvalidWriteBufferLength => String::from_str("InvalidWriteBufferLength"),
            I2cError::AddressOutOfRange(a) => bracketed("AddressOutOfRange(", decimal(*a as u64)),
            I2cError::AddressReserved(a) => bracketed("AddressReserved(", decimal(*a as u64)),
        }
    }
}

impl AdcError {
    /// Text of the ADC error, as the firmware's log shows it.
    pub fn text(&self) -> (t: String)
        ensures
            t@ == adc_error_text(*self),
    {
        match self {
            AdcError::ConversionFailed => String::from_str("ConversionFailed"),
        }
    }
}

impl SensorError {
    /// Text of the sensor error, as the firmware logs it.
    pub fn text(&self) -> (t: String)
        ensures
            t@ == sensor_error_text(*self),
    {
        match self {
            SensorError::I2c(i) => String::from_str("I2C error: ").concat(i.text().as_str()),
            SensorError::Adc(a) => String::from_str("ADC error: ").concat(a.text().as_str()),
            SensorError::InvalidData => String::from_str("Invalid data"),
            SensorError::UnsupportedChip => String::from_str("Unsupported chip"),
            SensorError::Unknown => String::from_str("Unknown error"),
            SensorError::IdMismatch(id) => String::from_str("ID mismatch: ").concat(
                decimal(*id as u64).as_str(),
            ),
            SensorError::SignalOverflow => String::from_str("Signal overflow"),
            SensorError::InfraredOverflow => String::from_str("Infrared overflow"),
            SensorError::TotalOverflow => String::from_str("Total overflow"),
        }
    }
}

} // verus!
