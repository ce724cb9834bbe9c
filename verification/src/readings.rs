//! Assembling one round of readings from the station's sensors.

use vstd::prelude::*;

use crate::errors;
use crate::errors::{
    AdcError, I2cError, Lis2mdlError, Mpl3115a2Error, SensorError,
    Sht4xError, Tsl2591Error,
};
use crate::payloads::{
    CpuTempData, Ens160Data, Lis2mdlData, Mpl3115a2Data, NoiseData, SensorData, Sht4xData,
    Tsl2591Data, UvData,
};

verus! {

/// The outcome of a round: every reading when all sensors answered, else the
/// first failure in the fixed order air quality, pressure, temperature,
/// light, magnetic field, UV, noise, CPU temperature.
pub open spec fn round_outcome(
    air_quality: Result<Ens160Data, I2cError>,
    pressure: Result<Mpl3115a2Data, Mpl3115a2Error>,
    temperature: Result<Sht4xData, Sht4xError>,
    light: Result<Tsl2591Data, Tsl2591Error>,
    magnetic: Result<Lis2mdlData, Lis2mdlError>,
    uv: Result<UvData, AdcError>,
    noise: Result<NoiseData, AdcError>,
    cpu_temp: Result<CpuTempData, AdcError>,
) -> Result<SensorData, SensorError> {
    match (air_quality, pressure, temperature, light) {
        (Err(e), _, _, _) => Err(SensorError::I2c(e)),
        (Ok(_), Err(e), _, _) => Err(errors::sensor_error_of_mpl3115a2(e)),
        (Ok(_), Ok(_), Err(e), _) => Err(errors::sensor_error_of_sht4x(e)),
        (Ok(_), Ok(_), Ok(_), Err(e)) => Err(errors::sensor_error_of_tsl2591(e)),
        (Ok(a), Ok(p), Ok(t), Ok(l)) => match (magnetic, uv, noise, cpu_temp) {
            (Err(e), _, _, _) => Err(errors::sensor_error_of_lis2mdl(e)),
            (Ok(_), Err(e), _, _) => Err(SensorError::Adc(e)),
            (Ok(_), Ok(_), Err(e), _) => Err(SensorError::Adc(e)),
            (Ok(_), Ok(_), Ok(_), Err(e)) => Err(SensorError::Adc(e)),
            (Ok(m), Ok(u), Ok(n), Ok(c)) => Ok(
                SensorData {
                    air_quality: a,
                    pressure: p,
                    temperature: t,
                    light: l,
                    uv: u,
                    noise: n,
                    magnetic: m,
                    cpu_temp: c,
                },
            ),
        },
    }
}

/// Combines the readings of one round, which the sensors take concurrently,
/// into the station's payload or the first failure in the fixed order.
pub fn assemble_sensor_data(
    air_quality: Result<Ens160Data, I2cError>,
    pressure: Result<Mpl3115a2Data, Mpl3115a2Error>,
    temperature: Result<Sht4xData, Sht4xError>,
    light: Result<Tsl2591Data, Tsl2591Error>,
    magnetic: Result<Lis2mdlData, Lis2mdlError>,
    uv: Result<UvData, AdcError>,
    noise: Result<NoiseData, AdcError>,
    cpu_temp: Result<CpuTempData, AdcError>,
) -> (res: Result<SensorData, SensorError>)
    ensures
        res == round_outcome(
            air_quality,
            pressure,
            temperature,
            light,
            magnetic,
            uv,
            noise,
            cpu_temp,
        ),
{
    let air_quality = match air_quality {
        Ok(v) => v,
        Err(e) => return Err(SensorError::from(e)),
    };
    let pressure = match pressure {
        Ok(v) => v,
        Err(e) => return Err(SensorError::from(e)),
    };
    let temperature = match temperature {
        Ok(v) => v,
        Err(e) => return Err(SensorError::from(e)),
    };
    let light = match light {
        Ok(v) => v,
        Err(e) => return Err(SensorError::from(e)),
    };
    let magnetic = match magnetic {
        Ok(v) => v,
        Err(e) => return Err(SensorError::from(e)),
    };
    let uv = match uv {
        Ok(v) => v,
        Err(e) => return Err(SensorError::from(e)),
    };
    let noise = match noise {
        Ok(v) => v,
        Err(e) => return Err(SensorError::from(e)),
    };
    let cpu_temp = match cpu_temp {
        Ok(v) => v,
        Err(e) => return Err(SensorError::from(e)),
    };
    Ok(SensorData { air_quality, pressure, temperature, light, magnetic, uv, noise, cpu_temp })
}


/// A round succeeds exactly when every sensor answered, and then carries the
/// readings unchanged.
pub proof fn lemma_round_succeeds_iff_all_answered(
    air_quality: Result<Ens160Data, I2cError>,
    pressure: Result<Mpl3115a2Data, Mpl3115a2Error>,
    temperature: Result<Sht4xData, Sht4xError>,
    light: Result<Tsl2591Data, Tsl2591Error>,
    magnetic: Result<Lis2mdlData, Lis2mdlError>,
    uv: Result<UvData, AdcError>,
    noise: Result<NoiseData, AdcError>,
    cpu_temp: Result<CpuTempData, AdcError>,
)
    ensures
        ({
            let r = round_outcome(
                air_quality,
                pressure,
                temperature,
                light,
                magnetic,
                uv,
                noise,
                cpu_temp,
            );
            &&& r is Ok <==> (air_quality is Ok && pressure is Ok && temperature is Ok && light is Ok
                && magnetic is Ok && uv is Ok && noise is Ok && cpu_temp is Ok)
            &&& r matches Ok(d) ==> (Ok::<Ens160Data, I2cError>(d.air_quality) == air_quality && Ok::<
                Mpl3115a2Data,
                Mpl3115a2Error,
            >(d.pressure) == pressure && Ok::<Sht4xData, Sht4xError>(d.temperature) == temperature
                && Ok::<Tsl2591Data, Tsl2591Error>(d.light) == light && Ok::<
                Lis2mdlData,
                Lis2mdlError,
            >(d.magnetic) == magnetic && Ok::<UvData, AdcError>(d.uv) == uv && Ok::<
                NoiseData,
                AdcError,
            >(d.noise) == noise && Ok::<CpuTempData, AdcError>(d.cpu_temp) == cpu_temp)
        }),
{
}

} // verus!
