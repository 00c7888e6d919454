use vstd::prelude::*;
use crate::calendar::{day_of_year, ordinal_of};
use crate::ea_input::{assembled, observed_fields, observed_method, EaInput};
use crate::error::EtError;
use crate::observation::WeatherObservation;

verus! {

/// Where the incoming solar radiation of a day comes from.
#[derive(Clone, Copy, Debug)]
pub enum SolarRadiation<V> {
    /// Measured by a pyranometer; used as it is.
    Measured { rs: V },
    /// Not measured: estimated by Hargreaves-Samani from the temperature
    /// range and bounded by the clear-sky radiation.
    Estimated,
}

/// Everything a day's reference evapotranspiration needs besides the
/// measurements that every observation has: the strategy for `ea` with its
/// data, the day of the year, the source of solar radiation and the wind.
#[derive(Clone, Copy, Debug)]
pub struct DailyInputs<V> {
    pub ea_input: EaInput<V>,
    pub doy: u32,
    pub solar: SolarRadiation<V>,
    pub ws: V,
    /// Height of the wind measurement; the reference height of 2 m when absent.
    pub wz: Option<V>,
}

/// The source of solar radiation for an observation.
pub open spec fn solar_source<V>(obs: WeatherObservation<V>) -> SolarRadiation<V> {
    match obs.rs {
        Some(rs) => SolarRadiation::Measured { rs },
        None => SolarRadiation::Estimated,
    }
}

/// Resolves, in the fixed order of the computation, what an observation
/// offers for one day's reference evapotranspiration: the strategy for `ea`
/// by priority, the day of the year of its date, measured or estimated solar
/// radiation, and the wind. A day without wind speed gives
/// `MissingRequiredField`.
pub fn prepare_daily_inputs<V: Copy>(obs: &WeatherObservation<V>) -> (r: Result<DailyInputs<V>, EtError>)
    ensures
        r is Ok <==> obs.ws is Some,
        r matches Err(e) ==> e == EtError::MissingRequiredField,
        r matches Ok(d) ==> {
            &&& d.ea_input == assembled(observed_method(*obs), observed_fields(*obs))
            &&& d.doy as int == ordinal_of(obs.date@.0, obs.date@.1, obs.date@.2)
            &&& d.solar == solar_source(*obs)
            &&& Some(d.ws) == obs.ws
            &&& d.wz == obs.wz
        },
{
    let ws = match obs.ws {
        Some(ws) => ws,
        None => return Err(EtError::MissingRequiredField),
    };
    let ea_input = EaInput::new_from_output(obs);
    let doy = match day_of_year(&obs.date) {
        Ok(n) => n,
        Err(_) => return Err(EtError::InvalidInput),
    };
    let solar = match obs.rs {
        Some(rs) => SolarRadiation::Measured { rs },
        None => SolarRadiation::Estimated,
    };
    Ok(DailyInputs { ea_input, doy, solar, ws, wz: obs.wz })
}

} // verus!
