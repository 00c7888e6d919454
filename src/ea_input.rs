use vstd::prelude::*;
use crate::error::EtError;
use crate::method::{choose_method, preferred_method, Method};
use crate::observation::WeatherObservation;

verus! {

/// The data from which the actual vapor pressure `ea` is obtained: one
/// variant per strategy, each holding exactly the measurements its formula
/// reads.
#[derive(Clone, Copy, Debug)]
pub enum EaInput<V> {
    /// `ea` itself, in kPa.
    Direct { ea: V },
    /// The dewpoint temperature.
    DewPoint { tdew: V },
    /// Both humidity extremes and both temperature extremes.
    MaxMinRelativeHumidity { rhmax: V, rhmin: V, tmax: V, tmin: V },
    /// The maximum relative humidity and the minimum temperature.
    DailyMaxRelativeHumidity { rhmax: V, tmin: V },
    /// The minimum relative humidity and the maximum temperature.
    DailyMinRelativeHumidity { rhmin: V, tmax: V },
    /// The minimum temperature alone.
    DailyMinAirTemperature { tmin: V },
}

/// Measurements that may or may not be at hand when a strategy is chosen.
#[derive(Clone, Copy, Debug)]
pub struct EaFields<V> {
    pub ea: Option<V>,
    pub dewpoint: Option<V>,
    pub rhmax: Option<V>,
    pub rhmin: Option<V>,
    pub tmax: Option<V>,
    pub tmin: Option<V>,
}

/// Whether `f` holds every measurement that `method` reads.
pub open spec fn has_required_fields<V>(method: Method, f: EaFields<V>) -> bool {
    match method {
        Method::Direct => f.ea is Some,
        Method::DewPoint => f.dewpoint is Some,
        Method::MaxMinRelativeHumidity => f.rhmax is Some && f.rhmin is Some && f.tmax is Some
            && f.tmin is Some,
        Method::DailyMaxRelativeHumidity => f.rhmax is Some && f.tmin is Some,
        Method::DailyMinRelativeHumidity => f.rhmin is Some && f.tmax is Some,
        Method::DailyMinAirTemperature => f.tmin is Some,
    }
}

/// The input of strategy `method`, built from the measurements in `f` that it
/// reads (meaningful where `has_required_fields(method, f)`).
pub open spec fn assembled<V>(method: Method, f: EaFields<V>) -> EaInput<V> {
    match method {
        Method::Direct => EaInput::Direct { ea: f.ea.unwrap() },
        Method::DewPoint => EaInput::DewPoint { tdew: f.dewpoint.unwrap() },
        Method::MaxMinRelativeHumidity => EaInput::MaxMinRelativeHumidity {
            rhmax: f.rhmax.unwrap(),
            rhmin: f.rhmin.unwrap(),
            tmax: f.tmax.unwrap(),
            tmin: f.tmin.unwrap(),
        },
        Method::DailyMaxRelativeHumidity => EaInput::DailyMaxRelativeHumidity {
            rhmax: f.rhmax.unwrap(),
            tmin: f.tmin.unwrap(),
        },
        Method::DailyMinRelativeHumidity => EaInput::DailyMinRelativeHumidity {
            rhmin: f.rhmin.unwrap(),
            tmax: f.tmax.unwrap(),
        },
        Method::DailyMinAirTemperature => EaInput::DailyMinAirTemperature { tmin: f.tmin.unwrap() },
    }
}

/// The measurements of an observation that the strategies for `ea` read.
pub open spec fn observed_fields<V>(obs: WeatherObservation<V>) -> EaFields<V> {
    EaFields {
        ea: obs.ea,
        dewpoint: obs.dewpoint,
        rhmax: obs.rhmax,
        rhmin: obs.rhmin,
        tmax: Some(obs.tmax),
        tmin: Some(obs.tmin),
    }
}

/// The strategy that the priority order picks for an observation.
pub open spec fn observed_method<V>(obs: WeatherObservation<V>) -> Method {
    preferred_method(obs.ea is Some, obs.dewpoint is Some, obs.rhmax is Some, obs.rhmin is Some)
}

impl<V> EaInput<V> {
    /// The strategy that this input is for.
    pub open spec fn spec_method(&self) -> Method {
        match self {
            EaInput::Direct { .. } => Method::Direct,
            EaInput::DewPoint { .. } => Method::DewPoint,
            EaInput::MaxMinRelativeHumidity { .. } => Method::MaxMinRelativeHumidity,
            EaInput::DailyMaxRelativeHumidity { .. } => Method::DailyMaxRelativeHumidity,
            EaInput::DailyMinRelativeHumidity { .. } => Method::DailyMinRelativeHumidity,
            EaInput::DailyMinAirTemperature { .. } => Method::DailyMinAirTemperature,
        }
    }
}

impl<V: Copy> EaInput<V> {
    /// The strategy that this input is for.
    pub fn method(&self) -> (r: Method)
        ensures
            r == self.spec_method(),
    {
        match self {
            EaInput::Direct { .. } => Method::Direct,
            EaInput::DewPoint { .. } => Method::DewPoint,
            EaInput::MaxMinRelativeHumidity { .. } => Method::MaxMinRelativeHumidity,
            EaInput::DailyMaxRelativeHumidity { .. } => Method::DailyMaxRelativeHumidity,
            EaInput::DailyMinRelativeHumidity { .. } => Method::DailyMinRelativeHumidity,
            EaInput::DailyMinAirTemperature { .. } => Method::DailyMinAirTemperature,
        }
    }

    /// A directly measured actual vapor pressure, in kPa.
    pub fn new_direct(ea: V) -> (r: EaInput<V>)
        ensures
            r == (EaInput::Direct { ea }),
    {
        EaInput::Direct { ea }
    }

    /// A measured or estimated dewpoint, in degrees Celsius.
    pub fn new_dewpoint(tdew: V) -> (r: EaInput<V>)
        ensures
            r == (EaInput::DewPoint { tdew }),
    {
        EaInput::DewPoint { tdew }
    }

    /// Both relative humidity extremes with both temperature extremes.
    pub fn new_rhmax_min(rhmax: V, rhmin: V, tmax: V, tmin: V) -> (r: EaInput<V>)
        ensures
            r == (EaInput::MaxMinRelativeHumidity { rhmax, rhmin, tmax, tmin }),
    {
        EaInput::MaxMinRelativeHumidity { rhmax, rhmin, tmax, tmin }
    }

    /// The maximum relative humidity with the minimum temperature.
    pub fn new_rhmax(rhmax: V, tmin: V) -> (r: EaInput<V>)
        ensures
            r == (EaInput::DailyMaxRelativeHumidity { rhmax, tmin }),
    {
        EaInput::DailyMaxRelativeHumidity { rhmax, tmin }
    }

    /// The minimum relative humidity with the maximum temperature.
    pub fn new_rhmin(rhmin: V, tmax: V) -> (r: EaInput<V>)
        ensures
            r == (EaInput::DailyMinRelativeHumidity { rhmin, tmax }),
    {
        EaInput::DailyMinRelativeHumidity { rhmin, tmax }
    }

    /// The minimum temperature alone, for a station without humidity data.
    pub fn new_tmin(tmin: V) -> (r: EaInput<V>)
        ensures
            r == (EaInput::DailyMinAirTemperature { tmin }),
    {
        EaInput::DailyMinAirTemperature { tmin }
    }

    /// The input of strategy `method` from the measurements at hand, or
    /// `MissingRequiredField` when one that `method` reads is absent.
    pub fn from_fields(method: Method, f: &EaFields<V>) -> (r: Result<EaInput<V>, EtError>)
        ensures
            r is Ok <==> has_required_fields(method, *f),
            r matches Ok(e) ==> e == assembled(method, *f) && e.spec_method() == method,
            r matches Err(e) ==> e == EtError::MissingRequiredField,
    {
        match method {
            Method::Direct => match f.ea {
                Some(ea) => Ok(EaInput::Direct { ea }),
                None => Err(EtError::MissingRequiredField),
            },
            Method::DewPoint => match f.dewpoint {
                Some(tdew) => Ok(EaInput::DewPoint { tdew }),
                None => Err(EtError::MissingRequiredField),
            },
            Method::MaxMinRelativeHumidity => match (f.rhmax, f.rhmin, f.tmax, f.tmin) {
                (Some(rhmax), Some(rhmin), Some(tmax), Some(tmin)) => Ok(
                    EaInput::MaxMinRelativeHumidity { rhmax, rhmin, tmax, tmin },
                ),
                _ => Err(EtError::MissingRequiredField),
            },
            Method::DailyMaxRelativeHumidity => match (f.rhmax, f.tmin) {
                (Some(rhmax), Some(tmin)) => Ok(EaInput::DailyMaxRelativeHumidity { rhmax, tmin }),
                _ => Err(EtError::MissingRequiredField),
            },
            Method::DailyMinRelativeHumidity => match (f.rhmin, f.tmax) {
                (Some(rhmin), Some(tmax)) => Ok(EaInput::DailyMinRelativeHumidity { rhmin, tmax }),
                _ => Err(EtError::MissingRequiredField),
            },
            Method::DailyMinAirTemperature => match f.tmin {
                Some(tmin) => Ok(EaInput::DailyMinAirTemperature { tmin }),
                None => Err(EtError::MissingRequiredField),
            },
        }
    }

    /// The input of the strategy that the priority order picks for `obs`:
    /// direct `ea`, then dewpoint, then both humidity extremes, then the
    /// maximum alone, then the minimum alone, then the minimum temperature.
    pub fn new_from_output(obs: &WeatherObservation<V>) -> (r: EaInput<V>)
        ensures
            r.spec_method() == observed_method(*obs),
            r == assembled(observed_method(*obs), observed_fields(*obs)),
    {
        let method = choose_method(obs.ea.is_some(), obs.dewpoint.is_some(), obs.rhmax.is_some(), obs.rhmin.is_some());
        match method {
            Method::Direct => EaInput::Direct { ea: obs.ea.unwrap() },
            Method::DewPoint => EaInput::DewPoint { tdew: obs.dewpoint.unwrap() },
            Method::MaxMinRelativeHumidity => EaInput::MaxMinRelativeHumidity {
                rhmax: obs.rhmax.unwrap(),
                rhmin: obs.rhmin.unwrap(),
                tmax: obs.tmax,
                tmin: obs.tmin,
            },
            Method::DailyMaxRelativeHumidity => EaInput::DailyMaxRelativeHumidity {
                rhmax: obs.rhmax.unwrap(),
                tmin: obs.tmin,
            },
            Method::DailyMinRelativeHumidity => EaInput::DailyMinRelativeHumidity {
                rhmin: obs.rhmin.unwrap(),
                tmax: obs.tmax,
            },
            Method::DailyMinAirTemperature => EaInput::DailyMinAirTemperature { tmin: obs.tmin },
        }
    }
}

/// The strategy that the priority order picks for an observation always finds
/// every measurement it reads, so the choice never fails and never falls back
/// to a strategy whose data are missing.
pub proof fn lemma_observed_method_is_complete<V>(obs: WeatherObservation<V>)
    ensures
        has_required_fields(observed_method(obs), observed_fields(obs)),
{
}

} // verus!
