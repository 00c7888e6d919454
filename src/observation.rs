use vstd::prelude::*;
use crate::calendar::CalendarDate;

verus! {

/// One day's weather record at one station, in the units the formulas use:
/// temperatures in degrees Celsius, vapor pressure in kPa, relative humidity
/// as given (a fraction or a percentage), solar radiation in MJ m^-2 day^-1,
/// wind speed in m/s, heights in meters and latitude in radians.
///
/// `V` is the type of one measurement.
#[derive(Clone, Copy, Debug)]
pub struct WeatherObservation<V> {
    /// Daily maximum air temperature.
    pub tmax: V,
    /// Daily minimum air temperature.
    pub tmin: V,
    /// Measured dewpoint temperature, if any.
    pub dewpoint: Option<V>,
    /// Daily maximum relative humidity, if measured.
    pub rhmax: Option<V>,
    /// Daily minimum relative humidity, if measured.
    pub rhmin: Option<V>,
    /// Measured actual vapor pressure, if any.
    pub ea: Option<V>,
    /// Measured incoming solar radiation, if any.
    pub rs: Option<V>,
    /// Wind speed, if measured.
    pub ws: Option<V>,
    /// Height of the wind measurement; the reference height when absent.
    pub wz: Option<V>,
    /// Station elevation.
    pub z: V,
    /// Station latitude.
    pub latitude: V,
    /// Day of the record.
    pub date: CalendarDate,
}

impl<V: Copy> WeatherObservation<V> {
    /// Gathers one day's record.
    pub fn new_with_values(
        tmax: V,
        tmin: V,
        dewpoint: Option<V>,
        rhmax: Option<V>,
        rhmin: Option<V>,
        ea: Option<V>,
        rs: Option<V>,
        ws: Option<V>,
        wz: Option<V>,
        z: V,
        latitude: V,
        date: CalendarDate,
    ) -> (r: WeatherObservation<V>)
        ensures
            r == (WeatherObservation { tmax, tmin, dewpoint, rhmax, rhmin, ea, rs, ws, wz, z, latitude, date }),
    {
        WeatherObservation { tmax, tmin, dewpoint, rhmax, rhmin, ea, rs, ws, wz, z, latitude, date }
    }
}

} // verus!
