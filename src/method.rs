use vstd::prelude::*;

verus! {

/// The strategies for obtaining the actual vapor pressure `ea`, from the one
/// that needs the most specific measurement to the fallback that needs none.
#[derive(PartialEq, Eq, Structural, Clone, Copy, Debug)]
pub enum Method {
    /// `ea` measured directly, in kPa.
    Direct,
    /// `ea` is the saturation vapor pressure at the dewpoint.
    DewPoint,
    /// Both daily relative humidity extremes, with both temperature extremes.
    MaxMinRelativeHumidity,
    /// Daily maximum relative humidity only, with the minimum temperature.
    DailyMaxRelativeHumidity,
    /// Daily minimum relative humidity only, with the maximum temperature.
    DailyMinRelativeHumidity,
    /// No humidity data: the dewpoint is taken as three degrees below `tmin`.
    DailyMinAirTemperature,
}

/// The strategy that the priority order picks, given which of the optional
/// humidity fields are present.
pub open spec fn preferred_method(has_ea: bool, has_dewpoint: bool, has_rhmax: bool, has_rhmin: bool) -> Method {
    if has_ea {
        Method::Direct
    } else if has_dewpoint {
        Method::DewPoint
    } else if has_rhmax && has_rhmin {
        Method::MaxMinRelativeHumidity
    } else if has_rhmax {
        Method::DailyMaxRelativeHumidity
    } else if has_rhmin {
        Method::DailyMinRelativeHumidity
    } else {
        Method::DailyMinAirTemperature
    }
}

/// Picks the strategy for `ea` from the fields that are present, in strict
/// priority order: direct measurement, dewpoint, both humidity extremes,
/// maximum humidity alone, minimum humidity alone, minimum temperature.
pub fn choose_method(has_ea: bool, has_dewpoint: bool, has_rhmax: bool, has_rhmin: bool) -> (r: Method)
    ensures
        r == preferred_method(has_ea, has_dewpoint, has_rhmax, has_rhmin),
{
    if has_ea {
        Method::Direct
    } else if has_dewpoint {
        Method::DewPoint
    } else if has_rhmax && has_rhmin {
        Method::MaxMinRelativeHumidity
    } else if has_rhmax {
        Method::DailyMaxRelativeHumidity
    } else if has_rhmin {
        Method::DailyMinRelativeHumidity
    } else {
        Method::DailyMinAirTemperature
    }
}

} // verus!
