//! Standardized reference evapotranspiration: the typed, decision-making core.
//!
//! The library chooses how the actual vapor pressure is obtained from what a
//! weather observation holds, checks that every strategy has the fields it
//! needs, recognises unit labels, and turns calendar dates into day-of-year
//! numbers. Measurements are carried as a type parameter, so the numeric
//! formulas are evaluated by the caller on the representation it prefers.

pub mod calendar;
pub mod ea_input;
pub mod error;
pub mod method;
pub mod observation;
pub mod reference_et;
pub mod units;

pub use calendar::{day_of_year, CalendarDate};
pub use ea_input::{EaFields, EaInput};
pub use error::EtError;
pub use method::Method;
pub use observation::WeatherObservation;
pub use reference_et::{prepare_daily_inputs, DailyInputs, SolarRadiation};
pub use units::{Quantity, Units};
