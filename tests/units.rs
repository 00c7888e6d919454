use refet::{EtError, Quantity, Units};

#[test]
fn labels_are_read_without_regard_to_case() {
    assert_eq!(Units::from_abbreviation("kPa"), Ok(Units::KiloPascals));
    assert_eq!(Units::from_abbreviation("kpa"), Ok(Units::KiloPascals));
    assert_eq!(Units::from_abbreviation("pa"), Ok(Units::Pascals));
    assert_eq!(Units::from_abbreviation("C"), Ok(Units::Celsius));
    assert_eq!(Units::from_abbreviation("c"), Ok(Units::Celsius));
    assert_eq!(Units::from_abbreviation("f"), Ok(Units::Fahrenheit));
    assert_eq!(Units::from_abbreviation("Fahrenheit"), Ok(Units::Fahrenheit));
    assert_eq!(Units::from_abbreviation("%"), Ok(Units::Percent));
    assert_eq!(Units::from_abbreviation("percent"), Ok(Units::Percent));
    assert_eq!(Units::from_abbreviation("MPH"), Ok(Units::MilesPerHour));
    assert_eq!(Units::from_abbreviation("m/s"), Ok(Units::MetersPerSecond));
    assert_eq!(Units::from_abbreviation("ft"), Ok(Units::Feet));
    assert_eq!(Units::from_abbreviation("m"), Ok(Units::Meters));
    assert_eq!(Units::from_abbreviation("ly"), Ok(Units::Langleys));
    assert_eq!(Units::from_abbreviation("MJ"), Ok(Units::MegaJoules));
    assert_eq!(Units::from_abbreviation("Degrees"), Ok(Units::Degrees));
}

#[test]
fn unknown_labels_are_invalid_input() {
    assert_eq!(Units::from_abbreviation(""), Err(EtError::InvalidInput));
    assert_eq!(Units::from_abbreviation("kelvin"), Err(EtError::InvalidInput));
    assert_eq!(Units::from_abbreviation("kpaa"), Err(EtError::InvalidInput));
    assert_eq!(Units::from_abbreviation(" c"), Err(EtError::InvalidInput));
}

#[test]
fn units_know_their_quantity() {
    assert_eq!(Units::Pascals.quantity(), Quantity::Pressure);
    assert_eq!(Units::Fahrenheit.quantity(), Quantity::Temperature);
    assert_eq!(Units::Percent.quantity(), Quantity::RelativeHumidity);
    assert_eq!(Units::WattsPerSquareMeter.quantity(), Quantity::Radiation);
    assert_eq!(Units::MilesPerHour.quantity(), Quantity::Speed);
    assert_eq!(Units::Feet.quantity(), Quantity::Length);
    assert_eq!(Units::Radians.quantity(), Quantity::Angle);
}

#[test]
fn a_unit_of_another_quantity_is_refused() {
    assert_eq!(Units::for_quantity("pa", Quantity::Pressure), Ok(Units::Pascals));
    assert_eq!(Units::for_quantity("F", Quantity::Temperature), Ok(Units::Fahrenheit));
    assert_eq!(Units::for_quantity("pa", Quantity::Temperature), Err(EtError::InvalidInput));
    assert_eq!(Units::for_quantity("c", Quantity::Pressure), Err(EtError::InvalidInput));
    assert_eq!(Units::for_quantity("bogus", Quantity::Pressure), Err(EtError::InvalidInput));
}
