use vstd::prelude::*;
use vstd::string::*;
use crate::error::EtError;

verus! {

/// What a measurement measures.
#[derive(PartialEq, Eq, Structural, Clone, Copy, Debug)]
pub enum Quantity {
    Temperature,
    Pressure,
    RelativeHumidity,
    Radiation,
    Speed,
    Length,
    Angle,
}

/// The units that measurements may be given in.
#[derive(PartialEq, Eq, Structural, Clone, Copy, Debug)]
pub enum Units {
    Celsius,
    Fahrenheit,
    Pascals,
    KiloPascals,
    Percent,
    Langleys,
    WattsPerSquareMeter,
    MegaJoules,
    MetersPerSecond,
    MilesPerHour,
    Feet,
    Meters,
    Degrees,
    Radians,
}

/// A character with ASCII capitals taken to small letters, as a code point.
pub open spec fn folded(c: char) -> u32 {
    if 'A' <= c && c <= 'Z' {
        (c as u32 + 32) as u32
    } else {
        c as u32
    }
}

/// Whether two texts are equal when ASCII case is ignored.
pub open spec fn same_ignoring_case(a: Seq<char>, b: Seq<char>) -> bool {
    a.len() == b.len() && forall|i: int| 0 <= i < a.len() ==> folded(a[i]) == folded(b[i])
}

/// Whether `s` is one of the two spellings `x` and `y`, ignoring ASCII case.
pub open spec fn spelled(s: Seq<char>, x: Seq<char>, y: Seq<char>) -> bool {
    same_ignoring_case(s, x) || same_ignoring_case(s, y)
}

/// The unit that a label names, in this order of recognition.
pub open spec fn units_of_label(s: Seq<char>) -> Option<Units> {
    if spelled(s, "c"@, "celsius"@) {
        Some(Units::Celsius)
    } else if spelled(s, "f"@, "fahrenheit"@) {
        Some(Units::Fahrenheit)
    } else if spelled(s, "pa"@, "pascals"@) {
        Some(Units::Pascals)
    } else if spelled(s, "kpa"@, "kilopascals"@) {
        Some(Units::KiloPascals)
    } else if spelled(s, "%"@, "percent"@) {
        Some(Units::Percent)
    } else if spelled(s, "ly"@, "langleys"@) {
        Some(Units::Langleys)
    } else if spelled(s, "w/m2"@, "watts"@) {
        Some(Units::WattsPerSquareMeter)
    } else if spelled(s, "mj"@, "megajoules"@) {
        Some(Units::MegaJoules)
    } else if spelled(s, "m/s"@, "mps"@) {
        Some(Units::MetersPerSecond)
    } else if same_ignoring_case(s, "mph"@) {
        Some(Units::MilesPerHour)
    } else if spelled(s, "ft"@, "feet"@) {
        Some(Units::Feet)
    } else if spelled(s, "m"@, "meters"@) {
        Some(Units::Meters)
    } else if spelled(s, "deg"@, "degrees"@) {
        Some(Units::Degrees)
    } else if spelled(s, "rad"@, "radians"@) {
        Some(Units::Radians)
    } else {
        None
    }
}

fn fold_char(c: char) -> (r: u32)
    ensures
        r == folded(c),
{
    if 'A' <= c && c <= 'Z' {
        c as u32 + 32
    } else {
        c as u32
    }
}

/// Whether `a` and `b` are equal when ASCII case is ignored.
pub fn eq_ignoring_case(a: &str, b: &str) -> (r: bool)
    ensures
        r == same_ignoring_case(a@, b@),
{
    let n = a.unicode_len();
    if n != b.unicode_len() {
        return false;
    }
    let mut i: usize = 0;
    while i < n
        invariant
            n as int == a@.len(),
            n as int == b@.len(),
            i <= n,
            forall|j: int| 0 <= j < i ==> folded(a@[j]) == folded(b@[j]),
        decreases n - i,
    {
        if fold_char(a.get_char(i)) != fold_char(b.get_char(i)) {
            return false;
        }
        i += 1;
    }
    true
}

fn is_spelled(s: &str, x: &str, y: &str) -> (r: bool)
    ensures
        r == spelled(s@, x@, y@),
{
    eq_ignoring_case(s, x) || eq_ignoring_case(s, y)
}

/// What a unit measures.
pub open spec fn quantity_of(u: Units) -> Quantity {
    match u {
        Units::Celsius | Units::Fahrenheit => Quantity::Temperature,
        Units::Pascals | Units::KiloPascals => Quantity::Pressure,
        Units::Percent => Quantity::RelativeHumidity,
        Units::Langleys | Units::WattsPerSquareMeter | Units::MegaJoules => Quantity::Radiation,
        Units::MetersPerSecond | Units::MilesPerHour => Quantity::Speed,
        Units::Feet | Units::Meters => Quantity::Length,
        Units::Degrees | Units::Radians => Quantity::Angle,
    }
}

impl Units {
    /// The unit named by `label`, ignoring ASCII case (`"kPa"`, `"pa"`,
    /// `"C"`, `"percent"`, ...), or `InvalidInput` for a label it does not know.
    pub fn from_abbreviation(label: &str) -> (r: Result<Units, EtError>)
        ensures
            match units_of_label(label@) {
                Some(u) => r == Ok::<Units, EtError>(u),
                None => r == Err::<Units, EtError>(EtError::InvalidInput),
            },
    {
        if is_spelled(label, "c", "celsius") {
            Ok(Units::Celsius)
        } else if is_spelled(label, "f", "fahrenheit") {
            Ok(Units::Fahrenheit)
        } else if is_spelled(label, "pa", "pascals") {
            Ok(Units::Pascals)
        } else if is_spelled(label, "kpa", "kilopascals") {
            Ok(Units::KiloPascals)
        } else if is_spelled(label, "%", "percent") {
            Ok(Units::Percent)
        } else if is_spelled(label, "ly", "langleys") {
            Ok(Units::Langleys)
        } else if is_spelled(label, "w/m2", "watts") {
            Ok(Units::WattsPerSquareMeter)
        } else if is_spelled(label, "mj", "megajoules") {
            Ok(Units::MegaJoules)
        } else if is_spelled(label, "m/s", "mps") {
            Ok(Units::MetersPerSecond)
        } else if eq_ignoring_case(label, "mph") {
            Ok(Units::MilesPerHour)
        } else if is_spelled(label, "ft", "feet") {
            Ok(Units::Feet)
        } else if is_spelled(label, "m", "meters") {
            Ok(Units::Meters)
        } else if is_spelled(label, "deg", "degrees") {
            Ok(Units::Degrees)
        } else if is_spelled(label, "rad", "radians") {
            Ok(Units::Radians)
        } else {
            Err(EtError::InvalidInput)
        }
    }

    /// What this unit measures.
    pub fn quantity(&self) -> (r: Quantity)
        ensures
            r == quantity_of(*self),
    {
        match self {
            Units::Celsius | Units::Fahrenheit => Quantity::Temperature,
            Units::Pascals | Units::KiloPascals => Quantity::Pressure,
            Units::Percent => Quantity::RelativeHumidity,
            Units::Langleys | Units::WattsPerSquareMeter | Units::MegaJoules => Quantity::Radiation,
            Units::MetersPerSecond | Units::MilesPerHour => Quantity::Speed,
            Units::Feet | Units::Meters => Quantity::Length,
            Units::Degrees | Units::Radians => Quantity::Angle,
        }
    }

    /// The unit named by `label` when it measures `expected`; `InvalidInput`
    /// for an unknown label or a unit of another quantity.
    pub fn for_quantity(label: &str, expected: Quantity) -> (r: Result<Units, EtError>)
        ensures
            match units_of_label(label@) {
                Some(u) => if quantity_of(u) == expected {
                    r == Ok::<Units, EtError>(u)
                } else {
                    r == Err::<Units, EtError>(EtError::InvalidInput)
                },
                None => r == Err::<Units, EtError>(EtError::InvalidInput),
            },
    {
        match Units::from_abbreviation(label) {
            Ok(u) => if u.quantity() == expected {
                Ok(u)
            } else {
                Err(EtError::InvalidInput)
            },
            Err(e) => Err(e),
        }
    }
}

} // verus!
