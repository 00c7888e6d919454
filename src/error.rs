use vstd::prelude::*;

verus! {

/// Why one evaluation of reference evapotranspiration could not go on.
#[derive(PartialEq, Eq, Structural, Clone, Copy, Debug)]
pub enum EtError {
    /// A strategy or a computation was asked for without a field it needs.
    MissingRequiredField,
    /// The caller handed in a value that the inputs do not allow
    /// (an unknown unit label, an impossible date, `tmin > tmax`, ...).
    InvalidInput,
    /// A formula was asked for outside its mathematical domain
    /// (a logarithm or a square root of a negative number).
    DomainMath,
}

} // verus!
