use vstd::prelude::*;
use crate::costs::Decimal;

verus! {

/// Unit of measure for a quantity.
#[derive(Clone, Copy, Debug, PartialEq, Eq, Structural)]
pub enum Unit {
    /// A dimensionless count.
    One,
    Hour,
    Kilogram,
    Meter,
    Litre,
}

/// A measured quantity: an exact decimal value with its unit.
#[derive(Clone, Copy, Debug, PartialEq, Eq, Structural)]
pub struct Measure {
    pub value: Decimal,
    pub unit: Unit,
}

impl Measure {
    pub fn new(value: Decimal, unit: Unit) -> (r: Measure)
        ensures
            r.value == value,
            r.unit == unit,
    {
        Measure { value, unit }
    }
}

} // verus!
