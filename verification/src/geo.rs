use vstd::prelude::*;

verus! {

/// A mappable place an action happens at.
///
/// The mutation layer only carries locations through; it never computes with
/// them, so a name and an address are all it records.
#[derive(Clone, Debug, PartialEq, Eq)]
pub struct Location {
    pub name: Option<String>,
    pub mappable_address: Option<String>,
}

impl Location {
    pub fn new(name: Option<String>, mappable_address: Option<String>) -> (r: Location)
        ensures
            r.name == name,
            r.mappable_address == mappable_address,
    {
        Location { name, mappable_address }
    }
}

} // verus!
