use vstd::prelude::*;

verus! {

/// Three-state update for an optional field of a record.
///
/// An update payload must distinguish "leave the field untouched" from
/// "explicitly clear it" from "replace it": collapsing the first two is the
/// classic nested-option ambiguity, so each state is its own variant.
#[derive(Clone, Debug, PartialEq, Eq)]
pub enum Patch<T> {
    /// Leave the field as it is.
    Keep,
    /// Clear the field to its empty value.
    Clear,
    /// Replace the field with a new value.
    Assign(T),
}

impl<T> Patch<T> {
    /// The value the field holds after applying this patch to `cur`.
    pub open spec fn applied_to(self, cur: Option<T>) -> Option<T> {
        match self {
            Patch::Keep => cur,
            Patch::Clear => None,
            Patch::Assign(v) => Some(v),
        }
    }

    /// Apply this patch to an optional field.
    pub fn apply(self, cur: Option<T>) -> (r: Option<T>)
        ensures
            r == self.applied_to(cur),
    {
        match self {
            Patch::Keep => cur,
            Patch::Clear => None,
            Patch::Assign(v) => Some(v),
        }
    }
}

/// Two-state update for a required field: `None` keeps the current value,
/// `Some` replaces it.
pub open spec fn keep_or<T>(update: Option<T>, cur: T) -> T {
    match update {
        Option::Some(v) => v,
        Option::None => cur,
    }
}

} // verus!
