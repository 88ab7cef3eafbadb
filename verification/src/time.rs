use vstd::prelude::*;

verus! {

/// A point in time, in milliseconds from an epoch.
///
/// The core never reads a clock: "now" is always caller-supplied and injected
/// into each operation, so behavior is a deterministic function of the
/// inputs.
#[derive(Clone, Copy, Debug, PartialEq, Eq, Structural)]
pub struct Timestamp {
    pub epoch_ms: i64,
}

impl Timestamp {
    pub fn new(epoch_ms: i64) -> (t: Timestamp)
        ensures
            t.epoch_ms == epoch_ms,
    {
        Timestamp { epoch_ms }
    }
}

} // verus!
