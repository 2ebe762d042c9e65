//! Stage identifiers.
use vstd::prelude::*;

verus! {

/// Unique identifier for a stream stage.
#[derive(Debug, Clone, Copy, PartialEq, Eq, Hash, Structural)]
pub struct StageId {
    id: u64,
}

impl StageId {
    /// The raw value of this identifier.
    pub closed spec fn spec_value(self) -> u64 {
        self.id
    }

    /// Creates a new stage identifier from a raw value.
    pub fn new(value: u64) -> (r: Self)
        ensures r.spec_value() == value,
    {
        StageId { id: value }
    }

    /// Returns the raw identifier value.
    pub fn value(self) -> (r: u64)
        ensures r == self.spec_value(),
    {
        self.id
    }
}

} // verus!
