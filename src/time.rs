//! Instants as the metadata store records them.

use vstd::prelude::*;

verus! {

/// An instant in UTC, counted in microseconds since 1970-01-01T00:00:00Z.
///
/// Timestamps that the store keeps without a time zone are read as UTC.
#[derive(Clone, Copy, Debug, PartialEq, Eq, Structural, Hash)]
pub struct Timestamp {
    pub micros: i64,
}

impl Timestamp {
    /// The instant `micros` microseconds after the Unix epoch.
    pub fn from_micros(micros: i64) -> (t: Timestamp)
        ensures
            t.micros == micros,
    {
        Timestamp { micros }
    }
}

} // verus!
