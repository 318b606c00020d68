//! Timestamps as plain integers: microseconds since the Unix epoch, in UTC.

use vstd::prelude::*;

verus! {

/// A point in time, in microseconds since 1970-01-01T00:00:00Z.
#[derive(Clone, Copy, Debug, PartialEq, Eq, Hash)]
pub struct Timestamp {
    pub micros: i64,
}

impl Default for Timestamp {
    fn default() -> (r: Self)
        ensures
            r.micros == 0,
    {
        Timestamp { micros: 0 }
    }
}

impl Timestamp {
    /// The timestamp `micros` microseconds after the epoch.
    pub fn from_micros(micros: i64) -> (r: Timestamp)
        ensures
            r.micros == micros,
    {
        Timestamp { micros }
    }
}

} // verus!
