//! A station on the line: a display name and the dwell/travel time, in
//! whole seconds, spent at it before the train advances past it. The last
//! station of a line carries `time_to_next == 0` as its terminal marker.

use vstd::prelude::*;

verus! {

/// One stop on the metro line.
#[derive(Debug, Clone)]
pub struct Station {
    /// Display name of the station.
    pub name: String,
    /// Seconds spent here before advancing to the next station.
    pub time_to_next: u32,
}

impl Station {
    /// The dwell time of this station in milliseconds.
    pub open spec fn duration_ms(self) -> int {
        self.time_to_next * 1000
    }

    /// Builds a station from a name and a dwell time in seconds.
    pub fn new(name: &str, time_to_next: u32) -> (s: Station)
        ensures
            s.name@ == name@,
            s.time_to_next == time_to_next,
    {
        Station { name: String::from_str(name), time_to_next }
    }
}

} // verus!
