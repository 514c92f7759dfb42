//! Construction of the standard metro line: ten fixed station names, a
//! randomized dwell time of 5 to 8 seconds at each, and a terminal marker
//! of 0 seconds at the last.

use vstd::prelude::*;

use rand::Rng;

use crate::state::{AnimationState, Phase};
use crate::station::Station;

verus! {

/// Relies on rand::Rng::gen_range over rand::thread_rng: a uniform draw
/// from the inclusive range `lo..=hi`, which panics only when the range is
/// empty. Nothing beyond membership in the range holds of the draw.
#[verifier::external_body]
fn random_in_range(lo: u32, hi: u32) -> (r: u32)
    requires
        lo <= hi,
    ensures
        lo <= r <= hi,
{
    rand::thread_rng().gen_range(lo..=hi)
}

/// The names of the standard line, in order.
pub open spec fn standard_names() -> Seq<Seq<char>> {
    seq![
        "Central Station"@,
        "City Square"@,
        "Riverside"@,
        "University"@,
        "Tech Park"@,
        "Old Town"@,
        "Market Street"@,
        "Harbor"@,
        "Sunset Boulevard"@,
        "Terminal"@,
    ]
}

/// A fresh animation over the standard ten-station line: every station
/// before the terminal dwells a randomly drawn 5 to 8 seconds, the
/// terminal carries the 0-second marker, and the train is parked at
/// station 0 in the `Traveling` phase with both clocks set to `now_ms`.
pub fn new_random_line(now_ms: u64) -> (s: AnimationState)
    ensures
        s.wf(),
        s.stations.len() == standard_names().len(),
        forall|i: int|
            0 <= i < standard_names().len() ==> s.stations[i].name@ == standard_names()[i],
        forall|i: int|
            0 <= i < standard_names().len() - 1
                ==> 5 <= (#[trigger] s.stations[i]).time_to_next <= 8,
        s.stations[standard_names().len() - 1].time_to_next == 0,
        s.current_station_index == 0,
        s.phase == Phase::Traveling,
        s.phase_start_ms == now_ms,
        s.last_blink_ms == now_ms,
        !s.is_blinking,
{
    let mut stations: Vec<Station> = Vec::new();
    stations.push(Station::new("Central Station", random_in_range(5, 8)));
    stations.push(Station::new("City Square", random_in_range(5, 8)));
    stations.push(Station::new("Riverside", random_in_range(5, 8)));
    stations.push(Station::new("University", random_in_range(5, 8)));
    stations.push(Station::new("Tech Park", random_in_range(5, 8)));
    stations.push(Station::new("Old Town", random_in_range(5, 8)));
    stations.push(Station::new("Market Street", random_in_range(5, 8)));
    stations.push(Station::new("Harbor", random_in_range(5, 8)));
    stations.push(Station::new("Sunset Boulevard", random_in_range(5, 8)));
    stations.push(Station::new("Terminal", 0));
    AnimationState::new(stations, now_ms)
}

/// The window title of the original display.
pub fn title() -> (t: String)
    ensures
        t@ == "Metro Line"@,
{
    String::from_str("Metro Line")
}

} // verus!
