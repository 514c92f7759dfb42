//! The simplest variant of the controller: forward travel only. Once the
//! train reaches the last station it has arrived, and no later tick moves
//! it again — there is no reroute script and no blink sub-state.

use vstd::prelude::*;

use crate::station::Station;

verus! {

/// State of the simplest animation: a fixed line and a position on it,
/// with the time the dwell at the current station began.
pub struct SimpleState {
    /// The ordered stations of the line, fixed at startup.
    pub stations: Vec<Station>,
    /// Where the train is; always a valid index into `stations`.
    pub current_station_index: usize,
    /// When the dwell at the current station began, absolute milliseconds.
    pub phase_start_ms: u64,
}

impl SimpleState {
    /// Well-formedness: the line is non-empty and the index is in bounds.
    pub open spec fn wf(self) -> bool {
        &&& 1 <= self.stations.len()
        &&& self.current_station_index < self.stations.len()
    }

    /// Index of the last station.
    pub open spec fn last_index(self) -> int {
        self.stations.len() - 1
    }

    /// Whether the train has arrived at the last station.
    pub open spec fn arrived(self) -> bool {
        self.current_station_index == self.last_index()
    }

    /// Milliseconds since the current dwell began, saturating at 0 if the
    /// clock reads earlier than the dwell start.
    pub open spec fn elapsed_ms(self, now_ms: u64) -> int {
        if now_ms >= self.phase_start_ms {
            now_ms - self.phase_start_ms
        } else {
            0
        }
    }

    /// Dwell time of the current station, in milliseconds.
    pub open spec fn current_duration_ms(self) -> int {
        self.stations[self.current_station_index as int].duration_ms()
    }
}

/// One tick of the simplest animation: once the current station's dwell
/// time has elapsed, advance one station and restart the dwell clock — but
/// never past the last station, where the state no longer changes.
pub open spec fn spec_simple_tick(pre: SimpleState, now_ms: u64) -> SimpleState {
    if pre.elapsed_ms(now_ms) >= pre.current_duration_ms()
        && pre.current_station_index < pre.last_index() {
        SimpleState {
            current_station_index: (pre.current_station_index + 1) as usize,
            phase_start_ms: now_ms,
            ..pre
        }
    } else {
        pre
    }
}

/// `spec_simple_tick` applied once per entry of `times`, oldest first.
pub open spec fn spec_simple_run(pre: SimpleState, times: Seq<u64>) -> SimpleState
    decreases times.len(),
{
    if times.len() == 0 {
        pre
    } else {
        spec_simple_run(spec_simple_tick(pre, times[0]), times.drop_first())
    }
}

impl SimpleState {
    /// A fresh animation over `stations`, parked at station 0 with its
    /// dwell clock set to `now_ms`.
    pub fn new(stations: Vec<Station>, now_ms: u64) -> (s: SimpleState)
        requires
            1 <= stations.len(),
        ensures
            s.wf(),
            s.stations == stations,
            s.current_station_index == 0,
            s.phase_start_ms == now_ms,
    {
        SimpleState { stations, current_station_index: 0, phase_start_ms: now_ms }
    }

    /// Advances the animation by one tick at absolute time `now_ms`,
    /// exactly as `spec_simple_tick` describes. The line itself never
    /// changes and the index stays in bounds.
    pub fn tick(&mut self, now_ms: u64)
        requires
            old(self).wf(),
        ensures
            *final(self) == spec_simple_tick(*old(self), now_ms),
            final(self).wf(),
            final(self).stations == old(self).stations,
    {
        let elapsed: u64 = if now_ms >= self.phase_start_ms {
            now_ms - self.phase_start_ms
        } else {
            0
        };
        let dur_ms: u64 = (self.stations[self.current_station_index].time_to_next as u64) * 1000;
        if elapsed >= dur_ms && self.current_station_index < self.stations.len() - 1 {
            self.current_station_index = self.current_station_index + 1;
            self.phase_start_ms = now_ms;
        }
    }
}

/// Arrival is terminal: a tick of a state that sits at the last station
/// changes nothing at all.
pub proof fn lemma_arrival_is_terminal(s: SimpleState, now_ms: u64)
    requires
        s.wf(),
        s.arrived(),
    ensures
        spec_simple_tick(s, now_ms) == s,
{
}

/// Arrival is terminal under any whole schedule of later ticks: however
/// many ticks follow and whatever times they carry, the state never
/// changes again.
pub proof fn lemma_arrival_is_forever(s: SimpleState, times: Seq<u64>)
    requires
        s.wf(),
        s.arrived(),
    ensures
        spec_simple_run(s, times) == s,
    decreases times.len(),
{
    if times.len() > 0 {
        lemma_arrival_is_terminal(s, times[0]);
        lemma_arrival_is_forever(s, times.drop_first());
    }
}

/// Every tick keeps the index in bounds and leaves the line unchanged.
pub proof fn lemma_simple_tick_preserves_wf(s: SimpleState, now_ms: u64)
    requires
        s.wf(),
    ensures
        spec_simple_tick(s, now_ms).wf(),
        spec_simple_tick(s, now_ms).stations == s.stations,
{
}

} // verus!
