//! Pure projections of the animation state for rendering: the colour of
//! each station marker and the status line. Both are functions of the
//! state and the absolute time alone, so any renderer can re-derive them
//! identically outside the state machine.

use vstd::prelude::*;

use crate::state::{AnimationState, Phase};

verus! {

/// Colour of a station marker.
#[derive(Clone, Copy, Debug, PartialEq, Eq, Structural)]
pub enum StationColor {
    /// The current station in the bright half of a blink.
    Red,
    /// The current station under normal travel.
    Green,
    /// The current station while rerouting.
    Blue,
    /// A station already passed.
    Gray,
    /// A station not yet reached.
    White,
}

/// What the status line reports; the renderer turns this into text.
#[derive(Clone, Copy, Debug, PartialEq, Eq)]
pub enum Status {
    /// Arrived at the terminal; the reroute script starts shortly.
    TerminalArrival,
    /// Announcing the next destination.
    RerouteAnnouncement,
    /// Counting down until the backward journey begins.
    RerouteCountdown {
        /// Whole seconds left, clamped at 0.
        seconds_left: u64,
    },
    /// Travelling backward toward station 0.
    ReroutingEta {
        /// Whole seconds until the next (previous) station, clamped at 0.
        seconds_left: u64,
        /// Index of the station being headed to, if any lies behind.
        next_station: Option<usize>,
    },
    /// Normal forward travel.
    TravelingEta {
        /// Whole seconds until the next station, clamped at 0.
        seconds_left: u64,
        /// Whether arrival is imminent (at most 2 whole seconds left).
        arriving_soon: bool,
        /// Index of the next station ahead.
        next_station: usize,
    },
    /// Arrived at the final destination.
    FinalArrival,
}

/// Clamps an integer number of seconds at 0 for display.
pub open spec fn clamp_secs(x: int) -> u64
    recommends
        x <= u64::MAX,
{
    if x >= 0 {
        x as u64
    } else {
        0
    }
}

/// Colour of the marker of station `index`: past stations are grey, future
/// ones white; the current one is blue while rerouting, and otherwise
/// green — flashing red for the first 125 ms after each blink toggle while
/// the blink flag is set.
pub open spec fn spec_station_color(s: AnimationState, index: int, now_ms: u64) -> StationColor {
    if index == s.current_station_index {
        if !(s.phase is Rerouting) && s.current_station_index < s.last_index() {
            if s.is_blinking {
                if now_ms < s.last_blink_ms + 125 {
                    StationColor::Red
                } else {
                    StationColor::Green
                }
            } else {
                StationColor::Green
            }
        } else if s.phase is Rerouting {
            StationColor::Blue
        } else {
            StationColor::Green
        }
    } else if index < s.current_station_index {
        StationColor::Gray
    } else {
        StationColor::White
    }
}

/// The status line as a function of phase and remaining time, in the same
/// priority order as the phase transitions: the dwell phases report
/// themselves; a rerouting train short of station 0 reports its backward
/// ETA; a forward train short of the terminal reports its ETA, flagged as
/// imminent within 2 whole seconds; anything else has arrived.
pub open spec fn spec_status(s: AnimationState, now_ms: u64) -> Status {
    let elapsed_secs = s.elapsed_ms(now_ms) / 1000;
    match s.phase {
        Phase::TerminalWaiting => Status::TerminalArrival,
        Phase::ReroutingMessage => Status::RerouteAnnouncement,
        Phase::CountdownToReroute => Status::RerouteCountdown {
            seconds_left: clamp_secs(4 - elapsed_secs),
        },
        _ => {
            let time_left =
                s.stations[s.current_station_index as int].time_to_next - elapsed_secs;
            if s.phase is Rerouting && s.current_station_index < s.last_index() {
                Status::ReroutingEta {
                    seconds_left: clamp_secs(time_left),
                    next_station: if s.current_station_index > 0 {
                        Some((s.current_station_index - 1) as usize)
                    } else {
                        None
                    },
                }
            } else if s.current_station_index < s.last_index() {
                Status::TravelingEta {
                    seconds_left: clamp_secs(time_left),
                    arriving_soon: time_left <= 2,
                    next_station: (s.current_station_index + 1) as usize,
                }
            } else {
                Status::FinalArrival
            }
        },
    }
}

impl AnimationState {
    /// Colour of the marker of station `index` at time `now_ms`, exactly
    /// as `spec_station_color` describes.
    pub fn station_color(&self, index: usize, now_ms: u64) -> (c: StationColor)
        requires
            self.wf(),
        ensures
            c == spec_station_color(*self, index as int, now_ms),
    {
        if index == self.current_station_index {
            if self.phase != Phase::Rerouting
                && self.current_station_index < self.stations.len() - 1 {
                if self.is_blinking {
                    if now_ms < self.last_blink_ms || now_ms - self.last_blink_ms < 125 {
                        StationColor::Red
                    } else {
                        StationColor::Green
                    }
                } else {
                    StationColor::Green
                }
            } else if self.phase == Phase::Rerouting {
                StationColor::Blue
            } else {
                StationColor::Green
            }
        } else if index < self.current_station_index {
            StationColor::Gray
        } else {
            StationColor::White
        }
    }

    /// The status line at time `now_ms`, exactly as `spec_status`
    /// describes.
    pub fn status(&self, now_ms: u64) -> (st: Status)
        requires
            self.wf(),
        ensures
            st == spec_status(*self, now_ms),
    {
        let elapsed: u64 = if now_ms >= self.phase_start_ms {
            now_ms - self.phase_start_ms
        } else {
            0
        };
        let elapsed_secs: u64 = elapsed / 1000;
        match self.phase {
            Phase::TerminalWaiting => Status::TerminalArrival,
            Phase::ReroutingMessage => Status::RerouteAnnouncement,
            Phase::CountdownToReroute => Status::RerouteCountdown {
                seconds_left: if elapsed_secs >= 4 {
                    0
                } else {
                    4 - elapsed_secs
                },
            },
            _ => {
                let dur_secs: u64 =
                    self.stations[self.current_station_index].time_to_next as u64;
                let seconds_left: u64 = if elapsed_secs >= dur_secs {
                    0
                } else {
                    dur_secs - elapsed_secs
                };
                if self.phase == Phase::Rerouting
                    && self.current_station_index < self.stations.len() - 1 {
                    Status::ReroutingEta {
                        seconds_left,
                        next_station: if self.current_station_index > 0 {
                            Some(self.current_station_index - 1)
                        } else {
                            None
                        },
                    }
                } else if self.current_station_index < self.stations.len() - 1 {
                    Status::TravelingEta {
                        seconds_left,
                        arriving_soon: dur_secs <= elapsed_secs + 2,
                        next_station: self.current_station_index + 1,
                    }
                } else {
                    Status::FinalArrival
                }
            }
        }
    }
}

} // verus!
