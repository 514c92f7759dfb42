//! The animation controller for the full line: a current station index, a
//! phase, and a blink sub-state, advanced once per timer tick.
//!
//! The phases are mutually exclusive and form a cycle:
//! `Traveling -> TerminalWaiting -> ReroutingMessage -> CountdownToReroute
//! -> Rerouting -> Traveling` (back at station 0). A tick evaluates exactly
//! one transition, chosen by phase in priority order, from the absolute time
//! it is handed — never from accumulated per-tick deltas — so behaviour is
//! robust to missed ticks. All index arithmetic saturates; no input makes a
//! tick fail.

use vstd::prelude::*;

use crate::station::Station;

verus! {

/// The mutually exclusive phases of the animation.
#[derive(Clone, Copy, Debug, PartialEq, Eq, Structural)]
pub enum Phase {
    /// Normal forward travel along the line.
    Traveling,
    /// Dwelling at the terminal station before the reroute script starts.
    TerminalWaiting,
    /// Announcing the next destination.
    ReroutingMessage,
    /// Counting down until the backward journey begins.
    CountdownToReroute,
    /// Scripted backward travel toward station 0.
    Rerouting,
}

/// The whole mutable state of the animation: the line, the position on it,
/// the phase, and the blink sub-state. Times are absolute milliseconds on
/// whatever clock drives the ticks.
pub struct AnimationState {
    /// The ordered stations of the line, fixed at startup.
    pub stations: Vec<Station>,
    /// Where the train is; always a valid index into `stations`.
    pub current_station_index: usize,
    /// When the current phase (or the dwell at the current station) began.
    pub phase_start_ms: u64,
    /// When the blink flag last toggled.
    pub last_blink_ms: u64,
    /// Blink flag: alternates while arrival at the next station is imminent.
    pub is_blinking: bool,
    /// The current phase.
    pub phase: Phase,
}

impl AnimationState {
    /// Well-formedness: the line is non-empty and the index is in bounds.
    pub open spec fn wf(self) -> bool {
        &&& 1 <= self.stations.len()
        &&& self.current_station_index < self.stations.len()
    }

    /// Index of the terminal station.
    pub open spec fn last_index(self) -> int {
        self.stations.len() - 1
    }

    /// Milliseconds since the current phase began, saturating at 0 if the
    /// clock reads earlier than the phase start.
    pub open spec fn elapsed_ms(self, now_ms: u64) -> int {
        if now_ms >= self.phase_start_ms {
            now_ms - self.phase_start_ms
        } else {
            0
        }
    }

    /// Dwell time of the current station, in milliseconds.
    pub open spec fn current_duration_ms(self) -> int {
        self.stations[self.current_station_index as int].duration_ms()
    }
}

/// The travel part of a tick, reached only in the `Traveling` and
/// `Rerouting` phases: once the current station's dwell time has elapsed,
/// move the index one step — backward while rerouting (clearing the phase
/// and resetting to `Traveling` when station 0 is reached), forward
/// otherwise (entering `TerminalWaiting` when the terminal is reached).
/// The phase clock restarts whenever the index moves.
pub open spec fn spec_travel_step(pre: AnimationState, now_ms: u64) -> AnimationState {
    if pre.elapsed_ms(now_ms) >= pre.current_duration_ms() {
        if pre.phase is Rerouting {
            if pre.current_station_index > 0 {
                let moved = AnimationState {
                    current_station_index: (pre.current_station_index - 1) as usize,
                    phase_start_ms: now_ms,
                    ..pre
                };
                if moved.current_station_index == 0 {
                    AnimationState { phase: Phase::Traveling, ..moved }
                } else {
                    moved
                }
            } else {
                AnimationState { phase: Phase::Traveling, ..pre }
            }
        } else {
            if pre.current_station_index < pre.last_index() {
                let moved = AnimationState {
                    current_station_index: (pre.current_station_index + 1) as usize,
                    phase_start_ms: now_ms,
                    ..pre
                };
                if moved.current_station_index == moved.last_index() {
                    AnimationState { phase: Phase::TerminalWaiting, ..moved }
                } else {
                    moved
                }
            } else {
                pre
            }
        }
    } else {
        pre
    }
}

/// The blink part of a tick, evaluated after the travel part with the
/// elapsed time read at tick entry (`entry_elapsed_ms`). While not
/// rerouting and not at the terminal: if at most 2 whole seconds remain at
/// the current station, the flag toggles — but no sooner than 250 ms of
/// wall time after its previous toggle; with more than 2 seconds left, or
/// otherwise (rerouting, or at the terminal), the flag is cleared.
pub open spec fn spec_blink_step(
    mid: AnimationState,
    entry_elapsed_ms: int,
    now_ms: u64,
) -> AnimationState {
    if !(mid.phase is Rerouting) && mid.current_station_index < mid.last_index() {
        let time_left =
            mid.stations[mid.current_station_index as int].time_to_next - entry_elapsed_ms / 1000;
        if time_left <= 2 {
            if now_ms >= mid.last_blink_ms + 250 {
                AnimationState { is_blinking: !mid.is_blinking, last_blink_ms: now_ms, ..mid }
            } else {
                mid
            }
        } else {
            AnimationState { is_blinking: false, ..mid }
        }
    } else {
        AnimationState { is_blinking: false, ..mid }
    }
}

/// One tick of the animation at absolute time `now_ms`: the first matching
/// phase transition wins, all others are skipped this tick.
pub open spec fn spec_tick(pre: AnimationState, now_ms: u64) -> AnimationState {
    let e = pre.elapsed_ms(now_ms);
    match pre.phase {
        Phase::TerminalWaiting => if e >= 5000 {
            AnimationState { phase: Phase::ReroutingMessage, phase_start_ms: now_ms, ..pre }
        } else {
            pre
        },
        Phase::ReroutingMessage => if e >= 4000 {
            AnimationState { phase: Phase::CountdownToReroute, phase_start_ms: now_ms, ..pre }
        } else {
            pre
        },
        Phase::CountdownToReroute => if e >= 4000 {
            AnimationState { phase: Phase::Rerouting, phase_start_ms: now_ms, ..pre }
        } else {
            pre
        },
        _ => spec_blink_step(spec_travel_step(pre, now_ms), e, now_ms),
    }
}

impl AnimationState {
    /// A fresh animation over `stations`, parked at station 0 in the
    /// `Traveling` phase, with both clocks set to `now_ms`.
    pub fn new(stations: Vec<Station>, now_ms: u64) -> (s: AnimationState)
        requires
            1 <= stations.len(),
        ensures
            s.wf(),
            s.stations == stations,
            s.current_station_index == 0,
            s.phase == Phase::Traveling,
            s.phase_start_ms == now_ms,
            s.last_blink_ms == now_ms,
            !s.is_blinking,
    {
        AnimationState {
            stations,
            current_station_index: 0,
            phase_start_ms: now_ms,
            last_blink_ms: now_ms,
            is_blinking: false,
            phase: Phase::Traveling,
        }
    }

    /// Advances the animation by one tick at absolute time `now_ms`,
    /// exactly as `spec_tick` describes. The line itself never changes and
    /// the index stays in bounds.
    pub fn tick(&mut self, now_ms: u64)
        requires
            old(self).wf(),
        ensures
            *final(self) == spec_tick(*old(self), now_ms),
            final(self).wf(),
            final(self).stations == old(self).stations,
    {
        let elapsed: u64 = if now_ms >= self.phase_start_ms {
            now_ms - self.phase_start_ms
        } else {
            0
        };
        match self.phase {
            Phase::TerminalWaiting => {
                if elapsed >= 5000 {
                    self.phase = Phase::ReroutingMessage;
                    self.phase_start_ms = now_ms;
                }
            }
            Phase::ReroutingMessage => {
                if elapsed >= 4000 {
                    self.phase = Phase::CountdownToReroute;
                    self.phase_start_ms = now_ms;
                }
            }
            Phase::CountdownToReroute => {
                if elapsed >= 4000 {
                    self.phase = Phase::Rerouting;
                    self.phase_start_ms = now_ms;
                }
            }
            _ => {
                let dur_ms: u64 = (self.stations[self.current_station_index].time_to_next as u64)
                    * 1000;
                if elapsed >= dur_ms {
                    if self.phase == Phase::Rerouting {
                        if self.current_station_index > 0 {
                            self.current_station_index = self.current_station_index - 1;
                            self.phase_start_ms = now_ms;
                        }
                        if self.current_station_index == 0 {
                            self.phase = Phase::Traveling;
                        }
                    } else if self.current_station_index < self.stations.len() - 1 {
                        self.current_station_index = self.current_station_index + 1;
                        self.phase_start_ms = now_ms;
                        if self.current_station_index == self.stations.len() - 1 {
                            self.phase = Phase::TerminalWaiting;
                        }
                    }
                }
                if self.phase != Phase::Rerouting
                    && self.current_station_index < self.stations.len() - 1 {
                    let elapsed_secs: u64 = elapsed / 1000;
                    let dur_secs: u64 =
                        self.stations[self.current_station_index].time_to_next as u64;
                    if dur_secs <= elapsed_secs + 2 {
                        if now_ms >= self.last_blink_ms
                            && now_ms - self.last_blink_ms >= 250 {
                            self.is_blinking = !self.is_blinking;
                            self.last_blink_ms = now_ms;
                        }
                    } else {
                        self.is_blinking = false;
                    }
                } else {
                    self.is_blinking = false;
                }
            }
        }
    }
}

} // verus!
