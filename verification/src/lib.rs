//! A metro-line animation controller: an ordered list of stations, a
//! current position, and a small set of mutually exclusive phases, advanced
//! by a periodic timer tick. The whole state machine is a pure transition
//! function from a state and an absolute time to the next state, so it can
//! be driven by any event loop and checked independently of any rendering.

mod station;
mod state;
mod simple;
mod display;
mod line;
mod laws;

pub use station::Station;
pub use state::{AnimationState, Phase, spec_tick, spec_travel_step, spec_blink_step};
pub use simple::{
    lemma_arrival_is_forever, lemma_arrival_is_terminal, lemma_simple_tick_preserves_wf,
    spec_simple_run, spec_simple_tick, SimpleState,
};
pub use display::{StationColor, Status, spec_station_color, spec_status, clamp_secs};
pub use line::{new_random_line, standard_names, title};
pub use laws::{
    dwell_sum_ms, lemma_announcement_progress, lemma_blink_discipline, lemma_countdown_progress,
    lemma_cycle_completes, lemma_dwell_sum_nonneg, lemma_dwell_sum_peel_last,
    lemma_rerouting_decrements, lemma_rerouting_reaches_start, lemma_run_concat,
    lemma_run_preserves_wf, lemma_terminal_waiting_progress, lemma_tick_preserves_wf,
    lemma_traveling_advances, lemma_traveling_reaches_terminal, spec_run,
};
