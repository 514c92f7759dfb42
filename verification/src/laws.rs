//! The properties the controller is built to keep: the index stays in
//! bounds under every tick, the blink flag obeys its discipline, and the
//! phase cycle is total — each phase, given enough elapsed time, hands
//! over to the next, and the rerouting descent strictly decreases the
//! index until the train is back at station 0 and travelling normally.

use vstd::prelude::*;

use crate::state::{AnimationState, Phase, spec_tick, spec_travel_step};
use crate::station::Station;

verus! {

/// `spec_tick` applied once per entry of `times`, oldest first.
pub open spec fn spec_run(pre: AnimationState, times: Seq<u64>) -> AnimationState
    decreases times.len(),
{
    if times.len() == 0 {
        pre
    } else {
        spec_run(spec_tick(pre, times[0]), times.drop_first())
    }
}

/// Every tick keeps the state well-formed — the index stays in bounds —
/// and leaves the line itself unchanged.
pub proof fn lemma_tick_preserves_wf(s: AnimationState, now_ms: u64)
    requires
        s.wf(),
    ensures
        spec_tick(s, now_ms).wf(),
        spec_tick(s, now_ms).stations == s.stations,
{
}

/// Under any whole schedule of ticks the index stays in bounds and the
/// line never changes.
pub proof fn lemma_run_preserves_wf(s: AnimationState, times: Seq<u64>)
    requires
        s.wf(),
    ensures
        spec_run(s, times).wf(),
        spec_run(s, times).stations == s.stations,
    decreases times.len(),
{
    if times.len() > 0 {
        lemma_tick_preserves_wf(s, times[0]);
        lemma_run_preserves_wf(spec_tick(s, times[0]), times.drop_first());
    }
}

/// Running a concatenated schedule is running its parts in order.
pub proof fn lemma_run_concat(s: AnimationState, a: Seq<u64>, b: Seq<u64>)
    ensures
        spec_run(s, a + b) == spec_run(spec_run(s, a), b),
    decreases a.len(),
{
    if a.len() == 0 {
        assert(a + b =~= b);
    } else {
        assert((a + b)[0] == a[0]);
        assert((a + b).drop_first() =~= a.drop_first() + b);
        lemma_run_concat(spec_tick(s, a[0]), a.drop_first(), b);
    }
}

/// The blink discipline, exactly: the flag only becomes set when — after
/// this tick's travel step — the train is neither rerouting nor at the
/// terminal, at most 2 whole seconds remain at its station, and at least
/// 250 ms of wall time have passed since the last toggle; the toggle
/// timestamp moves only then; with more than 2 seconds left, or while
/// rerouting or at the terminal, the flag is cleared; the dwell phases
/// leave it untouched; and within 250 ms of the last toggle nothing
/// changes.
pub proof fn lemma_blink_discipline(s: AnimationState, now_ms: u64)
    requires
        s.wf(),
    ensures
        ({
            let post = spec_tick(s, now_ms);
            let mid = spec_travel_step(s, now_ms);
            let travel_phase = s.phase is Traveling || s.phase is Rerouting;
            let blinkable = travel_phase && !(mid.phase is Rerouting)
                && mid.current_station_index < mid.last_index();
            let time_left = mid.stations[mid.current_station_index as int].time_to_next
                - s.elapsed_ms(now_ms) / 1000;
            let spaced = now_ms >= s.last_blink_ms + 250;
            &&& (post.is_blinking && !s.is_blinking) ==> blinkable && time_left <= 2 && spaced
            &&& post.last_blink_ms != s.last_blink_ms ==> blinkable && time_left <= 2 && spaced
                && post.last_blink_ms == now_ms && post.is_blinking == !s.is_blinking
            &&& (blinkable && time_left > 2) ==> !post.is_blinking
            &&& (travel_phase && !blinkable) ==> !post.is_blinking
            &&& !travel_phase ==> post.is_blinking == s.is_blinking
            &&& (blinkable && time_left <= 2 && !spaced) ==> post.is_blinking == s.is_blinking
                && post.last_blink_ms == s.last_blink_ms
        }),
{
}

/// A train dwelling at the terminal hands over to the announcement once
/// 5 seconds have elapsed, restarting the phase clock; nothing else moves.
pub proof fn lemma_terminal_waiting_progress(s: AnimationState, now_ms: u64)
    requires
        s.wf(),
        s.phase is TerminalWaiting,
        s.elapsed_ms(now_ms) >= 5000,
    ensures
        ({
            let post = spec_tick(s, now_ms);
            &&& post.phase is ReroutingMessage
            &&& post.phase_start_ms == now_ms
            &&& post.current_station_index == s.current_station_index
            &&& post.stations == s.stations
            &&& post.is_blinking == s.is_blinking
        }),
{
}

/// The announcement hands over to the countdown once 4 seconds have
/// elapsed, restarting the phase clock; nothing else moves.
pub proof fn lemma_announcement_progress(s: AnimationState, now_ms: u64)
    requires
        s.wf(),
        s.phase is ReroutingMessage,
        s.elapsed_ms(now_ms) >= 4000,
    ensures
        ({
            let post = spec_tick(s, now_ms);
            &&& post.phase is CountdownToReroute
            &&& post.phase_start_ms == now_ms
            &&& post.current_station_index == s.current_station_index
            &&& post.stations == s.stations
        }),
{
}

/// The countdown hands over to the backward journey once 4 seconds have
/// elapsed, restarting the phase clock; nothing else moves.
pub proof fn lemma_countdown_progress(s: AnimationState, now_ms: u64)
    requires
        s.wf(),
        s.phase is CountdownToReroute,
        s.elapsed_ms(now_ms) >= 4000,
    ensures
        ({
            let post = spec_tick(s, now_ms);
            &&& post.phase is Rerouting
            &&& post.phase_start_ms == now_ms
            &&& post.current_station_index == s.current_station_index
            &&& post.stations == s.stations
        }),
{
}

/// A travelling train short of the terminal advances exactly one station
/// once its dwell time has elapsed, restarting the phase clock, and enters
/// `TerminalWaiting` precisely when the new station is the terminal.
pub proof fn lemma_traveling_advances(s: AnimationState, now_ms: u64)
    requires
        s.wf(),
        s.phase is Traveling,
        s.current_station_index < s.last_index(),
        s.elapsed_ms(now_ms) >= s.current_duration_ms(),
    ensures
        ({
            let post = spec_tick(s, now_ms);
            &&& post.current_station_index == s.current_station_index + 1
            &&& post.phase_start_ms == now_ms
            &&& post.stations == s.stations
            &&& (post.phase is TerminalWaiting <==> post.current_station_index == s.last_index())
            &&& (post.phase is Traveling <==> post.current_station_index < s.last_index())
        }),
{
}

/// A rerouting train short of station 0 falls back exactly one station
/// once its dwell time has elapsed — a strict decrease — restarting the
/// phase clock, and resumes normal travel precisely when it reaches
/// station 0.
pub proof fn lemma_rerouting_decrements(s: AnimationState, now_ms: u64)
    requires
        s.wf(),
        s.phase is Rerouting,
        s.current_station_index > 0,
        s.elapsed_ms(now_ms) >= s.current_duration_ms(),
    ensures
        ({
            let post = spec_tick(s, now_ms);
            &&& post.current_station_index == s.current_station_index - 1
            &&& post.phase_start_ms == now_ms
            &&& post.stations == s.stations
            &&& (post.phase is Traveling <==> post.current_station_index == 0)
            &&& (post.phase is Rerouting <==> post.current_station_index > 0)
        }),
{
}

/// Sum of the dwell times, in milliseconds, of `stations[lo..hi]`.
pub open spec fn dwell_sum_ms(stations: Seq<Station>, lo: int, hi: int) -> int
    decreases hi - lo,
{
    if lo >= hi {
        0
    } else {
        stations[lo].duration_ms() + dwell_sum_ms(stations, lo + 1, hi)
    }
}

/// A dwell sum is never negative.
pub proof fn lemma_dwell_sum_nonneg(stations: Seq<Station>, lo: int, hi: int)
    ensures
        dwell_sum_ms(stations, lo, hi) >= 0,
    decreases hi - lo,
{
    if lo < hi {
        lemma_dwell_sum_nonneg(stations, lo + 1, hi);
    }
}

/// A dwell sum peels at its upper end.
pub proof fn lemma_dwell_sum_peel_last(stations: Seq<Station>, lo: int, hi: int)
    requires
        lo < hi,
    ensures
        dwell_sum_ms(stations, lo, hi)
            == dwell_sum_ms(stations, lo, hi - 1) + stations[hi - 1].duration_ms(),
    decreases hi - lo,
{
    if lo + 1 < hi {
        lemma_dwell_sum_peel_last(stations, lo + 1, hi);
        assert(dwell_sum_ms(stations, lo, hi)
            == stations[lo].duration_ms() + dwell_sum_ms(stations, lo + 1, hi));
        assert(dwell_sum_ms(stations, lo, hi - 1)
            == stations[lo].duration_ms() + dwell_sum_ms(stations, lo + 1, hi - 1));
    } else {
        assert(dwell_sum_ms(stations, lo, hi)
            == stations[lo].duration_ms() + dwell_sum_ms(stations, lo + 1, hi));
        assert(dwell_sum_ms(stations, lo + 1, hi) == 0);
        assert(dwell_sum_ms(stations, lo, hi - 1) == 0);
    }
}

/// A travelling train short of the terminal eventually reaches it: some
/// schedule of ticks — one per remaining station, each fired as soon as
/// the dwell time is up — ends with the train dwelling at the terminal in
/// `TerminalWaiting`, provided the clock has room for the remaining dwell
/// times.
pub proof fn lemma_traveling_reaches_terminal(s: AnimationState)
    requires
        s.wf(),
        s.phase is Traveling,
        s.current_station_index < s.last_index(),
        s.phase_start_ms
            + dwell_sum_ms(s.stations@, s.current_station_index as int, s.last_index())
            <= u64::MAX,
    ensures
        exists|times: Seq<u64>|
            {
                &&& #[trigger] spec_run(s, times).phase is TerminalWaiting
                &&& spec_run(s, times).current_station_index == s.last_index()
                &&& spec_run(s, times).stations == s.stations
            },
    decreases s.last_index() - s.current_station_index,
{
    let k = s.current_station_index as int;
    lemma_dwell_sum_nonneg(s.stations@, k + 1, s.last_index());
    let fire: u64 = (s.phase_start_ms + s.current_duration_ms()) as u64;
    lemma_traveling_advances(s, fire);
    let s2 = spec_tick(s, fire);
    let one = seq![fire];
    assert(one.drop_first() =~= Seq::<u64>::empty());
    assert(one[0] == fire);
    assert(spec_run(s, one) == spec_run(s2, one.drop_first()));
    assert(spec_run(s, one) == s2);
    if s2.current_station_index == s.last_index() {
        assert(spec_run(s, one).phase is TerminalWaiting);
    } else {
        lemma_traveling_reaches_terminal(s2);
        let rest = choose|times: Seq<u64>|
            {
                &&& #[trigger] spec_run(s2, times).phase is TerminalWaiting
                &&& spec_run(s2, times).current_station_index == s2.last_index()
                &&& spec_run(s2, times).stations == s2.stations
            };
        lemma_run_concat(s, one, rest);
        assert(spec_run(s, one + rest).phase is TerminalWaiting);
    }
}

/// A rerouting train eventually resumes normal travel at station 0: some
/// schedule of ticks — one per station behind it, each fired as soon as
/// the dwell time is up — ends with the train at station 0 in the
/// `Traveling` phase, the index having strictly decreased at every step,
/// provided the clock has room for the dwell times passed on the way.
pub proof fn lemma_rerouting_reaches_start(s: AnimationState)
    requires
        s.wf(),
        s.phase is Rerouting,
        s.phase_start_ms + dwell_sum_ms(s.stations@, 0, s.current_station_index + 1)
            <= u64::MAX,
    ensures
        exists|times: Seq<u64>|
            {
                &&& #[trigger] spec_run(s, times).phase is Traveling
                &&& spec_run(s, times).current_station_index == 0
                &&& spec_run(s, times).stations == s.stations
            },
    decreases s.current_station_index,
{
    let k = s.current_station_index as int;
    lemma_dwell_sum_nonneg(s.stations@, 0, k);
    lemma_dwell_sum_peel_last(s.stations@, 0, k + 1);
    let fire: u64 = (s.phase_start_ms + s.current_duration_ms()) as u64;
    let s2 = spec_tick(s, fire);
    let one = seq![fire];
    assert(one.drop_first() =~= Seq::<u64>::empty());
    assert(one[0] == fire);
    assert(spec_run(s, one) == spec_run(s2, one.drop_first()));
    assert(spec_run(s, one) == s2);
    if k == 0 {
        assert(spec_run(s, one).phase is Traveling);
    } else {
        lemma_rerouting_decrements(s, fire);
        if s2.current_station_index == 0 {
            assert(spec_run(s, one).phase is Traveling);
        } else {
            lemma_rerouting_reaches_start(s2);
            let rest = choose|times: Seq<u64>|
                {
                    &&& #[trigger] spec_run(s2, times).phase is Traveling
                    &&& spec_run(s2, times).current_station_index == 0
                    &&& spec_run(s2, times).stations == s2.stations
                };
            lemma_run_concat(s, one, rest);
            assert(spec_run(s, one + rest).phase is Traveling);
        }
    }
}

/// The reroute script runs to completion: a train dwelling at the terminal
/// passes, under some schedule of ticks, through the announcement, the
/// countdown and the whole backward journey, and ends travelling normally
/// at station 0 — provided the clock has room for the three scripted waits
/// and the dwell times passed on the way back.
pub proof fn lemma_cycle_completes(s: AnimationState)
    requires
        s.wf(),
        s.phase is TerminalWaiting,
        s.current_station_index == s.last_index(),
        s.phase_start_ms + 13000 + dwell_sum_ms(s.stations@, 0, s.current_station_index + 1)
            <= u64::MAX,
    ensures
        exists|times: Seq<u64>|
            {
                &&& #[trigger] spec_run(s, times).phase is Traveling
                &&& spec_run(s, times).current_station_index == 0
                &&& spec_run(s, times).stations == s.stations
            },
{
    lemma_dwell_sum_nonneg(s.stations@, 0, s.current_station_index + 1);
    let t1: u64 = (s.phase_start_ms + 5000) as u64;
    let t2: u64 = (t1 + 4000) as u64;
    let t3: u64 = (t2 + 4000) as u64;
    lemma_terminal_waiting_progress(s, t1);
    let s1 = spec_tick(s, t1);
    lemma_announcement_progress(s1, t2);
    let s2 = spec_tick(s1, t2);
    lemma_countdown_progress(s2, t3);
    let s3 = spec_tick(s2, t3);
    let head = seq![t1, t2, t3];
    assert(head.drop_first() =~= seq![t2, t3]);
    assert(seq![t2, t3].drop_first() =~= seq![t3]);
    assert(seq![t3].drop_first() =~= Seq::<u64>::empty());
    assert(head[0] == t1);
    assert(seq![t2, t3][0] == t2);
    assert(seq![t3][0] == t3);
    assert(spec_run(s, head) == spec_run(s1, seq![t2, t3]));
    assert(spec_run(s1, seq![t2, t3]) == spec_run(s2, seq![t3]));
    assert(spec_run(s2, seq![t3]) == spec_run(s3, Seq::<u64>::empty()));
    assert(spec_run(s, head) == s3);
    lemma_rerouting_reaches_start(s3);
    let rest = choose|times: Seq<u64>|
        {
            &&& #[trigger] spec_run(s3, times).phase is Traveling
            &&& spec_run(s3, times).current_station_index == 0
            &&& spec_run(s3, times).stations == s3.stations
        };
    lemma_run_concat(s, head, rest);
    assert(spec_run(s, head + rest).phase is Traveling);
}

} // verus!
