use metro_line::{AnimationState, Phase, SimpleState, Station};

fn abc_stations() -> Vec<Station> {
    vec![Station::new("A", 5), Station::new("B", 4), Station::new("C", 0)]
}

#[test]
fn simple_scenario_three_stations() {
    let mut st = SimpleState::new(abc_stations(), 0);
    assert_eq!(st.current_station_index, 0);
    st.tick(4999);
    assert_eq!(st.current_station_index, 0);
    st.tick(5000);
    assert_eq!(st.current_station_index, 1);
    st.tick(8999);
    assert_eq!(st.current_station_index, 1);
    st.tick(9000);
    assert_eq!(st.current_station_index, 2);
    st.tick(9100);
    assert_eq!(st.current_station_index, 2);
    st.tick(60000);
    assert_eq!(st.current_station_index, 2);
}

#[test]
fn simple_clock_earlier_than_start_moves_nothing() {
    let mut st = SimpleState::new(abc_stations(), 10000);
    st.tick(3000);
    assert_eq!(st.current_station_index, 0);
    assert_eq!(st.phase_start_ms, 10000);
}

#[test]
fn rich_cycle_scenario() {
    let mut st = AnimationState::new(abc_stations(), 0);
    assert_eq!(st.phase, Phase::Traveling);
    st.tick(5000);
    assert_eq!(st.current_station_index, 1);
    assert_eq!(st.phase, Phase::Traveling);
    st.tick(9000);
    assert_eq!(st.current_station_index, 2);
    assert_eq!(st.phase, Phase::TerminalWaiting);
    st.tick(13999);
    assert_eq!(st.phase, Phase::TerminalWaiting);
    st.tick(14000);
    assert_eq!(st.phase, Phase::ReroutingMessage);
    st.tick(17999);
    assert_eq!(st.phase, Phase::ReroutingMessage);
    st.tick(18000);
    assert_eq!(st.phase, Phase::CountdownToReroute);
    st.tick(22000);
    assert_eq!(st.phase, Phase::Rerouting);
    assert_eq!(st.current_station_index, 2);
    st.tick(22000);
    assert_eq!(st.current_station_index, 1);
    assert_eq!(st.phase, Phase::Rerouting);
    st.tick(25999);
    assert_eq!(st.current_station_index, 1);
    st.tick(26000);
    assert_eq!(st.current_station_index, 0);
    assert_eq!(st.phase, Phase::Traveling);
    st.tick(31000);
    assert_eq!(st.current_station_index, 1);
    assert_eq!(st.phase, Phase::Traveling);
}

#[test]
fn rich_index_stays_in_bounds() {
    let mut st = AnimationState::new(abc_stations(), 0);
    let mut now: u64 = 0;
    for _ in 0..500 {
        now += 100;
        st.tick(now);
        assert!(st.current_station_index < 3);
    }
}

#[test]
fn blink_toggles_only_when_imminent_and_spaced() {
    let mut st = AnimationState::new(abc_stations(), 0);
    st.tick(1000);
    assert!(!st.is_blinking, "4 whole seconds left: no blinking");
    st.tick(3000);
    assert!(st.is_blinking, "2 seconds left and 3000 ms since last toggle");
    assert_eq!(st.last_blink_ms, 3000);
    st.tick(3100);
    assert!(st.is_blinking, "only 100 ms since last toggle: unchanged");
    assert_eq!(st.last_blink_ms, 3000);
    st.tick(3300);
    assert!(!st.is_blinking, "300 ms since last toggle: toggled back");
    assert_eq!(st.last_blink_ms, 3300);
    st.tick(3600);
    assert!(st.is_blinking);
}

#[test]
fn blink_cleared_at_terminal_and_while_rerouting() {
    let mut st = AnimationState::new(abc_stations(), 0);
    st.tick(3000);
    assert!(st.is_blinking);
    st.tick(5000);
    assert_eq!(st.current_station_index, 1);
    st.tick(8000);
    assert!(st.is_blinking, "1 second left at station 1");
    st.tick(9000);
    assert_eq!(st.phase, Phase::TerminalWaiting);
    assert!(!st.is_blinking, "cleared on arrival at the terminal");
    st.tick(14000);
    st.tick(18000);
    st.tick(22000);
    assert_eq!(st.phase, Phase::Rerouting);
    st.tick(22300);
    assert_eq!(st.current_station_index, 1);
    assert!(!st.is_blinking, "cleared while rerouting");
}

#[test]
fn rerouting_at_station_zero_resumes_traveling_without_moving() {
    let mut st = AnimationState::new(abc_stations(), 0);
    st.current_station_index = 0;
    st.phase = Phase::Rerouting;
    st.phase_start_ms = 0;
    st.tick(5000);
    assert_eq!(st.current_station_index, 0);
    assert_eq!(st.phase, Phase::Traveling);
}
