use metro_line::{new_random_line, title, AnimationState, Phase, Station, StationColor, Status};

fn abc_stations() -> Vec<Station> {
    vec![Station::new("A", 5), Station::new("B", 4), Station::new("C", 0)]
}

#[test]
fn colors_past_current_future() {
    let mut st = AnimationState::new(abc_stations(), 0);
    st.tick(5000);
    assert_eq!(st.current_station_index, 1);
    assert_eq!(st.station_color(0, 6000), StationColor::Gray);
    assert_eq!(st.station_color(1, 6000), StationColor::Green);
    assert_eq!(st.station_color(2, 6000), StationColor::White);
}

#[test]
fn color_blinks_red_just_after_a_toggle() {
    let mut st = AnimationState::new(abc_stations(), 0);
    st.tick(3000);
    assert!(st.is_blinking);
    assert_eq!(st.last_blink_ms, 3000);
    assert_eq!(st.station_color(0, 3100), StationColor::Red);
    assert_eq!(st.station_color(0, 3125), StationColor::Green);
}

#[test]
fn color_blue_while_rerouting() {
    let mut st = AnimationState::new(abc_stations(), 0);
    st.current_station_index = 1;
    st.phase = Phase::Rerouting;
    assert_eq!(st.station_color(1, 0), StationColor::Blue);
    assert_eq!(st.station_color(0, 0), StationColor::Gray);
    assert_eq!(st.station_color(2, 0), StationColor::White);
}

#[test]
fn color_green_at_terminal_without_blink() {
    let mut st = AnimationState::new(abc_stations(), 0);
    st.current_station_index = 2;
    st.is_blinking = true;
    assert_eq!(st.station_color(2, 0), StationColor::Green);
}

#[test]
fn status_traveling_eta() {
    let st = AnimationState::new(abc_stations(), 0);
    assert_eq!(
        st.status(1000),
        Status::TravelingEta { seconds_left: 4, arriving_soon: false, next_station: 1 }
    );
    assert_eq!(
        st.status(3000),
        Status::TravelingEta { seconds_left: 2, arriving_soon: true, next_station: 1 }
    );
    assert_eq!(
        st.status(7000),
        Status::TravelingEta { seconds_left: 0, arriving_soon: true, next_station: 1 }
    );
}

#[test]
fn status_of_each_dwell_phase() {
    let mut st = AnimationState::new(abc_stations(), 0);
    st.current_station_index = 2;
    st.phase = Phase::TerminalWaiting;
    assert_eq!(st.status(1000), Status::TerminalArrival);
    st.phase = Phase::ReroutingMessage;
    assert_eq!(st.status(1000), Status::RerouteAnnouncement);
    st.phase = Phase::CountdownToReroute;
    st.phase_start_ms = 0;
    assert_eq!(st.status(1500), Status::RerouteCountdown { seconds_left: 3 });
    assert_eq!(st.status(9000), Status::RerouteCountdown { seconds_left: 0 });
}

#[test]
fn status_while_rerouting() {
    let mut st = AnimationState::new(abc_stations(), 0);
    st.current_station_index = 1;
    st.phase = Phase::Rerouting;
    st.phase_start_ms = 0;
    assert_eq!(
        st.status(1000),
        Status::ReroutingEta { seconds_left: 3, next_station: Some(0) }
    );
    st.current_station_index = 0;
    assert_eq!(
        st.status(1000),
        Status::ReroutingEta { seconds_left: 4, next_station: None }
    );
}

#[test]
fn status_arrived_at_final_destination() {
    let mut st = AnimationState::new(abc_stations(), 0);
    st.current_station_index = 2;
    assert_eq!(st.status(1000), Status::FinalArrival);
    st.phase = Phase::Rerouting;
    assert_eq!(st.status(1000), Status::FinalArrival);
}

#[test]
fn random_line_is_the_standard_line() {
    let st = new_random_line(42);
    assert_eq!(st.stations.len(), 10);
    let names = [
        "Central Station",
        "City Square",
        "Riverside",
        "University",
        "Tech Park",
        "Old Town",
        "Market Street",
        "Harbor",
        "Sunset Boulevard",
        "Terminal",
    ];
    for (i, station) in st.stations.iter().enumerate() {
        assert_eq!(station.name, names[i]);
        if i < 9 {
            assert!((5..=8).contains(&station.time_to_next));
        }
    }
    assert_eq!(st.stations[9].time_to_next, 0);
    assert_eq!(st.current_station_index, 0);
    assert_eq!(st.phase, Phase::Traveling);
    assert_eq!(st.phase_start_ms, 42);
    assert!(!st.is_blinking);
}

#[test]
fn window_title() {
    assert_eq!(title(), "Metro Line");
}
