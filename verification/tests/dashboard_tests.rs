use plato_dashboard::dashboard::Dashboard;
use plato_dashboard::{AlarmEvent, AlarmSeverity, FleetConfig, RoomState, SensorReading};

fn mock_room(name: &str) -> RoomState {
    RoomState {
        name: name.to_string(),
        tick_rate_ms: 1000,
        last_tick_age_ms: 200,
        sensors: vec![SensorReading {
            name: "Temp".to_string(),
            value_bits: 22.5f64.to_bits(),
            unit: "°C".to_string(),
            alarm: AlarmSeverity::Clear,
        }],
        history_bits: vec![vec![20.0f64.to_bits(), 21.0f64.to_bits(), 22.0f64.to_bits(), 22.5f64.to_bits()]],
        online: true,
    }
}

fn mock_config(rooms: usize) -> FleetConfig {
    let states: Vec<RoomState> = (0..rooms).map(|i| mock_room(&format!("Room-{}", i))).collect();
    FleetConfig::new(states)
}

#[test]
fn test_create_from_fleet_config() {
    let config = mock_config(3);
    let dash = Dashboard::new(config);
    assert_eq!(dash.room_count(), 3);
    assert_eq!(dash.selected_room(), 0);
}

#[test]
fn test_room_switching_next() {
    let config = mock_config(3);
    let mut dash = Dashboard::new(config);
    assert_eq!(dash.selected_room(), 0);
    dash.next_room();
    assert_eq!(dash.selected_room(), 1);
    dash.next_room();
    assert_eq!(dash.selected_room(), 2);
    dash.next_room();
    assert_eq!(dash.selected_room(), 0); // wraps
}

#[test]
fn test_room_switching_prev() {
    let config = mock_config(3);
    let mut dash = Dashboard::new(config);
    dash.prev_room();
    assert_eq!(dash.selected_room(), 2); // wraps backwards
    dash.prev_room();
    assert_eq!(dash.selected_room(), 1);
}

#[test]
fn test_select_room() {
    let config = mock_config(5);
    let mut dash = Dashboard::new(config);
    dash.select_room(3);
    assert_eq!(dash.selected_room(), 3);
    dash.select_room(99); // out of bounds, no change
    assert_eq!(dash.selected_room(), 3);
}

#[test]
fn test_running_state() {
    let config = mock_config(1);
    let mut dash = Dashboard::new(config);
    assert!(!dash.is_running());
    dash.set_running(true);
    assert!(dash.is_running());
}

#[test]
fn test_scroll() {
    let config = mock_config(1);
    let mut dash = Dashboard::new(config);
    dash.scroll_up();
    assert_eq!(dash.scroll_offset(), 1);
    dash.scroll_up();
    assert_eq!(dash.scroll_offset(), 2);
    dash.scroll_down();
    assert_eq!(dash.scroll_offset(), 1);
    dash.scroll_down();
    assert_eq!(dash.scroll_offset(), 0);
    dash.scroll_down(); // saturating
    assert_eq!(dash.scroll_offset(), 0);
}

fn selected_texts(dash: &Dashboard) -> (Vec<String>, Vec<String>) {
    match dash.rooms().get(dash.selected_room()) {
        Some(room) => (
            room.sensors.iter().map(|s| format!("{:.1}", f64::from_bits(s.value_bits))).collect(),
            room.sensors.iter().map(|_| "▁▃▆█ ↑ [20.0..22.5]".to_string()).collect(),
        ),
        None => (vec![], vec![]),
    }
}

#[test]
fn test_render_full() {
    let config = mock_config(3);
    let dash = Dashboard::new(config);
    let (r, t) = selected_texts(&dash);
    let output = dash.render_full(&r, &t);
    assert!(output.contains("PLATO DASHBOARD"));
    assert!(output.contains("Room-0"));
    assert!(output.contains("Fleet Overview"));
}

#[test]
fn test_empty_fleet() {
    let config = FleetConfig::new(vec![]);
    let dash = Dashboard::new(config);
    assert_eq!(dash.room_count(), 0);
    let (r, t) = selected_texts(&dash);
    let output = dash.render_full(&r, &t);
    assert!(output.contains("0 rooms"));
}

#[test]
fn render_full_layout() {
    let mut dash = Dashboard::new(mock_config(2));
    dash.next_room();
    let (r, t) = selected_texts(&dash);
    let output = dash.render_full(&r, &t);
    assert!(output.starts_with("\x1b[2J\x1b[H\x1b[36m ╔══ PLATO DASHBOARD ══╗ [2 rooms, 1Hz refresh]\x1b[0m\n"));
    assert!(output.contains("Room-1 (tick: 1000ms, age: 200ms)"));
    assert!(output.contains("22.5 °C"));
    assert!(output.contains("No active alarms"));
    assert!(output.ends_with("\x1b[34m [Tab] Next room  [Shift+Tab] Prev  [j/k] Scroll  [a] Ack  [q] Quit\x1b[0m\n Room 2/2"));
    let empty = Dashboard::new(FleetConfig::new(vec![]));
    assert!(empty.render_full(&[], &[]).ends_with(" Room 1/1"));
}

#[test]
fn empty_fleet_navigation_is_noop() {
    let mut dash = Dashboard::new(FleetConfig::new(vec![]));
    dash.next_room();
    dash.prev_room();
    dash.select_room(0);
    assert_eq!(dash.selected_room(), 0);
}

#[test]
fn prev_undoes_next_everywhere() {
    let mut dash = Dashboard::new(mock_config(4));
    for start in 0..4 {
        dash.select_room(start);
        dash.next_room();
        dash.prev_room();
        assert_eq!(dash.selected_room(), start);
        dash.prev_room();
        dash.next_room();
        assert_eq!(dash.selected_room(), start);
    }
}

#[test]
fn defaults_and_alarm_panel_access() {
    let mut dash = Dashboard::new(mock_config(2));
    assert_eq!(dash.refresh_rate_ms(), 1000);
    assert_eq!(dash.width(), 80);
    assert_eq!(dash.rooms().len(), 2);
    assert_eq!(dash.rooms()[1].name, "Room-1");
    assert_eq!(dash.alarm_panel().active_alarms().len(), 0);
    dash.alarm_panel_mut().add_alarm(AlarmEvent {
        id: 1,
        room_name: "Room-0".into(),
        sensor_name: "Temp".into(),
        severity: AlarmSeverity::Critical,
        message: "Overheat!".into(),
        timestamp_secs: 1000,
        acknowledged: false,
    });
    dash.alarm_panel_mut().acknowledge(1);
    dash.alarm_panel_mut().resolve(1);
    assert_eq!(dash.alarm_panel().active_alarms().len(), 0);
    assert_eq!(dash.alarm_panel().alarm_history().len(), 1);
    assert_eq!(dash.selected_room(), 0);
}

#[test]
fn clone_keeps_state() {
    let mut dash = Dashboard::new(mock_config(3));
    dash.next_room();
    dash.scroll_up();
    dash.set_running(true);
    let copy = dash.clone();
    assert_eq!(copy.selected_room(), 1);
    assert_eq!(copy.scroll_offset(), 1);
    assert!(copy.is_running());
    assert_eq!(copy.room_count(), 3);
}
