use plato_dashboard::render::Color;
use plato_dashboard::{AlarmSeverity, RoomPanel, RoomState, SensorReading};

fn mock_room(name: &str, online: bool) -> RoomState {
    RoomState {
        name: name.to_string(),
        tick_rate_ms: 1000,
        last_tick_age_ms: 200,
        sensors: vec![
            SensorReading {
                name: "Temp".to_string(),
                value_bits: 22.5f64.to_bits(),
                unit: "°C".to_string(),
                alarm: AlarmSeverity::Clear,
            },
            SensorReading {
                name: "Humidity".to_string(),
                value_bits: 45.0f64.to_bits(),
                unit: "%".to_string(),
                alarm: AlarmSeverity::Clear,
            },
        ],
        history_bits: vec![
            vec![20.0f64.to_bits(), 21.0f64.to_bits(), 22.0f64.to_bits(), 22.5f64.to_bits()],
            vec![40.0f64.to_bits(), 42.0f64.to_bits(), 44.0f64.to_bits(), 45.0f64.to_bits()],
        ],
        online,
    }
}

#[test]
fn test_create_from_mock_state() {
    let state = mock_room("Engine Room", true);
    let panel = RoomPanel::new(state);
    assert_eq!(panel.state().name, "Engine Room");
    assert_eq!(panel.state().sensors.len(), 2);
}

#[test]
fn test_alarm_indicators() {
    let mut state = mock_room("Lab", true);
    state.sensors[0].alarm = AlarmSeverity::Warning;
    let panel = RoomPanel::new(state);
    let indicators = panel.alarm_indicators();
    assert_eq!(indicators[0].1, AlarmSeverity::Warning);
    assert_eq!(indicators[1].1, AlarmSeverity::Clear);
}

#[test]
fn test_has_alarms() {
    let clear_state = mock_room("A", true);
    let panel_clear = RoomPanel::new(clear_state);
    assert!(!panel_clear.has_alarms());

    let mut alarm_state = mock_room("B", true);
    alarm_state.sensors[0].alarm = AlarmSeverity::Critical;
    let panel_alarm = RoomPanel::new(alarm_state);
    assert!(panel_alarm.has_alarms());
}

#[test]
fn test_highest_alarm() {
    let mut state = mock_room("C", true);
    state.sensors[0].alarm = AlarmSeverity::Warning;
    state.sensors[1].alarm = AlarmSeverity::Critical;
    let panel = RoomPanel::new(state);
    assert_eq!(panel.highest_alarm(), AlarmSeverity::Critical);
}

fn readings(state: &RoomState) -> Vec<String> {
    state.sensors.iter().map(|s| format!("{:.1}", f64::from_bits(s.value_bits))).collect()
}

fn trends(state: &RoomState) -> Vec<String> {
    state.sensors.iter().map(|s| format!("trend of {}", s.name)).collect()
}

#[test]
fn test_sensor_display() {
    let state = mock_room("Bridge", true);
    let panel = RoomPanel::new(state);
    let display = panel.sensor_display(&readings(panel.state()));
    assert_eq!(display.len(), 2);
    assert!(display[0].contains("Temp"));
    assert!(display[0].contains("22.5"));
    assert!(display[1].contains("45.0"));
}

#[test]
fn test_render_produces_lines() {
    let state = mock_room("D", true);
    let panel = RoomPanel::new(state);
    let lines = panel.render(60, &readings(panel.state()), &trends(panel.state()));
    assert!(!lines.is_empty());
    // First line should start with top-left box char
    assert!(lines[0].starts_with('┌'));
}

#[test]
fn test_offline_room() {
    let state = mock_room("Offline", false);
    let panel = RoomPanel::new(state);
    assert!(!panel.state().online);
    let lines = panel.render(60, &readings(panel.state()), &trends(panel.state()));
    assert!(!lines.is_empty());
}

#[test]
fn room_render_exact_lines() {
    let mut state = mock_room("Lab", false);
    state.sensors[1].alarm = AlarmSeverity::Warning;
    state.history_bits[1].clear();
    let panel = RoomPanel::new(state);
    let lines = panel.render(40, &readings(panel.state()), &trends(panel.state()));
    assert_eq!(
        lines,
        vec![
            "┌ ○ Lab (tick: 1000ms, age: 200ms)     ┐",
            "│ 🟢 Temp  22.5 °C                      │",
            "│   trend of Temp                      │",
            "│ 🟡 Humidity  45.0 %                   │",
            "└──────────────────────────────────────┘",
        ]
    );
}

#[test]
fn sensor_display_exact() {
    let panel = RoomPanel::new(mock_room("Z", true));
    let texts = vec!["1.5".to_string(), "x".to_string()];
    assert_eq!(panel.sensor_display(&texts), vec!["Temp: 1.5 °C", "Humidity: x %"]);
}

#[test]
fn alarm_indicators_keep_names_in_order() {
    let panel = RoomPanel::new(mock_room("D", true));
    let indicators = panel.alarm_indicators();
    assert_eq!(
        indicators,
        vec![("Temp".to_string(), AlarmSeverity::Clear), ("Humidity".to_string(), AlarmSeverity::Clear)]
    );
}

#[test]
fn highest_alarm_agrees_with_has_alarms() {
    for (a, b) in [
        (AlarmSeverity::Clear, AlarmSeverity::Clear),
        (AlarmSeverity::Clear, AlarmSeverity::Warning),
        (AlarmSeverity::Warning, AlarmSeverity::Clear),
        (AlarmSeverity::Critical, AlarmSeverity::Warning),
    ] {
        let mut state = mock_room("E", true);
        state.sensors[0].alarm = a;
        state.sensors[1].alarm = b;
        let panel = RoomPanel::new(state);
        assert_eq!(panel.has_alarms(), panel.highest_alarm() != AlarmSeverity::Clear);
    }
    let mut empty = mock_room("F", true);
    empty.sensors.clear();
    let panel = RoomPanel::new(empty);
    assert_eq!(panel.highest_alarm(), AlarmSeverity::Clear);
    assert!(!panel.has_alarms());
}

#[test]
fn severity_emoji_and_color() {
    assert_eq!(AlarmSeverity::Clear.emoji(), "🟢");
    assert_eq!(AlarmSeverity::Warning.emoji(), "🟡");
    assert_eq!(AlarmSeverity::Critical.emoji(), "🔴");
    assert_eq!(AlarmSeverity::Clear.color().fg_code(), Color::Green.fg_code());
    assert_eq!(AlarmSeverity::Warning.color().fg_code(), Color::Yellow.fg_code());
    assert_eq!(AlarmSeverity::Critical.color().fg_code(), Color::Red.fg_code());
}

#[test]
fn readings_carried_bit_for_bit() {
    let panel = RoomPanel::new(mock_room("G", false));
    assert_eq!(f64::from_bits(panel.state().sensors[0].value_bits), 22.5);
    assert_eq!(f64::from_bits(panel.state().history_bits[1][3]), 45.0);
    assert!(!panel.state().online);
}
