use plato_dashboard::render::Color;
use plato_dashboard::{AlarmSeverity, FleetHealth, FleetPanel, RoomState, SensorReading};

fn make_room(name: &str, online: bool, alarms: Vec<AlarmSeverity>) -> RoomState {
    let sensors: Vec<SensorReading> = alarms
        .into_iter()
        .enumerate()
        .map(|(i, alarm)| SensorReading {
            name: format!("S{}", i),
            value_bits: (10.0 + i as f64).to_bits(),
            unit: "°C".to_string(),
            alarm,
        })
        .collect();
    RoomState {
        name: name.to_string(),
        tick_rate_ms: 1000,
        last_tick_age_ms: 200,
        sensors,
        history_bits: vec![],
        online,
    }
}

#[test]
fn test_one_room_healthy() {
    let room = make_room("A", true, vec![AlarmSeverity::Clear]);
    let panel = FleetPanel::new(vec![room.clone()]);
    assert_eq!(FleetPanel::room_health(&room), FleetHealth::Green);
    assert_eq!(panel.aggregate_health(), FleetHealth::Green);
}

#[test]
fn test_one_room_with_warning() {
    let room = make_room("B", true, vec![AlarmSeverity::Warning]);
    let panel = FleetPanel::new(vec![room.clone()]);
    assert_eq!(FleetPanel::room_health(&room), FleetHealth::Yellow);
    assert_eq!(panel.aggregate_health(), FleetHealth::Yellow);
}

#[test]
fn test_one_room_with_alarm() {
    let room = make_room("C", true, vec![AlarmSeverity::Warning, AlarmSeverity::Clear]);
    let panel = FleetPanel::new(vec![room.clone()]);
    assert_eq!(FleetPanel::room_health(&room), FleetHealth::Yellow);
    assert_eq!(panel.aggregate_health(), FleetHealth::Yellow);
}

#[test]
fn test_one_room_offline() {
    let room = make_room("D", false, vec![]);
    let panel = FleetPanel::new(vec![room.clone()]);
    assert_eq!(FleetPanel::room_health(&room), FleetHealth::Red);
    assert_eq!(panel.aggregate_health(), FleetHealth::Red);
}

#[test]
fn test_aggregate_health() {
    let rooms = vec![
        make_room("A", true, vec![AlarmSeverity::Clear]),
        make_room("B", true, vec![AlarmSeverity::Warning]),
    ];
    let panel = FleetPanel::new(rooms);
    assert_eq!(panel.aggregate_health(), FleetHealth::Yellow);
}

#[test]
fn test_aggregate_all_green() {
    let rooms = vec![
        make_room("A", true, vec![AlarmSeverity::Clear]),
        make_room("B", true, vec![AlarmSeverity::Clear]),
    ];
    let panel = FleetPanel::new(rooms);
    assert_eq!(panel.aggregate_health(), FleetHealth::Green);
}

#[test]
fn test_aggregate_one_red() {
    let rooms = vec![
        make_room("A", true, vec![AlarmSeverity::Clear]),
        make_room("B", false, vec![]),
    ];
    let panel = FleetPanel::new(rooms);
    assert_eq!(panel.aggregate_health(), FleetHealth::Red);
}

#[test]
fn test_stats() {
    let rooms = vec![
        make_room("A", true, vec![AlarmSeverity::Clear, AlarmSeverity::Warning]),
        make_room("B", true, vec![AlarmSeverity::Clear]),
    ];
    let panel = FleetPanel::new(rooms);
    let stats = panel.stats();
    assert_eq!(stats.total_rooms, 2);
    assert_eq!(stats.total_sensors, 3);
    assert_eq!(stats.total_alarms, 1);
    assert_eq!(stats.health, FleetHealth::Yellow);
}

#[test]
fn fleet_panel_test_render() {
    let rooms = vec![make_room("A", true, vec![AlarmSeverity::Clear])];
    let panel = FleetPanel::new(rooms);
    let lines = panel.render(70);
    assert!(!lines.is_empty());
    assert!(lines[0].starts_with('┌'));
}

#[test]
fn fleet_render_exact_lines() {
    let rooms = vec![
        make_room("Engine", true, vec![AlarmSeverity::Critical, AlarmSeverity::Warning]),
        make_room("Hold", false, vec![AlarmSeverity::Clear]),
    ];
    let panel = FleetPanel::new(rooms);
    let lines = panel.render(64);
    let expected = vec![
        "┌ Fleet Overview                                               ┐",
        "│ Room                 Health     Alarms     Last Tick         │",
        "├──────────────────────────────────────────────────────────────┤",
        "│ Engine               CRITICAL   2          200ms             │",
        "│ Hold                 CRITICAL   0          OFFLINE           │",
        "├──────────────────────────────────────────────────────────────┤",
        "│ 🔴 CRITICAL | 2 rooms, 3 sensors, 2 alarms                    │",
        "└──────────────────────────────────────────────────────────────┘",
    ];
    assert_eq!(lines, expected);
}

#[test]
fn empty_fleet_is_green() {
    let panel = FleetPanel::new(vec![]);
    assert_eq!(panel.aggregate_health(), FleetHealth::Green);
    let stats = panel.stats();
    assert_eq!((stats.total_rooms, stats.total_sensors, stats.total_alarms, stats.uptime_seconds), (0, 0, 0, 0));
}

#[test]
fn critical_sensor_outranks_warning_in_room() {
    let room = make_room("X", true, vec![AlarmSeverity::Warning, AlarmSeverity::Critical]);
    assert_eq!(FleetPanel::room_health(&room), FleetHealth::Red);
}

#[test]
fn adding_a_room_never_improves_health() {
    let mut rooms = vec![make_room("A", true, vec![AlarmSeverity::Warning])];
    let before = FleetPanel::new(rooms.clone()).aggregate_health();
    rooms.push(make_room("B", true, vec![AlarmSeverity::Clear]));
    let after = FleetPanel::new(rooms).aggregate_health();
    assert_eq!(before, FleetHealth::Yellow);
    assert_eq!(after, FleetHealth::Yellow);
}

#[test]
fn alarms_never_exceed_sensors() {
    let rooms = vec![
        make_room("A", true, vec![AlarmSeverity::Critical, AlarmSeverity::Critical]),
        make_room("B", false, vec![AlarmSeverity::Warning]),
    ];
    let stats = FleetPanel::new(rooms).stats();
    assert_eq!(stats.total_alarms, 3);
    assert!(stats.total_alarms <= stats.total_sensors);
    assert_eq!(stats.health, FleetHealth::Red);
}

#[test]
fn health_labels_emoji_colors() {
    assert_eq!(FleetHealth::Green.label(), "HEALTHY");
    assert_eq!(FleetHealth::Yellow.label(), "DEGRADED");
    assert_eq!(FleetHealth::Red.label(), "CRITICAL");
    assert_eq!(FleetHealth::Green.emoji(), "🟢");
    assert_eq!(FleetHealth::Yellow.emoji(), "🟡");
    assert_eq!(FleetHealth::Red.emoji(), "🔴");
    assert_eq!(FleetHealth::Green.color().fg_code(), Color::Green.fg_code());
    assert_eq!(FleetHealth::Yellow.color().fg_code(), Color::Yellow.fg_code());
    assert_eq!(FleetHealth::Red.color().fg_code(), Color::Red.fg_code());
}

#[test]
fn single_room_fleet_stats_line() {
    let rooms = vec![RoomState {
        name: "A".into(),
        tick_rate_ms: 1000,
        last_tick_age_ms: 100,
        sensors: vec![SensorReading {
            name: "S".into(),
            value_bits: 10.0f64.to_bits(),
            unit: "°C".into(),
            alarm: AlarmSeverity::Clear,
        }],
        history_bits: vec![],
        online: true,
    }];
    let fleet = FleetPanel::new(rooms);
    let stats = fleet.stats();
    let line = format!(
        "Fleet: {} rooms, {} sensors, health: {}",
        stats.total_rooms,
        stats.total_sensors,
        stats.health.label()
    );
    assert_eq!(line, "Fleet: 1 rooms, 1 sensors, health: HEALTHY");
}
