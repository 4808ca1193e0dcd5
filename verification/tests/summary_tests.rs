use plato_dashboard::summary::{critical_alert_count, format_unix_timestamp, rooms_with_status, stat_card};
use plato_dashboard::{
    AlertSummary, Dashboard, DashboardConfig, FigureTexts, FleetSummary, RoomStatus, RoomSummary, RoomType, Severity,
};

fn sample_rooms() -> Vec<RoomSummary> {
    vec![
        RoomSummary::new("Engine", RoomType::Engine, RoomStatus::Warning, 89.1f64.to_bits(), 0.72f64.to_bits(), 5),
        RoomSummary::new("Bridge", RoomType::Bridge, RoomStatus::Nominal, 98.4f64.to_bits(), 0.95f64.to_bits(), 2),
        RoomSummary::new("Galley", RoomType::Galley, RoomStatus::Nominal, 97.2f64.to_bits(), 0.91f64.to_bits(), 3),
        RoomSummary::new("Hold", RoomType::Hold, RoomStatus::Critical, 45.3f64.to_bits(), 0.34f64.to_bits(), 12),
    ]
}

fn sample_alerts() -> Vec<AlertSummary> {
    vec![
        AlertSummary::new("Engine", "overheat", "Engine temp above threshold", Severity::Warning, 1000),
        AlertSummary::new("Hold", "pressure", "Hold pressure critical", Severity::Critical, 1005),
        AlertSummary::new("Bridge", "info", "Navigation update available", Severity::Info, 1010),
    ]
}

/// The mean autonomy and mean health of the rooms, as bit patterns.
fn average_bits(rooms: &[RoomSummary]) -> (u64, u64) {
    if rooms.is_empty() {
        return (0.0f64.to_bits(), 0.0f64.to_bits());
    }
    let n = rooms.len() as f64;
    let a: f64 = rooms.iter().map(|r| f64::from_bits(r.autonomy_pct_bits)).sum::<f64>() / n;
    let h: f64 = rooms.iter().map(|r| f64::from_bits(r.health_score_bits)).sum::<f64>() / n;
    (a.to_bits(), h.to_bits())
}

fn build(config: &DashboardConfig, rooms: Vec<RoomSummary>, alerts: Vec<AlertSummary>, ts: u64) -> Dashboard {
    let (a, h) = average_bits(&rooms);
    Dashboard::new(config, rooms, alerts, ts, a, h)
}

fn texts(d: &Dashboard) -> FigureTexts {
    FigureTexts {
        fleet_autonomy: format!("{:.1}", f64::from_bits(d.fleet_summary.fleet_autonomy_pct_bits)),
        avg_health: format!("{:.2}", f64::from_bits(d.fleet_summary.avg_health_bits)),
        room_autonomy: d.rooms.iter().map(|r| format!("{:.1}", f64::from_bits(r.autonomy_pct_bits))).collect(),
        room_health: d.rooms.iter().map(|r| format!("{:.2}", f64::from_bits(r.health_score_bits))).collect(),
    }
}

fn sample_dashboard() -> Dashboard {
    let config = DashboardConfig::new("F/V AURORA");
    build(&config, sample_rooms(), sample_alerts(), 45000)
}

#[test]
fn dashboard_construction() {
    let d = sample_dashboard();
    assert_eq!(d.fleet_name, "F/V AURORA");
    assert_eq!(d.rooms.len(), 4);
    assert_eq!(d.active_alerts.len(), 3);
    assert_eq!(d.timestamp, 45000);
}

#[test]
fn fleet_summary_counts() {
    let d = sample_dashboard();
    let s = &d.fleet_summary;
    assert_eq!(s.total_rooms, 4);
    assert_eq!(s.rooms_ok, 2);
    assert_eq!(s.rooms_warning, 1);
    assert_eq!(s.rooms_critical, 1);
    assert_eq!(s.rooms_offline, 0);
}

#[test]
fn fleet_summary_total_alerts() {
    let d = sample_dashboard();
    assert_eq!(d.fleet_summary.total_alerts, 3);
}

#[test]
fn render_text_contains_table() {
    let d = sample_dashboard();
    let text = d.render_text(&texts(&d));
    assert!(text.contains("╔"));
    assert!(text.contains("╚"));
    assert!(text.contains("Engine"));
    assert!(text.contains("Bridge"));
}

#[test]
fn render_text_shows_fleet_name() {
    let d = sample_dashboard();
    let text = d.render_text(&texts(&d));
    assert!(text.contains("F/V AURORA"));
}

#[test]
fn render_text_shows_status_icons() {
    let d = sample_dashboard();
    let text = d.render_text(&texts(&d));
    assert!(text.contains("⚠"));
    assert!(text.contains("✅"));
    assert!(text.contains("🔴"));
}

#[test]
fn render_html_valid_structure() {
    let d = sample_dashboard();
    let html = d.render_html(&texts(&d));
    assert!(html.starts_with("<!DOCTYPE html>"));
    assert!(html.contains("</html>"));
    assert!(html.contains("<table>"));
    assert!(html.contains("</table>"));
}

#[test]
fn render_html_dark_theme() {
    let d = sample_dashboard();
    let html = d.render_html(&texts(&d));
    assert!(html.contains("background:#0d1117"));
    assert!(html.contains("color:#c9d1d9"));
}

#[test]
fn render_html_contains_rooms() {
    let d = sample_dashboard();
    let html = d.render_html(&texts(&d));
    assert!(html.contains("Engine"));
    assert!(html.contains("Bridge"));
    assert!(html.contains("Galley"));
    assert!(html.contains("Hold"));
}

#[test]
fn render_html_contains_alerts_table() {
    let d = sample_dashboard();
    let html = d.render_html(&texts(&d));
    assert!(html.contains("Active Alerts"));
    assert!(html.contains("overheat"));
}

#[test]
fn all_rooms_critical() {
    let rooms = vec![
        RoomSummary::new("R1", RoomType::Engine, RoomStatus::Critical, 10.0f64.to_bits(), 0.1f64.to_bits(), 60),
        RoomSummary::new("R2", RoomType::Hold, RoomStatus::Critical, 5.0f64.to_bits(), 0.05f64.to_bits(), 120),
    ];
    let config = DashboardConfig::new("Doomed");
    let d = build(&config, rooms, vec![], 0);
    assert_eq!(d.fleet_summary.rooms_critical, 2);
    assert_eq!(d.fleet_summary.rooms_ok, 0);
    assert!(f64::from_bits(d.fleet_summary.avg_health_bits) < 0.2);
}

#[test]
fn no_alerts() {
    let config = DashboardConfig::new("Quiet");
    let rooms = vec![RoomSummary::new("R1", RoomType::Bridge, RoomStatus::Nominal, 99.0f64.to_bits(), 0.99f64.to_bits(), 1)];
    let d = build(&config, rooms, vec![], 0);
    assert_eq!(d.active_alerts.len(), 0);
    assert_eq!(d.fleet_summary.total_alerts, 0);
    let html = d.render_html(&texts(&d));
    assert!(!html.contains("Active Alerts"));
}

#[test]
fn single_room() {
    let config = DashboardConfig::new("Solo");
    let rooms = vec![RoomSummary::new("Only", RoomType::Other("Custom".into()), RoomStatus::Nominal, 100.0f64.to_bits(), 1.0f64.to_bits(), 0)];
    let d = build(&config, rooms, vec![], 0);
    assert_eq!(d.fleet_summary.total_rooms, 1);
    assert_eq!(d.fleet_summary.rooms_ok, 1);
    assert!((f64::from_bits(d.fleet_summary.fleet_autonomy_pct_bits) - 100.0).abs() < 0.01);
}

#[test]
fn render_text_exact_rows() {
    let d = sample_dashboard();
    let text = d.render_text(&texts(&d));
    assert!(text.starts_with(&format!("╔{}╗\n", "═".repeat(50))));
    assert!(text.contains("║  Engine    ║ ⚠ WARN   ║     89.1%  ║        0.72 ║\n"));
    assert!(text.contains("║  Bridge    ║ ✅ OK     ║     98.4%  ║        0.95 ║\n"));
    assert!(text.contains("Alerts: 3 (1 CRIT)"));
    assert!(text.contains("12:30:00"));
    assert!(text.ends_with("╚════════════╩═══════════╩═══════════╩═════════════╝\n"));
    assert_eq!(text.lines().count(), 8 + 4);
}

#[test]
fn render_html_exact_rows() {
    let d = sample_dashboard();
    let html = d.render_html(&texts(&d));
    assert!(html.contains("<tr><td>Hold</td><td class=\"crit\">🔴 CRIT</td><td>45.3%</td><td>0.34</td><td>12s ago</td><td>0</td></tr>\n"));
    assert!(html.contains("<tr><td>Engine</td><td>overheat</td><td class=\"warn\">⚠️ WARN</td><td>Engine temp above threshold</td><td>❌</td></tr>\n"));
    assert!(html.contains("<div class=\"label\">Rooms</div><div class=\"value\">2 OK / 1 WARN / 1 CRIT / 0 OFF</div>"));
    assert!(html.contains("<div class=\"label\">Total Alerts</div><div class=\"value\">3 (1 CRIT)</div>"));
    assert!(html.contains("<title>F/V AURORA — Fleet Dashboard</title>"));
    assert!(html.ends_with("</table>\n</body>\n</html>\n"));
}

#[test]
fn from_rooms_passes_averages_through() {
    let rooms = sample_rooms();
    let s = FleetSummary::from_rooms(&rooms, 7, 1.5f64.to_bits(), 0.25f64.to_bits());
    assert_eq!((s.total_rooms, s.total_alerts), (4, 7));
    assert_eq!(f64::from_bits(s.fleet_autonomy_pct_bits), 1.5);
    assert_eq!(f64::from_bits(s.avg_health_bits), 0.25);
    assert_eq!(s.rooms_ok + s.rooms_warning + s.rooms_critical + s.rooms_offline, s.total_rooms);
}

#[test]
fn alert_creation() {
    let a = AlertSummary::new("R1", "fire", "Fire detected", Severity::Emergency, 42);
    assert_eq!(a.room_id, "R1");
    assert_eq!(a.alert_type, "fire");
    assert!(!a.acknowledged);
}

#[test]
fn alert_acknowledge() {
    let mut a = AlertSummary::new("R1", "test", "msg", Severity::Info, 0);
    assert!(!a.acknowledged);
    a.acknowledge();
    assert!(a.acknowledged);
}

#[test]
fn severity_ordering() {
    assert!(Severity::Info < Severity::Warning);
    assert!(Severity::Warning < Severity::Critical);
    assert!(Severity::Critical < Severity::Emergency);
}

#[test]
fn alert_severity_sort() {
    let mut d = sample_dashboard();
    d.sort_alerts_by_severity();
    assert_eq!(d.active_alerts[0].severity, Severity::Critical);
    assert_eq!(d.active_alerts[1].severity, Severity::Warning);
    assert_eq!(d.active_alerts[2].severity, Severity::Info);
}

#[test]
fn config_valid_default() {
    assert!(DashboardConfig::default().validate().is_ok());
}

#[test]
fn config_rejects_empty_name() {
    let mut c = DashboardConfig::default();
    c.fleet_name = "  ".into();
    assert!(c.validate().is_err());
}

#[test]
fn config_rejects_zero_refresh() {
    let mut c = DashboardConfig::default();
    c.refresh_interval_secs = 0;
    assert!(c.validate().is_err());
}

#[test]
fn config_error_messages() {
    let mut c = DashboardConfig::new("\t\u{3000}\n");
    assert_eq!(c.validate(), Err("fleet_name must not be empty".to_string()));
    c.fleet_name = String::new();
    assert_eq!(c.validate(), Err("fleet_name must not be empty".to_string()));
    c.fleet_name = " x ".into();
    assert_eq!(c.validate(), Ok(()));
    c.refresh_interval_secs = 0;
    c.alert_ttl_secs = 0;
    assert_eq!(c.validate(), Err("refresh_interval_secs must be > 0".to_string()));
    c.refresh_interval_secs = 1;
    assert_eq!(c.validate(), Err("alert_ttl_secs must be > 0".to_string()));
    let d = DashboardConfig::default();
    assert_eq!((d.fleet_name.as_str(), d.refresh_interval_secs, d.alert_ttl_secs), ("F/V AURORA", 30, 3600));
    let n = DashboardConfig::new("Solo");
    assert_eq!((n.fleet_name.as_str(), n.refresh_interval_secs, n.alert_ttl_secs), ("Solo", 30, 3600));
}

#[test]
fn sort_is_stable_and_keeps_every_alert() {
    let alerts = vec![
        AlertSummary::new("A", "t", "m", Severity::Info, 1),
        AlertSummary::new("B", "t", "m", Severity::Emergency, 2),
        AlertSummary::new("C", "t", "m", Severity::Info, 3),
        AlertSummary::new("D", "t", "m", Severity::Critical, 4),
        AlertSummary::new("E", "t", "m", Severity::Emergency, 5),
    ];
    let mut d = build(&DashboardConfig::default(), vec![], alerts, 0);
    d.sort_alerts_by_severity();
    let order: Vec<&str> = d.active_alerts.iter().map(|a| a.room_id.as_str()).collect();
    assert_eq!(order, vec!["B", "E", "D", "A", "C"]);
    assert_eq!(d.fleet_summary.total_alerts, 5);
    let mut none = build(&DashboardConfig::default(), vec![], vec![], 0);
    none.sort_alerts_by_severity();
    assert!(none.active_alerts.is_empty());
}

#[test]
fn critical_alerts_counted() {
    let mut alerts = sample_alerts();
    assert_eq!(critical_alert_count(&alerts), 1);
    alerts.push(AlertSummary::new("X", "fire", "Fire", Severity::Emergency, 9));
    assert_eq!(critical_alert_count(&alerts), 2);
    assert_eq!(critical_alert_count(&[]), 0);
}

#[test]
fn status_counts_add_up() {
    let mut rooms = sample_rooms();
    rooms.push(RoomSummary::new("Lab", RoomType::Other("Custom".into()), RoomStatus::Offline, 0, 0, 0));
    let total: usize = [RoomStatus::Nominal, RoomStatus::Warning, RoomStatus::Critical, RoomStatus::Offline]
        .iter()
        .map(|s| rooms_with_status(&rooms, *s))
        .sum();
    assert_eq!(total, rooms.len());
    assert_eq!(rooms[4].active_alerts, 0);
    assert_eq!(f64::from_bits(rooms[0].autonomy_pct_bits), 89.1);
}

#[test]
fn timestamps_format_as_clock_time() {
    assert_eq!(format_unix_timestamp(45000), "12:30:00");
    assert_eq!(format_unix_timestamp(67423), "18:43:43");
    assert_eq!(format_unix_timestamp(0), "00:00:00");
    assert_eq!(format_unix_timestamp(86399), "23:59:59");
    assert_eq!(format_unix_timestamp(86400 + 61), "00:01:01");
    assert_eq!(format_unix_timestamp(u64::MAX).len(), 8);
}

#[test]
fn stat_card_markup() {
    assert_eq!(
        stat_card("Rooms", "2 OK"),
        "<div class=\"stat\"><div class=\"label\">Rooms</div><div class=\"value\">2 OK</div></div>\n"
    );
}

#[test]
fn icons_and_labels() {
    assert_eq!(Severity::Info.icon(), "ℹ️");
    assert_eq!(Severity::Warning.icon(), "⚠️");
    assert_eq!(Severity::Critical.icon(), "🔴");
    assert_eq!(Severity::Emergency.icon(), "🚨");
    assert_eq!(Severity::Info.label(), "INFO");
    assert_eq!(Severity::Warning.label(), "WARN");
    assert_eq!(Severity::Critical.label(), "CRIT");
    assert_eq!(Severity::Emergency.label(), "EMRG");
    assert_eq!(RoomStatus::Nominal.icon(), "✅");
    assert_eq!(RoomStatus::Warning.icon(), "⚠");
    assert_eq!(RoomStatus::Critical.icon(), "🔴");
    assert_eq!(RoomStatus::Offline.icon(), "⬛");
    assert_eq!(RoomStatus::Nominal.label(), "OK");
    assert_eq!(RoomStatus::Warning.label(), "WARN");
    assert_eq!(RoomStatus::Critical.label(), "CRIT");
    assert_eq!(RoomStatus::Offline.label(), "OFF");
}
