//! Fleet dashboard rendering: alarm lifecycle, fleet health roll-up, room
//! navigation and the box-drawn terminal panels built from them.
//!
//! Sensor readings and the other measured quantities are carried as the bit
//! patterns of IEEE-754 binary64 numbers; the library moves them along and
//! never interprets them.

pub mod text;
pub mod render;
pub mod room_panel;
pub mod alarm_panel;
pub mod fleet_panel;
pub mod dashboard;
pub mod summary;

pub use alarm_panel::{AlarmEvent, AlarmPanel};
pub use dashboard::FleetConfig;
pub use fleet_panel::{FleetHealth, FleetPanel, FleetStats};
pub use render::{Color, Render};
pub use room_panel::{AlarmSeverity, RoomPanel, RoomState, SensorReading};
pub use summary::{
    critical_alert_count, format_unix_timestamp, rooms_with_status, Dashboard, FigureTexts, FleetSummary,
    stat_card, AlertSummary, DashboardConfig, RoomStatus, RoomSummary, RoomType, Severity,
};
