//! FleetPanel: fleet overview with one line per room and aggregate health.

use vstd::prelude::*;
use crate::render::box_drawing as bd;
use crate::render::{framed, push_framed, Color};
use crate::room_panel::{
    alarm_rank, highest_alarm_spec, lemma_highest_alarm_bounds, same_room, some_sensor_at, AlarmSeverity,
    RoomState, SensorReading,
};
use crate::text::{
    dec, left_align, pad_spec, push_decimal, push_left_aligned, push_padded, push_repeat, push_str,
    repeat_seq, views,
};

verus! {

/// Fleet health status.
#[derive(Debug, Clone, Copy, PartialEq, Eq, Structural)]
pub enum FleetHealth {
    Green,
    Yellow,
    Red,
}

/// The emoji of a health status.
pub open spec fn health_emoji_spec(h: FleetHealth) -> Seq<char> {
    match h {
        FleetHealth::Green => "🟢"@,
        FleetHealth::Yellow => "🟡"@,
        FleetHealth::Red => "🔴"@,
    }
}

/// The display color of a health status.
pub open spec fn health_color_spec(h: FleetHealth) -> Color {
    match h {
        FleetHealth::Green => Color::Green,
        FleetHealth::Yellow => Color::Yellow,
        FleetHealth::Red => Color::Red,
    }
}

/// The label of a health status.
pub open spec fn health_label_spec(h: FleetHealth) -> Seq<char> {
    match h {
        FleetHealth::Green => "HEALTHY"@,
        FleetHealth::Yellow => "DEGRADED"@,
        FleetHealth::Red => "CRITICAL"@,
    }
}

/// The place of a health status in the order Green < Yellow < Red.
pub open spec fn health_rank(h: FleetHealth) -> nat {
    match h {
        FleetHealth::Green => 0,
        FleetHealth::Yellow => 1,
        FleetHealth::Red => 2,
    }
}

impl FleetHealth {
    pub fn emoji(&self) -> (r: &'static str)
        ensures
            r@ == health_emoji_spec(*self),
    {
        match self {
            FleetHealth::Green => "🟢",
            FleetHealth::Yellow => "🟡",
            FleetHealth::Red => "🔴",
        }
    }

    pub fn color(&self) -> (r: Color)
        ensures
            r == health_color_spec(*self),
    {
        match self {
            FleetHealth::Green => Color::Green,
            FleetHealth::Yellow => Color::Yellow,
            FleetHealth::Red => Color::Red,
        }
    }

    pub fn label(&self) -> (r: &'static str)
        ensures
            r@ == health_label_spec(*self),
    {
        match self {
            FleetHealth::Green => "HEALTHY",
            FleetHealth::Yellow => "DEGRADED",
            FleetHealth::Red => "CRITICAL",
        }
    }
}

/// The health of one room: an offline room or one with a critical sensor is
/// red, one with a warning sensor is yellow, any other is green.
pub open spec fn room_health_spec(room: RoomState) -> FleetHealth {
    if !room.online {
        FleetHealth::Red
    } else if some_sensor_at(room.sensors@, AlarmSeverity::Critical) {
        FleetHealth::Red
    } else if some_sensor_at(room.sensors@, AlarmSeverity::Warning) {
        FleetHealth::Yellow
    } else {
        FleetHealth::Green
    }
}

/// Some room of the fleet has the given health.
pub open spec fn some_room_with_health(rooms: Seq<RoomState>, h: FleetHealth) -> bool {
    exists|i: int| 0 <= i < rooms.len() && room_health_spec(#[trigger] rooms[i]) == h
}

/// The health of the fleet: the worst health of its rooms, green for no rooms.
pub open spec fn aggregate_health_spec(rooms: Seq<RoomState>) -> FleetHealth {
    if some_room_with_health(rooms, FleetHealth::Red) {
        FleetHealth::Red
    } else if some_room_with_health(rooms, FleetHealth::Yellow) {
        FleetHealth::Yellow
    } else {
        FleetHealth::Green
    }
}

/// The number of sensors of the sequence whose alarm is not clear.
pub open spec fn alarmed_count(sensors: Seq<SensorReading>) -> nat
    decreases sensors.len(),
{
    if sensors.len() == 0 {
        0
    } else {
        alarmed_count(sensors.drop_last()) + if sensors.last().alarm != AlarmSeverity::Clear {
            1nat
        } else {
            0nat
        }
    }
}

/// The number of sensors over all rooms.
pub open spec fn sensor_total(rooms: Seq<RoomState>) -> nat
    decreases rooms.len(),
{
    if rooms.len() == 0 {
        0
    } else {
        sensor_total(rooms.drop_last()) + rooms.last().sensors@.len()
    }
}

/// The number of sensors in alarm over all rooms.
pub open spec fn alarm_total(rooms: Seq<RoomState>) -> nat
    decreases rooms.len(),
{
    if rooms.len() == 0 {
        0
    } else {
        alarm_total(rooms.drop_last()) + alarmed_count(rooms.last().sensors@)
    }
}

/// No more sensors are in alarm than there are sensors.
pub proof fn lemma_alarmed_count_bound(sensors: Seq<SensorReading>)
    ensures
        alarmed_count(sensors) <= sensors.len(),
    decreases sensors.len(),
{
    if sensors.len() > 0 {
        lemma_alarmed_count_bound(sensors.drop_last());
    }
}

/// Over a whole fleet, no more sensors are in alarm than there are sensors.
pub proof fn lemma_alarm_total_bound(rooms: Seq<RoomState>)
    ensures
        alarm_total(rooms) <= sensor_total(rooms),
    decreases rooms.len(),
{
    if rooms.len() > 0 {
        lemma_alarm_total_bound(rooms.drop_last());
        lemma_alarmed_count_bound(rooms.last().sensors@);
    }
}

/// Fleet-wide summary statistics.
#[derive(Debug)]
pub struct FleetStats {
    pub total_rooms: usize,
    pub total_sensors: usize,
    pub total_alarms: usize,
    pub uptime_seconds: u64,
    pub health: FleetHealth,
}

impl Clone for FleetStats {
    fn clone(&self) -> (r: Self)
        ensures
            r == *self,
    {
        FleetStats {
            total_rooms: self.total_rooms,
            total_sensors: self.total_sensors,
            total_alarms: self.total_alarms,
            uptime_seconds: self.uptime_seconds,
            health: self.health,
        }
    }
}

/// A panel showing the fleet overview.
#[derive(Debug)]
pub struct FleetPanel {
    rooms: Vec<RoomState>,
}

impl View for FleetPanel {
    type V = Seq<RoomState>;

    closed spec fn view(&self) -> Seq<RoomState> {
        self.rooms@
    }
}

impl Clone for FleetPanel {
    fn clone(&self) -> (r: Self)
        ensures
            r@.len() == self@.len(),
            forall|i: int| 0 <= i < r@.len() ==> same_room(#[trigger] r@[i], self@[i]),
    {
        FleetPanel { rooms: self.rooms.clone() }
    }
}

/// The text of a room's "Last Tick" column.
pub open spec fn age_text(room: RoomState) -> Seq<char> {
    if room.online {
        dec(room.last_tick_age_ms as nat) + "ms"@
    } else {
        "OFFLINE"@
    }
}

/// The row text of one room.
pub open spec fn room_row_spec(room: RoomState) -> Seq<char> {
    " "@ + left_align(room.name@, 20) + " "@ + left_align(health_label_spec(room_health_spec(room)), 10)
        + " "@ + left_align(dec(alarmed_count(room.sensors@)), 10) + " "@ + left_align(age_text(room), 12)
}

/// The column header text of the panel.
pub open spec fn fleet_header_spec() -> Seq<char> {
    " "@ + left_align("Room"@, 20) + " "@ + left_align("Health"@, 10) + " "@ + left_align("Alarms"@, 10)
        + " "@ + left_align("Last Tick"@, 12)
}

/// The aggregate line text of the panel.
pub open spec fn fleet_summary_line_spec(rooms: Seq<RoomState>) -> Seq<char> {
    let h = aggregate_health_spec(rooms);
    " "@ + health_emoji_spec(h) + " "@ + health_label_spec(h) + " | "@ + dec(rooms.len()) + " rooms, "@
        + dec(sensor_total(rooms)) + " sensors, "@ + dec(alarm_total(rooms)) + " alarms"@
}

/// The lines of a rendered fleet panel `width` columns wide.
pub open spec fn fleet_panel_lines(rooms: Seq<RoomState>, width: nat) -> Seq<Seq<char>> {
    let inner = if width >= 2 { (width - 2) as nat } else { 0nat };
    let sep = seq![bd::T_RIGHT] + repeat_seq(bd::HORIZONTAL, inner) + seq![bd::T_LEFT];
    seq![
        seq![bd::TOP_LEFT] + pad_spec(" Fleet Overview "@, inner) + seq![bd::TOP_RIGHT],
        framed(fleet_header_spec(), inner),
        sep,
    ] + rooms.map_values(|r: RoomState| framed(room_row_spec(r), inner)) + seq![
        sep,
        framed(fleet_summary_line_spec(rooms), inner),
        seq![bd::BOTTOM_LEFT] + repeat_seq(bd::HORIZONTAL, inner) + seq![bd::BOTTOM_RIGHT],
    ]
}

/// The number of sensors of a room in alarm.
fn count_alarmed(sensors: &Vec<SensorReading>) -> (r: usize)
    ensures
        r == alarmed_count(sensors@),
{
    let n = sensors.len();
    let mut count: usize = 0;
    let mut i: usize = 0;
    while i < n
        invariant
            i <= n,
            n == sensors@.len(),
            count == alarmed_count(sensors@.take(i as int)),
            count <= i,
        decreases n - i,
    {
        assert(sensors@.take(i + 1).drop_last() =~= sensors@.take(i as int));
        if sensors[i].alarm != AlarmSeverity::Clear {
            count = count + 1;
        }
        i = i + 1;
    }
    assert(sensors@.take(n as int) =~= sensors@);
    count
}

/// Whether some sensor has the given level.
fn has_level(sensors: &Vec<SensorReading>, level: AlarmSeverity) -> (r: bool)
    ensures
        r == some_sensor_at(sensors@, level),
{
    let n = sensors.len();
    let mut i: usize = 0;
    while i < n
        invariant
            i <= n,
            n == sensors@.len(),
            forall|j: int| 0 <= j < i ==> (#[trigger] sensors@[j]).alarm != level,
        decreases n - i,
    {
        if sensors[i].alarm == level {
            return true;
        }
        i = i + 1;
    }
    false
}

impl FleetPanel {
    /// Create a new fleet panel from room states.
    pub fn new(rooms: Vec<RoomState>) -> (r: Self)
        ensures
            r@ == rooms@,
    {
        Self { rooms }
    }

    /// Compute the health of a single room based on its state.
    pub fn room_health(room: &RoomState) -> (r: FleetHealth)
        ensures
            r == room_health_spec(*room),
    {
        if !room.online {
            return FleetHealth::Red;
        }
        if has_level(&room.sensors, AlarmSeverity::Critical) {
            return FleetHealth::Red;
        }
        if has_level(&room.sensors, AlarmSeverity::Warning) {
            return FleetHealth::Yellow;
        }
        FleetHealth::Green
    }


    /// Compute the aggregate fleet health.
    pub fn aggregate_health(&self) -> (r: FleetHealth)
        ensures
            r == aggregate_health_spec(self@),
    {
        aggregate_of(self.rooms.as_slice())
    }

    /// Compute fleet-wide statistics. The sensor total must fit in a `usize`.
    pub fn stats(&self) -> (r: FleetStats)
        requires
            sensor_total(self@) <= usize::MAX,
        ensures
            r.total_rooms == self@.len(),
            r.total_sensors == sensor_total(self@),
            r.total_alarms == alarm_total(self@),
            r.uptime_seconds == 0,
            r.health == aggregate_health_spec(self@),
    {
        stats_of(self.rooms.as_slice())
    }

    /// Render the fleet panel as lines. The sensor total must fit in a `usize`.
    pub fn render(&self, width: usize) -> (lines: Vec<String>)
        requires
            sensor_total(self@) <= usize::MAX,
        ensures
            views(lines@) == fleet_panel_lines(self@, width as nat),
    {
        fleet_lines(self.rooms.as_slice(), width)
    }
}

/// The aggregate health of a fleet.
pub(crate) fn aggregate_of(fleet: &[RoomState]) -> (r: FleetHealth)
    ensures
        r == aggregate_health_spec(fleet@),
{
    let n = fleet.len();
    let mut any_red = false;
    let mut any_yellow = false;
    let mut i: usize = 0;
    while i < n
        invariant
            i <= n,
            n == fleet@.len(),
            fleet@ == fleet@,
            any_red == exists|j: int| 0 <= j < i && room_health_spec(#[trigger] fleet@[j]) == FleetHealth::Red,
            any_yellow == exists|j: int| 0 <= j < i && room_health_spec(#[trigger] fleet@[j]) == FleetHealth::Yellow,
        decreases n - i,
    {
        let h = FleetPanel::room_health(&fleet[i]);
        if h == FleetHealth::Red {
            any_red = true;
        } else if h == FleetHealth::Yellow {
            any_yellow = true;
        }
        i = i + 1;
    }
    if any_red {
        FleetHealth::Red
    } else if any_yellow {
        FleetHealth::Yellow
    } else {
        FleetHealth::Green
    }
}

/// Fleet-wide statistics. The sensor total must fit in a `usize`.
pub(crate) fn stats_of(fleet: &[RoomState]) -> (r: FleetStats)
    requires
        sensor_total(fleet@) <= usize::MAX,
    ensures
        r.total_rooms == fleet@.len(),
        r.total_sensors == sensor_total(fleet@),
        r.total_alarms == alarm_total(fleet@),
        r.uptime_seconds == 0,
        r.health == aggregate_health_spec(fleet@),
{
    let n = fleet.len();
    let mut total_sensors: usize = 0;
    let mut total_alarms: usize = 0;
    let mut i: usize = 0;
    while i < n
        invariant
            i <= n,
            n == fleet@.len(),
            fleet@ == fleet@,
            sensor_total(fleet@) <= usize::MAX,
            total_sensors == sensor_total(fleet@.take(i as int)),
            total_alarms == alarm_total(fleet@.take(i as int)),
        decreases n - i,
    {
        let ghost prefix = fleet@.take(i + 1);
        assert(prefix.drop_last() =~= fleet@.take(i as int));
        proof {
            lemma_sensor_total_prefix(fleet@, i + 1);
            lemma_alarm_total_bound(prefix);
        }
        total_sensors = total_sensors + fleet[i].sensors.len();
        total_alarms = total_alarms + count_alarmed(&fleet[i].sensors);
        i = i + 1;
    }
    assert(fleet@.take(n as int) =~= fleet@);
    FleetStats {
        total_rooms: n,
        total_sensors,
        total_alarms,
        uptime_seconds: 0,
        health: aggregate_of(fleet),
    }
}

/// The lines of the fleet panel. The sensor total must fit in a `usize`.
pub(crate) fn fleet_lines(fleet: &[RoomState], width: usize) -> (lines: Vec<String>)
    requires
        sensor_total(fleet@) <= usize::MAX,
    ensures
        views(lines@) == fleet_panel_lines(fleet@, width as nat),
{
    let inner = width.saturating_sub(2);
    let ghost inner_n: nat = if width >= 2 { (width - 2) as nat } else { 0nat };
    let ghost rooms = fleet@;
    let ghost sep_spec = seq![bd::T_RIGHT] + repeat_seq(bd::HORIZONTAL, inner_n) + seq![bd::T_LEFT];
    let mut lines: Vec<String> = Vec::new();

    // Title
    let mut top = String::new();
    top.push(bd::TOP_LEFT);
    push_padded(&mut top, " Fleet Overview ", inner);
    top.push(bd::TOP_RIGHT);
    assert(top@ =~= seq![bd::TOP_LEFT] + pad_spec(" Fleet Overview "@, inner_n) + seq![bd::TOP_RIGHT]);
    lines.push(top);

    // Header
    let mut header = String::from_str(" ");
    push_left_aligned(&mut header, "Room", 20);
    push_str(&mut header, " ");
    push_left_aligned(&mut header, "Health", 10);
    push_str(&mut header, " ");
    push_left_aligned(&mut header, "Alarms", 10);
    push_str(&mut header, " ");
    push_left_aligned(&mut header, "Last Tick", 12);
    assert(header@ =~= fleet_header_spec());
    let mut header_row = String::new();
    push_framed(&mut header_row, header.as_str(), inner);
    let ghost b1 = lines@;
    lines.push(header_row);
    assert(views(lines@) =~= views(b1).push(header_row@));

    // Separator
    let mut sep = String::new();
    sep.push(bd::T_RIGHT);
    push_repeat(&mut sep, bd::HORIZONTAL, inner);
    sep.push(bd::T_LEFT);
    assert(sep@ =~= sep_spec);
    let ghost b2 = lines@;
    lines.push(sep);
    assert(views(lines@) =~= views(b2).push(sep_spec));
    let ghost head = views(lines@);

    // One line per room
    let n = fleet.len();
    let mut i: usize = 0;
    while i < n
        invariant
            i <= n,
            n == rooms.len(),
            rooms == fleet@,
            rooms == fleet@,
            inner == inner_n,
            views(lines@) =~= head + rooms.take(i as int).map_values(
                |r: RoomState| framed(room_row_spec(r), inner_n),
            ),
        decreases n - i,
    {
        let room = &fleet[i];
        let health = FleetPanel::room_health(room);
        let alarm_count = count_alarmed(&room.sensors);
        let mut count_text = String::new();
        push_decimal(&mut count_text, alarm_count as u64);
        let mut age_str = String::new();
        if room.online {
            push_decimal(&mut age_str, room.last_tick_age_ms);
            push_str(&mut age_str, "ms");
        } else {
            push_str(&mut age_str, "OFFLINE");
            assert(age_str@ =~= "OFFLINE"@);
        }
        let mut row = String::from_str(" ");
        push_left_aligned(&mut row, room.name.as_str(), 20);
        push_str(&mut row, " ");
        push_left_aligned(&mut row, health.label(), 10);
        push_str(&mut row, " ");
        push_left_aligned(&mut row, count_text.as_str(), 10);
        push_str(&mut row, " ");
        push_left_aligned(&mut row, age_str.as_str(), 12);
        assert(count_text@ =~= dec(alarmed_count(room.sensors@)));
        assert(age_str@ =~= age_text(*room));
        assert(row@ =~= room_row_spec(rooms[i as int]));
        let mut framed_row = String::new();
        push_framed(&mut framed_row, row.as_str(), inner);
        let ghost before = lines@;
        lines.push(framed_row);
        assert(views(lines@) =~= views(before).push(framed_row@));
        assert(rooms.take(i + 1) =~= rooms.take(i as int).push(rooms[i as int]));
        i = i + 1;
    }
    assert(rooms.take(n as int) =~= rooms);
    let ghost body = views(lines@);

    // Separator
    let mut sep2 = String::new();
    sep2.push(bd::T_RIGHT);
    push_repeat(&mut sep2, bd::HORIZONTAL, inner);
    sep2.push(bd::T_LEFT);
    assert(sep2@ =~= sep_spec);
    lines.push(sep2);

    // Aggregate stats
    let stats = stats_of(fleet);
    let mut agg = String::from_str(" ");
    push_str(&mut agg, stats.health.emoji());
    push_str(&mut agg, " ");
    push_str(&mut agg, stats.health.label());
    push_str(&mut agg, " | ");
    push_decimal(&mut agg, stats.total_rooms as u64);
    push_str(&mut agg, " rooms, ");
    push_decimal(&mut agg, stats.total_sensors as u64);
    push_str(&mut agg, " sensors, ");
    push_decimal(&mut agg, stats.total_alarms as u64);
    push_str(&mut agg, " alarms");
    assert(agg@ =~= fleet_summary_line_spec(rooms));
    let mut agg_row = String::new();
    push_framed(&mut agg_row, agg.as_str(), inner);
    lines.push(agg_row);

    // Bottom
    let mut bottom = String::new();
    bottom.push(bd::BOTTOM_LEFT);
    push_repeat(&mut bottom, bd::HORIZONTAL, inner);
    bottom.push(bd::BOTTOM_RIGHT);
    assert(bottom@ =~= seq![bd::BOTTOM_LEFT] + repeat_seq(bd::HORIZONTAL, inner_n) + seq![bd::BOTTOM_RIGHT]);
    lines.push(bottom);
    assert(views(lines@) =~= body + seq![sep_spec, agg_row@, bottom@]);
    assert(views(lines@) =~= fleet_panel_lines(rooms, width as nat));
    lines
}

/// A prefix of a fleet has no more sensors than the whole fleet.
proof fn lemma_sensor_total_prefix(rooms: Seq<RoomState>, k: int)
    requires
        0 <= k <= rooms.len(),
    ensures
        sensor_total(rooms.take(k)) <= sensor_total(rooms),
    decreases rooms.len(),
{
    if k < rooms.len() {
        assert(rooms.drop_last().take(k) =~= rooms.take(k));
        lemma_sensor_total_prefix(rooms.drop_last(), k);
    } else {
        assert(rooms.take(k) =~= rooms);
    }
}

/// The fleet is as healthy as its sickest room: no room is worse than the
/// aggregate, some room is exactly as bad (when there are rooms), and an
/// empty fleet is green.
pub proof fn aggregate_is_worst_room(rooms: Seq<RoomState>)
    ensures
        forall|i: int| 0 <= i < rooms.len() ==> health_rank(room_health_spec(#[trigger] rooms[i]))
            <= health_rank(aggregate_health_spec(rooms)),
        rooms.len() > 0 ==> exists|i: int| 0 <= i < rooms.len() && room_health_spec(#[trigger] rooms[i])
            == aggregate_health_spec(rooms),
        rooms.len() == 0 ==> aggregate_health_spec(rooms) == FleetHealth::Green,
{
    if rooms.len() > 0 && !some_room_with_health(rooms, FleetHealth::Red) && !some_room_with_health(
        rooms,
        FleetHealth::Yellow,
    ) {
        assert(room_health_spec(rooms[0]) == FleetHealth::Green);
    }
}

/// Adding a room never makes the fleet healthier.
pub proof fn adding_room_never_improves_health(rooms: Seq<RoomState>, room: RoomState)
    ensures
        health_rank(aggregate_health_spec(rooms.push(room))) >= health_rank(aggregate_health_spec(rooms)),
        health_rank(aggregate_health_spec(rooms.push(room))) >= health_rank(room_health_spec(room)),
{
    let more = rooms.push(room);
    if some_room_with_health(rooms, FleetHealth::Red) {
        let i = choose|i: int| 0 <= i < rooms.len() && room_health_spec(#[trigger] rooms[i]) == FleetHealth::Red;
        assert(more[i] == rooms[i]);
    } else if some_room_with_health(rooms, FleetHealth::Yellow) {
        let i = choose|i: int| 0 <= i < rooms.len() && room_health_spec(#[trigger] rooms[i]) == FleetHealth::Yellow;
        assert(more[i] == rooms[i]);
    }
    assert(more[rooms.len() as int] == room);
}

/// The fleet colour of a sensor alarm level.
pub open spec fn health_of_alarm(a: AlarmSeverity) -> FleetHealth {
    match a {
        AlarmSeverity::Clear => FleetHealth::Green,
        AlarmSeverity::Warning => FleetHealth::Yellow,
        AlarmSeverity::Critical => FleetHealth::Red,
    }
}

/// An online room's health is the colour of its worst sensor alarm, so
/// `FleetPanel::room_health` and `RoomPanel::highest_alarm` agree; an
/// offline room is red whatever its sensors say.
pub proof fn room_health_follows_worst_alarm(room: RoomState)
    ensures
        room.online ==> room_health_spec(room) == health_of_alarm(highest_alarm_spec(room.sensors@)),
        !room.online ==> room_health_spec(room) == FleetHealth::Red,
{
    let s = room.sensors@;
    lemma_highest_alarm_bounds(s);
    if some_sensor_at(s, AlarmSeverity::Critical) {
        let i = choose|i: int| 0 <= i < s.len() && #[trigger] s[i].alarm == AlarmSeverity::Critical;
        assert(alarm_rank(s[i].alarm) <= alarm_rank(highest_alarm_spec(s)));
    } else if some_sensor_at(s, AlarmSeverity::Warning) {
        let i = choose|i: int| 0 <= i < s.len() && #[trigger] s[i].alarm == AlarmSeverity::Warning;
        assert(alarm_rank(s[i].alarm) <= alarm_rank(highest_alarm_spec(s)));
        if highest_alarm_spec(s) == AlarmSeverity::Critical {
            let k = choose|k: int| 0 <= k < s.len() && #[trigger] s[k].alarm == highest_alarm_spec(s);
            assert(some_sensor_at(s, AlarmSeverity::Critical));
        }
    } else {
        if highest_alarm_spec(s) != AlarmSeverity::Clear {
            let k = choose|k: int| 0 <= k < s.len() && #[trigger] s[k].alarm == highest_alarm_spec(s);
            if highest_alarm_spec(s) == AlarmSeverity::Critical {
                assert(some_sensor_at(s, AlarmSeverity::Critical));
            } else {
                assert(some_sensor_at(s, AlarmSeverity::Warning));
            }
        }
    }
}

} // verus!
