//! A single room: its sensors, their alarm levels, and the room's worst alarm.

use vstd::prelude::*;
use crate::render::box_drawing as bd;
use crate::render::{framed, inner_width, push_framed, Color};
use crate::text::{dec, pad_spec, push_decimal, push_padded, push_repeat, push_str, repeat_seq, views};

verus! {

/// Severity level for alarms.
#[derive(Debug, Clone, Copy, PartialEq, Eq, Structural)]
pub enum AlarmSeverity {
    Clear,
    Warning,
    Critical,
}

/// The emoji indicator of a severity.
pub open spec fn alarm_emoji_spec(s: AlarmSeverity) -> Seq<char> {
    match s {
        AlarmSeverity::Clear => "🟢"@,
        AlarmSeverity::Warning => "🟡"@,
        AlarmSeverity::Critical => "🔴"@,
    }
}

/// The display color of a severity.
pub open spec fn alarm_color_spec(s: AlarmSeverity) -> Color {
    match s {
        AlarmSeverity::Clear => Color::Green,
        AlarmSeverity::Warning => Color::Yellow,
        AlarmSeverity::Critical => Color::Red,
    }
}

/// The place of a severity in the order Clear < Warning < Critical.
pub open spec fn alarm_rank(s: AlarmSeverity) -> nat {
    match s {
        AlarmSeverity::Clear => 0,
        AlarmSeverity::Warning => 1,
        AlarmSeverity::Critical => 2,
    }
}

/// The more severe of two severities.
pub open spec fn alarm_max(a: AlarmSeverity, b: AlarmSeverity) -> AlarmSeverity {
    if alarm_rank(b) >= alarm_rank(a) { b } else { a }
}

impl AlarmSeverity {
    /// Return the emoji indicator for this severity.
    pub fn emoji(&self) -> (r: &'static str)
        ensures
            r@ == alarm_emoji_spec(*self),
    {
        match self {
            AlarmSeverity::Clear => "🟢",
            AlarmSeverity::Warning => "🟡",
            AlarmSeverity::Critical => "🔴",
        }
    }

    /// Return the display color for this severity.
    pub fn color(&self) -> (r: Color)
        ensures
            r == alarm_color_spec(*self),
    {
        match self {
            AlarmSeverity::Clear => Color::Green,
            AlarmSeverity::Warning => Color::Yellow,
            AlarmSeverity::Critical => Color::Red,
        }
    }
}

/// A single sensor reading. The reading itself is carried as the bit
/// pattern of an IEEE-754 binary64 number; nothing here interprets it.
#[derive(Debug)]
pub struct SensorReading {
    pub name: String,
    pub value_bits: u64,
    pub unit: String,
    pub alarm: AlarmSeverity,
}

/// The state of a single room. Each history series is a sequence of
/// IEEE-754 binary64 bit patterns, one series per sensor.
#[derive(Debug)]
pub struct RoomState {
    pub name: String,
    pub tick_rate_ms: u64,
    pub last_tick_age_ms: u64,
    pub sensors: Vec<SensorReading>,
    pub history_bits: Vec<Vec<u64>>,
    pub online: bool,
}

impl Clone for SensorReading {
    fn clone(&self) -> (r: Self)
        ensures
            r == *self,
    {
        SensorReading {
            name: self.name.clone(),
            value_bits: self.value_bits,
            unit: self.unit.clone(),
            alarm: self.alarm,
        }
    }
}

/// Two room states hold the same values: equal fields, equal sensors, and
/// history series with equal contents.
pub open spec fn same_room(a: RoomState, b: RoomState) -> bool {
    &&& a.name == b.name
    &&& a.tick_rate_ms == b.tick_rate_ms
    &&& a.last_tick_age_ms == b.last_tick_age_ms
    &&& a.sensors@ == b.sensors@
    &&& a.history_bits@.len() == b.history_bits@.len()
    &&& forall|i: int| 0 <= i < a.history_bits@.len() ==> (#[trigger] a.history_bits@[i])@ == b.history_bits@[i]@
    &&& a.online == b.online
}

impl Clone for RoomState {
    fn clone(&self) -> (r: Self)
        ensures
            same_room(r, *self),
    {
        let sensors = self.sensors.clone();
        assert(sensors@ =~= self.sensors@);
        let history_bits = self.history_bits.clone();
        assert forall|i: int| 0 <= i < history_bits@.len() implies (#[trigger] history_bits@[i])@
            == self.history_bits@[i]@ by {
            assert(history_bits@[i]@ =~= self.history_bits@[i]@);
        }
        RoomState {
            name: self.name.clone(),
            tick_rate_ms: self.tick_rate_ms,
            last_tick_age_ms: self.last_tick_age_ms,
            sensors,
            history_bits,
            online: self.online,
        }
    }
}

/// Whether some sensor of the sequence has the given alarm level.
pub open spec fn some_sensor_at(sensors: Seq<SensorReading>, level: AlarmSeverity) -> bool {
    exists|i: int| 0 <= i < sensors.len() && #[trigger] sensors[i].alarm == level
}

/// Whether some sensor of the sequence is in alarm (not clear).
pub open spec fn some_sensor_alarmed(sensors: Seq<SensorReading>) -> bool {
    exists|i: int| 0 <= i < sensors.len() && #[trigger] sensors[i].alarm != AlarmSeverity::Clear
}

/// The most severe alarm level among the sensors, `Clear` when there are none.
pub open spec fn highest_alarm_spec(sensors: Seq<SensorReading>) -> AlarmSeverity
    decreases sensors.len(),
{
    if sensors.len() == 0 {
        AlarmSeverity::Clear
    } else {
        alarm_max(highest_alarm_spec(sensors.drop_last()), sensors.last().alarm)
    }
}

/// The worst level is at least as severe as each sensor's level, and is the
/// level of some sensor (or `Clear` for no sensors).
pub proof fn lemma_highest_alarm_bounds(sensors: Seq<SensorReading>)
    ensures
        forall|i: int| 0 <= i < sensors.len() ==> alarm_rank(#[trigger] sensors[i].alarm)
            <= alarm_rank(highest_alarm_spec(sensors)),
        highest_alarm_spec(sensors) == AlarmSeverity::Clear || exists|i: int|
            0 <= i < sensors.len() && #[trigger] sensors[i].alarm == highest_alarm_spec(sensors),
    decreases sensors.len(),
{
    if sensors.len() > 0 {
        let rest = sensors.drop_last();
        lemma_highest_alarm_bounds(rest);
        assert forall|i: int| 0 <= i < sensors.len() implies alarm_rank(#[trigger] sensors[i].alarm)
            <= alarm_rank(highest_alarm_spec(sensors)) by {
            if i < sensors.len() - 1 {
                assert(sensors[i] == rest[i]);
            }
        }
        if highest_alarm_spec(sensors) != AlarmSeverity::Clear {
            if highest_alarm_spec(sensors) == sensors.last().alarm {
                assert(sensors[sensors.len() - 1].alarm == highest_alarm_spec(sensors));
            } else {
                let k = choose|k: int| 0 <= k < rest.len() && #[trigger] rest[k].alarm == highest_alarm_spec(rest);
                assert(sensors[k] == rest[k]);
            }
        }
    }
}


/// The title text of a room panel: online marker, name, tick rate and age.
pub open spec fn room_title_spec(room: RoomState) -> Seq<char> {
    " "@ + (if room.online { "●"@ } else { "○"@ }) + " "@ + room.name@ + " (tick: "@ + dec(
        room.tick_rate_ms as nat,
    ) + "ms, age: "@ + dec(room.last_tick_age_ms as nat) + "ms) "@
}

/// The row text of a sensor, given the display text of its reading.
pub open spec fn sensor_line_spec(s: SensorReading, reading: Seq<char>) -> Seq<char> {
    " "@ + alarm_emoji_spec(s.alarm) + " "@ + s.name@ + "  "@ + reading + " "@ + s.unit@
}

/// Whether the sensor at position `i` has a non-empty history series.
pub open spec fn has_trend(room: RoomState, i: int) -> bool {
    0 <= i < room.history_bits@.len() && room.history_bits@[i]@.len() > 0
}

/// The rows of the first `n` sensors: each sensor's row, followed by its
/// trend row when it has a history series.
pub open spec fn sensor_rows(
    room: RoomState,
    readings: Seq<Seq<char>>,
    trends: Seq<Seq<char>>,
    inner: nat,
    n: nat,
) -> Seq<Seq<char>>
    decreases n,
{
    if n == 0 {
        Seq::empty()
    } else {
        let i = n - 1;
        sensor_rows(room, readings, trends, inner, (n - 1) as nat) + seq![
            framed(sensor_line_spec(room.sensors@[i], readings[i]), inner),
        ] + if has_trend(room, i) {
            seq![framed("   "@ + trends[i], inner)]
        } else {
            Seq::empty()
        }
    }
}

/// The lines of a rendered room panel `width` columns wide, given the display
/// text of each sensor's reading and of each sensor's trend (sparkline, trend
/// arrow and range).
pub open spec fn room_panel_lines(
    room: RoomState,
    width: nat,
    readings: Seq<Seq<char>>,
    trends: Seq<Seq<char>>,
) -> Seq<Seq<char>> {
    let inner = inner_width(width);
    seq![seq![bd::TOP_LEFT] + pad_spec(room_title_spec(room), inner) + seq![bd::TOP_RIGHT]]
        + sensor_rows(room, readings, trends, inner, room.sensors@.len()) + seq![
        seq![bd::BOTTOM_LEFT] + repeat_seq(bd::HORIZONTAL, inner) + seq![bd::BOTTOM_RIGHT],
    ]
}

/// The display line of a sensor: `name: reading unit`.
pub open spec fn sensor_display_spec(s: SensorReading, reading: Seq<char>) -> Seq<char> {
    s.name@ + ": "@ + reading + " "@ + s.unit@
}

/// A panel that renders a single room's status.
#[derive(Debug)]
pub struct RoomPanel {
    state: RoomState,
}

impl Clone for RoomPanel {
    fn clone(&self) -> (r: Self)
        ensures
            same_room(r@, self@),
    {
        RoomPanel { state: self.state.clone() }
    }
}

impl View for RoomPanel {
    type V = RoomState;

    closed spec fn view(&self) -> RoomState {
        self.state
    }
}

impl RoomPanel {
    /// Create a new room panel from the given room state.
    pub fn new(state: RoomState) -> (r: Self)
        ensures
            r@ == state,
    {
        Self { state }
    }

    /// Get a reference to the room state.
    pub fn state(&self) -> (r: &RoomState)
        ensures
            *r == self@,
    {
        &self.state
    }

    /// Render the room panel as a vector of lines, given for each sensor the
    /// display text of its reading and of its trend; a trend is shown only
    /// for sensors with a non-empty history series.
    pub fn render(&self, width: usize, readings: &[String], trends: &[String]) -> (lines: Vec<String>)
        requires
            readings@.len() == self@.sensors@.len(),
            trends@.len() == self@.sensors@.len(),
        ensures
            views(lines@) == room_panel_lines(self@, width as nat, views(readings@), views(trends@)),
    {
        room_lines(&self.state, width, readings, trends)
    }

    /// Get formatted sensor display strings, `name: reading unit`, given the
    /// display text of each sensor's reading.
    pub fn sensor_display(&self, readings: &[String]) -> (r: Vec<String>)
        requires
            readings@.len() == self@.sensors@.len(),
        ensures
            r@.len() == self@.sensors@.len(),
            forall|i: int| 0 <= i < r@.len() ==> (#[trigger] r@[i])@ == sensor_display_spec(
                self@.sensors@[i],
                readings@[i]@,
            ),
    {
        let mut out: Vec<String> = Vec::new();
        let n = self.state.sensors.len();
        let mut i: usize = 0;
        while i < n
            invariant
                i <= n,
                n == self@.sensors@.len(),
                readings@.len() == n,
                self@ == self.state,
                out@.len() == i,
                forall|j: int| 0 <= j < i ==> (#[trigger] out@[j])@ == sensor_display_spec(
                    self@.sensors@[j],
                    readings@[j]@,
                ),
            decreases n - i,
        {
            let s = &self.state.sensors[i];
            let mut line = String::from_str(s.name.as_str());
            push_str(&mut line, ": ");
            push_str(&mut line, readings[i].as_str());
            push_str(&mut line, " ");
            push_str(&mut line, s.unit.as_str());
            out.push(line);
            i = i + 1;
        }
        out
    }

    /// Get the current alarm indicators for all sensors: each sensor's name
    /// with its alarm level, in sensor order.
    pub fn alarm_indicators(&self) -> (r: Vec<(String, AlarmSeverity)>)
        ensures
            r@.len() == self@.sensors@.len(),
            forall|i: int| 0 <= i < r@.len() ==> (#[trigger] r@[i]).0@ == self@.sensors@[i].name@
                && r@[i].1 == self@.sensors@[i].alarm,
    {
        let mut out: Vec<(String, AlarmSeverity)> = Vec::new();
        let n = self.state.sensors.len();
        let mut i: usize = 0;
        while i < n
            invariant
                i <= n,
                n == self@.sensors@.len(),
                self@ == self.state,
                out@.len() == i,
                forall|j: int| 0 <= j < i ==> (#[trigger] out@[j]).0@ == self@.sensors@[j].name@
                    && out@[j].1 == self@.sensors@[j].alarm,
            decreases n - i,
        {
            let s = &self.state.sensors[i];
            out.push((s.name.clone(), s.alarm));
            i = i + 1;
        }
        out
    }

    /// Check if room has any active alarms.
    pub fn has_alarms(&self) -> (r: bool)
        ensures
            r == some_sensor_alarmed(self@.sensors@),
    {
        let n = self.state.sensors.len();
        let mut i: usize = 0;
        while i < n
            invariant
                i <= n,
                n == self@.sensors@.len(),
                self@ == self.state,
                forall|j: int| 0 <= j < i ==> (#[trigger] self@.sensors@[j]).alarm == AlarmSeverity::Clear,
            decreases n - i,
        {
            if self.state.sensors[i].alarm != AlarmSeverity::Clear {
                return true;
            }
            i = i + 1;
        }
        false
    }

    /// Get the highest alarm severity in the room.
    pub fn highest_alarm(&self) -> (r: AlarmSeverity)
        ensures
            r == highest_alarm_spec(self@.sensors@),
    {
        let n = self.state.sensors.len();
        let mut best = AlarmSeverity::Clear;
        let mut i: usize = 0;
        while i < n
            invariant
                i <= n,
                n == self@.sensors@.len(),
                self@ == self.state,
                best == highest_alarm_spec(self@.sensors@.take(i as int)),
            decreases n - i,
        {
            let a = self.state.sensors[i].alarm;
            let better = match (best, a) {
                (_, AlarmSeverity::Critical) => true,
                (AlarmSeverity::Critical, _) => false,
                (_, AlarmSeverity::Warning) => true,
                (AlarmSeverity::Warning, _) => false,
                _ => true,
            };
            if better {
                best = a;
            }
            assert(self@.sensors@.take(i + 1).drop_last() =~= self@.sensors@.take(i as int));
            i = i + 1;
        }
        assert(self@.sensors@.take(n as int) =~= self@.sensors@);
        best
    }
}

/// The lines of a room's panel, given for each sensor the
/// display text of its reading and of its trend; a trend is shown only
/// for sensors with a non-empty history series.
pub(crate) fn room_lines(state: &RoomState, width: usize, readings: &[String], trends: &[String]) -> (lines: Vec<String>)
    requires
        readings@.len() == state.sensors@.len(),
        trends@.len() == state.sensors@.len(),
    ensures
        views(lines@) == room_panel_lines(*state, width as nat, views(readings@), views(trends@)),
{
    let inner = width.saturating_sub(2);
    let ghost inner_n = inner_width(width as nat);
    let ghost room = *state;
    let ghost rs = views(readings@);
    let ghost ts = views(trends@);
    let mut lines: Vec<String> = Vec::new();

    // Title bar
    let mut title = String::from_str(" ");
    push_str(&mut title, if state.online { "●" } else { "○" });
    push_str(&mut title, " ");
    push_str(&mut title, state.name.as_str());
    push_str(&mut title, " (tick: ");
    push_decimal(&mut title, state.tick_rate_ms);
    push_str(&mut title, "ms, age: ");
    push_decimal(&mut title, state.last_tick_age_ms);
    push_str(&mut title, "ms) ");
    assert(title@ =~= room_title_spec(room));
    let mut top = String::new();
    top.push(bd::TOP_LEFT);
    push_padded(&mut top, title.as_str(), inner);
    top.push(bd::TOP_RIGHT);
    assert(inner == inner_n);
    assert(top@ =~= seq![bd::TOP_LEFT] + pad_spec(room_title_spec(room), inner_n) + seq![bd::TOP_RIGHT]);
    lines.push(top);
    let ghost head = views(lines@);
    assert(head =~= seq![seq![bd::TOP_LEFT] + pad_spec(room_title_spec(room), inner_n) + seq![bd::TOP_RIGHT]]);

    // Sensor readings
    let n = state.sensors.len();
    let mut i: usize = 0;
    while i < n
        invariant
            i <= n,
            n == room.sensors@.len(),
            *state == room,
            readings@.len() == n,
            trends@.len() == n,
            rs == views(readings@),
            ts == views(trends@),
            inner == inner_n,
            views(lines@) =~= head + sensor_rows(room, rs, ts, inner_n, i as nat),
        decreases n - i,
    {
        let sensor = &state.sensors[i];
        let mut line = String::from_str(" ");
        push_str(&mut line, sensor.alarm.emoji());
        push_str(&mut line, " ");
        push_str(&mut line, sensor.name.as_str());
        push_str(&mut line, "  ");
        push_str(&mut line, readings[i].as_str());
        push_str(&mut line, " ");
        push_str(&mut line, sensor.unit.as_str());
        assert(line@ =~= sensor_line_spec(room.sensors@[i as int], rs[i as int]));
        let mut row = String::new();
        push_framed(&mut row, line.as_str(), inner);
        let ghost before = lines@;
        lines.push(row);
        assert(views(lines@) =~= views(before).push(row@));

        // Trend line for this sensor if history available
        if i < state.history_bits.len() && state.history_bits[i].len() > 0 {
            let mut trend = String::from_str("   ");
            push_str(&mut trend, trends[i].as_str());
            let mut trend_row = String::new();
            push_framed(&mut trend_row, trend.as_str(), inner);
            let ghost before2 = lines@;
            lines.push(trend_row);
            assert(views(lines@) =~= views(before2).push(trend_row@));
        }
        i = i + 1;
    }

    // Bottom border
    let mut bottom = String::new();
    bottom.push(bd::BOTTOM_LEFT);
    push_repeat(&mut bottom, bd::HORIZONTAL, inner);
    bottom.push(bd::BOTTOM_RIGHT);
    assert(bottom@ =~= seq![bd::BOTTOM_LEFT] + repeat_seq(bd::HORIZONTAL, inner_n) + seq![bd::BOTTOM_RIGHT]);
    let ghost before3 = lines@;
    lines.push(bottom);
    assert(views(lines@) =~= views(before3).push(bottom@));
    assert(views(lines@) =~= room_panel_lines(room, width as nat, rs, ts));
    lines
}

/// A room is in alarm exactly when its worst sensor level is not `Clear`:
/// `has_alarms` and `highest_alarm` always agree.
pub proof fn has_alarms_iff_highest_not_clear(panel: RoomPanel)
    ensures
        some_sensor_alarmed(panel@.sensors@) <==> highest_alarm_spec(panel@.sensors@)
            != AlarmSeverity::Clear,
{
    lemma_highest_alarm_bounds(panel@.sensors@);
    if some_sensor_alarmed(panel@.sensors@) {
        let i = choose|i: int| 0 <= i < panel@.sensors@.len() && #[trigger] panel@.sensors@[i].alarm
            != AlarmSeverity::Clear;
        assert(alarm_rank(panel@.sensors@[i].alarm) <= alarm_rank(highest_alarm_spec(panel@.sensors@)));
    }
}

} // verus!
