//! Dashboard: the top-level terminal UI state — the rooms, the selected room,
//! the alarm panel, scrolling and the running flag.

use vstd::prelude::*;
use crate::alarm_panel::{alarm_panel_lines, AlarmPanel};
use crate::fleet_panel::{fleet_lines, fleet_panel_lines, sensor_total};
use crate::render::box_drawing as bd;
use crate::render::{colorize_spec, Color, Render};
use crate::room_panel::{room_lines, room_panel_lines, same_room, RoomState};
use crate::text::{dec, push_decimal, push_str, repeat_seq, views};

verus! {

/// Configuration for a fleet of rooms.
#[derive(Debug)]
pub struct FleetConfig {
    pub rooms: Vec<RoomState>,
    pub refresh_rate_ms: u64,
}

impl Clone for FleetConfig {
    fn clone(&self) -> (r: Self)
        ensures
            r.rooms@.len() == self.rooms@.len(),
            forall|i: int| 0 <= i < r.rooms@.len() ==> same_room(#[trigger] r.rooms@[i], self.rooms@[i]),
            r.refresh_rate_ms == self.refresh_rate_ms,
    {
        FleetConfig { rooms: self.rooms.clone(), refresh_rate_ms: self.refresh_rate_ms }
    }
}

impl FleetConfig {
    /// Create a fleet config with the given rooms and default 1Hz refresh.
    pub fn new(rooms: Vec<RoomState>) -> (r: Self)
        ensures
            r.rooms@ == rooms@,
            r.refresh_rate_ms == 1000,
    {
        Self { rooms, refresh_rate_ms: 1000 }
    }
}

/// The room selected after moving one room forward, wrapping around.
pub open spec fn next_index(selected: nat, count: nat) -> nat {
    if count == 0 {
        selected
    } else {
        (selected + 1) % (count as int) as nat
    }
}

/// The room selected after moving one room back, wrapping around.
pub open spec fn prev_index(selected: nat, count: nat) -> nat {
    if count == 0 {
        selected
    } else {
        ((selected + count - 1) % (count as int)) as nat
    }
}

/// The lines joined into one text, each line followed by a newline.
pub open spec fn joined(lines: Seq<Seq<char>>) -> Seq<char>
    decreases lines.len(),
{
    if lines.len() == 0 {
        Seq::empty()
    } else {
        joined(lines.drop_last()) + lines.last() + seq!['\n']
    }
}

/// The header text of the full dashboard.
pub open spec fn dashboard_header_spec(v: DashboardView) -> Seq<char> {
    let rate = if v.refresh_rate_ms >= 1 { v.refresh_rate_ms as nat } else { 1nat };
    " ╔══ PLATO DASHBOARD ══╗ ["@ + dec(v.rooms.len()) + " rooms, "@ + dec(1000nat / rate) + "Hz refresh]"@
}

/// The key help shown at the foot of the full dashboard.
pub open spec fn dashboard_footer_spec() -> Seq<char> {
    " [Tab] Next room  [Shift+Tab] Prev  [j/k] Scroll  [a] Ack  [q] Quit"@
}

/// The top of the full dashboard: clear-screen code, colored header and a rule.
pub open spec fn screen_top_spec(v: DashboardView) -> Seq<char> {
    "\x1b[2J\x1b[H"@ + colorize_spec(dashboard_header_spec(v), Color::Cyan) + seq!['\n'] + repeat_seq(
        bd::HORIZONTAL,
        v.width,
    ) + seq!['\n']
}

/// The selected room's panel (nothing when there are no rooms).
pub open spec fn screen_room_spec(v: DashboardView, readings: Seq<Seq<char>>, trends: Seq<Seq<char>>) -> Seq<char> {
    if v.rooms.len() > 0 {
        joined(room_panel_lines(v.rooms[v.selected_room as int], v.width, readings, trends))
    } else {
        Seq::empty()
    }
}

/// The foot of the full dashboard: colored key help and the room position.
pub open spec fn screen_foot_spec(v: DashboardView) -> Seq<char> {
    seq!['\n'] + colorize_spec(dashboard_footer_spec(), Color::Blue) + seq!['\n'] + " Room "@ + dec(
        v.selected_room + 1,
    ) + "/"@ + dec(if v.rooms.len() >= 1 { v.rooms.len() } else { 1nat })
}

/// The full dashboard screen: the top, the selected room's panel (given its
/// readings' and trends' display texts), the fleet panel, the alarm panel,
/// and the foot, separated by blank lines.
pub open spec fn full_screen_spec(v: DashboardView, readings: Seq<Seq<char>>, trends: Seq<Seq<char>>) -> Seq<char> {
    screen_top_spec(v) + screen_room_spec(v, readings, trends) + seq!['\n'] + joined(
        fleet_panel_lines(v.rooms, v.width),
    ) + seq!['\n'] + joined(alarm_panel_lines(v.alarm_panel@, v.width)) + screen_foot_spec(v)
}

/// Appends each line followed by a newline.
fn push_lines(out: &mut String, lines: &Vec<String>)
    ensures
        final(out)@ == old(out)@ + joined(views(lines@)),
{
    let ghost start = out@;
    let n = lines.len();
    let mut i: usize = 0;
    while i < n
        invariant
            i <= n,
            n == lines@.len(),
            out@ == start + joined(views(lines@).take(i as int)),
        decreases n - i,
    {
        push_str(out, lines[i].as_str());
        out.push('\n');
        assert(views(lines@).take(i + 1).drop_last() =~= views(lines@).take(i as int));
        assert(out@ =~= start + joined(views(lines@).take(i + 1)));
        i = i + 1;
    }
    assert(views(lines@).take(n as int) =~= views(lines@));
}

/// The abstract state of a dashboard.
pub struct DashboardView {
    pub rooms: Seq<RoomState>,
    pub alarm_panel: AlarmPanel,
    pub selected_room: nat,
    pub refresh_rate_ms: u64,
    pub width: nat,
    pub height: nat,
    pub running: bool,
    pub scroll_offset: nat,
}

/// The rooms of a dashboard together with the selected one, which is a valid
/// index whenever there are rooms.
#[derive(Debug)]
struct Selection {
    rooms: Vec<RoomState>,
    selected: usize,
}

impl Selection {
    #[verifier::type_invariant]
    spec fn in_range(&self) -> bool {
        if self.rooms@.len() == 0 {
            self.selected == 0
        } else {
            self.selected < self.rooms@.len()
        }
    }

    spec fn rooms_spec(&self) -> Seq<RoomState> {
        self.rooms@
    }

    spec fn selected_spec(&self) -> nat {
        self.selected as nat
    }

    fn new(rooms: Vec<RoomState>) -> (r: Self)
        ensures
            r.rooms_spec() == rooms@,
            r.selected_spec() == 0,
    {
        Selection { rooms, selected: 0 }
    }

    fn duplicate(&self) -> (r: Self)
        ensures
            r.rooms_spec().len() == self.rooms_spec().len(),
            forall|i: int| 0 <= i < r.rooms_spec().len() ==> same_room(#[trigger] r.rooms_spec()[i], self.rooms_spec()[i]),
            r.selected_spec() == self.selected_spec(),
    {
        proof {
            use_type_invariant(self);
        }
        Selection { rooms: self.rooms.clone(), selected: self.selected }
    }

    fn selected(&self) -> (r: usize)
        ensures
            r == self.selected_spec(),
            self.rooms_spec().len() > 0 ==> r < self.rooms_spec().len(),
            self.rooms_spec().len() == 0 ==> r == 0,
    {
        proof {
            use_type_invariant(self);
        }
        self.selected
    }

    fn next(&mut self)
        ensures
            final(self).rooms_spec() == old(self).rooms_spec(),
            final(self).selected_spec() == next_index(old(self).selected_spec(), old(self).rooms_spec().len()),
    {
        proof {
            use_type_invariant(&*self);
        }
        let n = self.rooms.len();
        if n > 0 {
            self.selected = (self.selected + 1) % n;
        }
    }

    fn prev(&mut self)
        ensures
            final(self).rooms_spec() == old(self).rooms_spec(),
            final(self).selected_spec() == prev_index(old(self).selected_spec(), old(self).rooms_spec().len()),
    {
        proof {
            use_type_invariant(&*self);
        }
        let n = self.rooms.len();
        if n > 0 {
            let s = self.selected;
            let next = if s == 0 { n - 1 } else { s - 1 };
            assert(next == ((s + n - 1) % (n as int)) as nat) by (nonlinear_arith)
                requires
                    s < n,
                    next == (if s == 0 { n - 1 } else { s - 1 }),
            {
                if s == 0 {
                    assert((n - 1) % (n as int) == n - 1);
                } else {
                    assert((s - 1 + n) % (n as int) == s - 1);
                }
            }
            self.selected = next;
        }
    }

    fn select(&mut self, index: usize)
        ensures
            final(self).rooms_spec() == old(self).rooms_spec(),
            final(self).selected_spec() == (if index < old(self).rooms_spec().len() {
                index as nat
            } else {
                old(self).selected_spec()
            }),
    {
        if index < self.rooms.len() {
            self.selected = index;
        }
    }

    fn rooms(&self) -> (r: &Vec<RoomState>)
        ensures
            r@ == self.rooms_spec(),
    {
        &self.rooms
    }
}

/// The top-level dashboard.
#[derive(Debug)]
pub struct Dashboard {
    selection: Selection,
    alarm_panel: AlarmPanel,
    refresh_rate_ms: u64,
    width: usize,
    height: usize,
    running: bool,
    scroll_offset: usize,
}

impl View for Dashboard {
    type V = DashboardView;

    closed spec fn view(&self) -> DashboardView {
        DashboardView {
            rooms: self.selection.rooms_spec(),
            alarm_panel: self.alarm_panel,
            selected_room: self.selection.selected_spec(),
            refresh_rate_ms: self.refresh_rate_ms,
            width: self.width as nat,
            height: self.height as nat,
            running: self.running,
            scroll_offset: self.scroll_offset as nat,
        }
    }
}

impl Clone for Dashboard {
    fn clone(&self) -> (r: Self)
        ensures
            r@.rooms.len() == self@.rooms.len(),
            forall|i: int| 0 <= i < r@.rooms.len() ==> same_room(#[trigger] r@.rooms[i], self@.rooms[i]),
            r@.alarm_panel@ == self@.alarm_panel@,
            r@.selected_room == self@.selected_room,
            r@.refresh_rate_ms == self@.refresh_rate_ms,
            r@.width == self@.width,
            r@.height == self@.height,
            r@.running == self@.running,
            r@.scroll_offset == self@.scroll_offset,
    {
        Dashboard {
            selection: self.selection.duplicate(),
            alarm_panel: self.alarm_panel.clone(),
            refresh_rate_ms: self.refresh_rate_ms,
            width: self.width,
            height: self.height,
            running: self.running,
            scroll_offset: self.scroll_offset,
        }
    }
}

impl Dashboard {
    /// Create a new dashboard from a fleet config: first room selected, an
    /// empty alarm panel keeping 50 resolved alarms, an 80x24 screen, not
    /// running, not scrolled.
    pub fn new(config: FleetConfig) -> (r: Self)
        ensures
            r@.rooms == config.rooms@,
            r@.alarm_panel@.active.len() == 0,
            r@.alarm_panel@.history.len() == 0,
            r@.alarm_panel@.max_history == 50,
            r@.selected_room == 0,
            r@.refresh_rate_ms == config.refresh_rate_ms,
            r@.width == 80,
            r@.height == 24,
            !r@.running,
            r@.scroll_offset == 0,
    {
        let alarm_panel = AlarmPanel::new(50);
        Self {
            selection: Selection::new(config.rooms),
            alarm_panel,
            refresh_rate_ms: config.refresh_rate_ms,
            width: 80,
            height: 24,
            running: false,
            scroll_offset: 0,
        }
    }

    /// Get the currently selected room index; it is always a valid index
    /// when there are rooms.
    pub fn selected_room(&self) -> (r: usize)
        ensures
            r == self@.selected_room,
            self@.rooms.len() > 0 ==> r < self@.rooms.len(),
            self@.rooms.len() == 0 ==> r == 0,
    {
        self.selection.selected()
    }

    /// Switch to the next room, wrapping around after the last.
    pub fn next_room(&mut self)
        ensures
            final(self)@ == (DashboardView {
                selected_room: next_index(old(self)@.selected_room, old(self)@.rooms.len()),
                ..old(self)@
            }),
    {
        self.selection.next();
    }

    /// Switch to the previous room, wrapping around before the first.
    pub fn prev_room(&mut self)
        ensures
            final(self)@ == (DashboardView {
                selected_room: prev_index(old(self)@.selected_room, old(self)@.rooms.len()),
                ..old(self)@
            }),
    {
        self.selection.prev();
    }

    /// Switch to a specific room by index; an index past the last room
    /// changes nothing.
    pub fn select_room(&mut self, index: usize)
        ensures
            index < old(self)@.rooms.len() ==> final(self)@ == (DashboardView {
                selected_room: index as nat,
                ..old(self)@
            }),
            index >= old(self)@.rooms.len() ==> final(self)@ == old(self)@,
    {
        self.selection.select(index);
    }

    /// Render the full dashboard to a string, given the display text of the
    /// selected room's readings and trends. The fleet's sensor total must fit
    /// in a `usize`.
    pub fn render_full(&self, readings: &[String], trends: &[String]) -> (r: String)
        requires
            sensor_total(self@.rooms) <= usize::MAX,
            self@.rooms.len() > 0 ==> readings@.len() == self@.rooms[self@.selected_room as int].sensors@.len(),
            self@.rooms.len() > 0 ==> trends@.len() == self@.rooms[self@.selected_room as int].sensors@.len(),
        ensures
            r@ == full_screen_spec(self@, views(readings@), views(trends@)),
    {
        let ghost v = self@;
        let ghost rs = views(readings@);
        let ghost ts = views(trends@);
        let rooms = self.selection.rooms();
        let selected = self.selection.selected();
        let mut output = Render::clear_screen();

        // Header
        let rate = if self.refresh_rate_ms >= 1 { self.refresh_rate_ms } else { 1 };
        let mut header = String::from_str(" ╔══ PLATO DASHBOARD ══╗ [");
        push_decimal(&mut header, rooms.len() as u64);
        push_str(&mut header, " rooms, ");
        push_decimal(&mut header, 1000 / rate);
        push_str(&mut header, "Hz refresh]");
        assert(header@ =~= dashboard_header_spec(v));
        let colored = Render::colorize(header.as_str(), Color::Cyan);
        push_str(&mut output, colored.as_str());
        output.push('\n');
        let rule = Render::horizontal_line(self.width);
        push_str(&mut output, rule.as_str());
        output.push('\n');
        assert(output@ =~= screen_top_spec(v));
        let ghost p1 = output@;

        // Selected room panel
        if rooms.len() > 0 {
            let lines = room_lines(&rooms[selected], self.width, readings, trends);
            push_lines(&mut output, &lines);
        }
        assert(output@ =~= p1 + screen_room_spec(v, rs, ts));
        let ghost p2 = output@;

        output.push('\n');

        // Fleet overview
        let fleet = fleet_lines(rooms.as_slice(), self.width);
        push_lines(&mut output, &fleet);
        let ghost p3 = output@;
        assert(p3 =~= p2 + seq!['\n'] + joined(fleet_panel_lines(v.rooms, v.width)));

        output.push('\n');

        // Alarm panel
        let alarm_lines = self.alarm_panel.render(self.width);
        push_lines(&mut output, &alarm_lines);
        let ghost p4 = output@;
        assert(p4 =~= p3 + seq!['\n'] + joined(alarm_panel_lines(v.alarm_panel@, v.width)));

        // Footer
        let mut foot = String::new();
        foot.push('\n');
        let footer = Render::colorize(" [Tab] Next room  [Shift+Tab] Prev  [j/k] Scroll  [a] Ack  [q] Quit", Color::Blue);
        push_str(&mut foot, footer.as_str());
        foot.push('\n');
        push_str(&mut foot, " Room ");
        push_decimal(&mut foot, (selected + 1) as u64);
        push_str(&mut foot, "/");
        push_decimal(&mut foot, if rooms.len() >= 1 { rooms.len() as u64 } else { 1 });
        assert(foot@ =~= screen_foot_spec(v));
        push_str(&mut output, foot.as_str());
        assert(output@ =~= full_screen_spec(v, rs, ts));
        output
    }

    /// Get a reference to the alarm panel.
    pub fn alarm_panel(&self) -> (r: &AlarmPanel)
        ensures
            *r == self@.alarm_panel,
    {
        &self.alarm_panel
    }

    /// Get a mutable reference to the alarm panel.
    pub fn alarm_panel_mut(&mut self) -> (r: &mut AlarmPanel)
        ensures
            *r == old(self)@.alarm_panel,
            final(self)@ == (DashboardView { alarm_panel: *final(r), ..old(self)@ }),
    {
        &mut self.alarm_panel
    }

    /// Get the number of rooms.
    pub fn room_count(&self) -> (r: usize)
        ensures
            r == self@.rooms.len(),
    {
        self.selection.rooms().len()
    }

    /// Get the rooms, in display order.
    pub fn rooms(&self) -> (r: &[RoomState])
        ensures
            r@ == self@.rooms,
    {
        self.selection.rooms().as_slice()
    }

    /// Get the refresh period in milliseconds.
    pub fn refresh_rate_ms(&self) -> (r: u64)
        ensures
            r == self@.refresh_rate_ms,
    {
        self.refresh_rate_ms
    }

    /// Get the screen width in columns.
    pub fn width(&self) -> (r: usize)
        ensures
            r == self@.width,
    {
        self.width
    }

    /// Get the history scroll offset.
    pub fn scroll_offset(&self) -> (r: usize)
        ensures
            r == self@.scroll_offset,
    {
        self.scroll_offset
    }

    /// Scroll history up (saturating at the largest offset).
    pub fn scroll_up(&mut self)
        ensures
            final(self)@ == (DashboardView {
                scroll_offset: if old(self)@.scroll_offset < usize::MAX {
                    old(self)@.scroll_offset + 1
                } else {
                    old(self)@.scroll_offset
                },
                ..old(self)@
            }),
    {
        self.scroll_offset = self.scroll_offset.saturating_add(1);
    }

    /// Scroll history down (saturating at zero).
    pub fn scroll_down(&mut self)
        ensures
            final(self)@ == (DashboardView {
                scroll_offset: if old(self)@.scroll_offset > 0 {
                    (old(self)@.scroll_offset - 1) as nat
                } else {
                    0
                },
                ..old(self)@
            }),
    {
        self.scroll_offset = self.scroll_offset.saturating_sub(1);
    }

    /// Set the running state.
    pub fn set_running(&mut self, running: bool)
        ensures
            final(self)@ == (DashboardView { running, ..old(self)@ }),
    {
        self.running = running;
    }

    /// Check if the dashboard is running.
    pub fn is_running(&self) -> (r: bool)
        ensures
            r == self@.running,
    {
        self.running
    }
}

/// Moving back undoes moving forward, and moving forward undoes moving back.
pub proof fn prev_undoes_next(selected: nat, count: nat)
    requires
        selected < count || (count == 0 && selected == 0),
    ensures
        prev_index(next_index(selected, count), count) == selected,
        next_index(prev_index(selected, count), count) == selected,
{
    if count > 0 {
        let s = selected as int;
        let n = count as int;
        if s + 1 == n {
            assert((s + 1) % n == 0) by (nonlinear_arith)
                requires
                    s + 1 == n,
                    n > 0,
            ;
            assert((0 + n - 1) % n == n - 1) by (nonlinear_arith)
                requires
                    n > 0,
            ;
        } else {
            assert((s + 1) % n == s + 1) by (nonlinear_arith)
                requires
                    0 <= s,
                    s + 1 < n,
            ;
            assert((s + 1 + n - 1) % n == s) by (nonlinear_arith)
                requires
                    0 <= s < n,
            ;
        }
        if s == 0 {
            assert((s + n - 1) % n == n - 1) by (nonlinear_arith)
                requires
                    s == 0,
                    n > 0,
            ;
            assert((n - 1 + 1) % n == 0) by (nonlinear_arith)
                requires
                    n > 0,
            ;
        } else {
            assert((s + n - 1) % n == s - 1) by (nonlinear_arith)
                requires
                    0 < s < n,
            ;
            assert((s - 1 + 1) % n == s) by (nonlinear_arith)
                requires
                    0 < s < n,
            ;
        }
    }
}

/// Moving forward always lands on a valid room.
pub proof fn next_stays_in_range(selected: nat, count: nat)
    requires
        count > 0,
    ensures
        next_index(selected, count) < count,
        prev_index(selected, count) < count,
{
}

/// Scrolling down undoes scrolling up (below the largest offset).
pub proof fn scroll_down_undoes_scroll_up(offset: nat)
    requires
        offset < usize::MAX,
    ensures
        ({
            let up = if offset < usize::MAX { offset + 1 } else { offset };
            (if up > 0 { (up - 1) as nat } else { 0 }) == offset
        }),
{
}

/// The full dashboard screen ends with the room position " Room k/n": `k`
/// is the selected room's index plus one and `n` the number of rooms (1 when
/// there are none).
pub proof fn screen_ends_with_room_position(v: DashboardView, readings: Seq<Seq<char>>, trends: Seq<Seq<char>>)
    ensures
        ({
            let screen = full_screen_spec(v, readings, trends);
            let position = " Room "@ + dec(v.selected_room + 1) + "/"@ + dec(
                if v.rooms.len() >= 1 { v.rooms.len() } else { 1nat },
            );
            &&& screen.len() >= position.len()
            &&& screen.subrange(screen.len() - position.len(), screen.len() as int) == position
        }),
{
    let screen = full_screen_spec(v, readings, trends);
    let position = " Room "@ + dec(v.selected_room + 1) + "/"@ + dec(
        if v.rooms.len() >= 1 { v.rooms.len() } else { 1nat },
    );
    let before = screen_top_spec(v) + screen_room_spec(v, readings, trends) + seq!['\n'] + joined(
        fleet_panel_lines(v.rooms, v.width),
    ) + seq!['\n'] + joined(alarm_panel_lines(v.alarm_panel@, v.width)) + seq!['\n'] + colorize_spec(
        dashboard_footer_spec(),
        Color::Blue,
    ) + seq!['\n'];
    assert(screen =~= before + position);
    assert(screen.subrange(screen.len() - position.len(), screen.len() as int) =~= position);
}

} // verus!
