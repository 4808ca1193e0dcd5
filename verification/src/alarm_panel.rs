//! AlarmPanel: active alarms, resolution history, and acknowledgment tracking.

use vstd::prelude::*;
use crate::render::box_drawing as bd;
use crate::render::{framed, push_framed};
use crate::room_panel::{alarm_emoji_spec, AlarmSeverity};
use crate::text::{dec, pad_spec, push_decimal, push_padded, push_repeat, push_str, repeat_seq, views};

verus! {

/// An alarm event with metadata.
#[derive(Debug)]
pub struct AlarmEvent {
    pub id: usize,
    pub room_name: String,
    pub sensor_name: String,
    pub severity: AlarmSeverity,
    pub message: String,
    pub timestamp_secs: u64,
    pub acknowledged: bool,
}

impl Clone for AlarmEvent {
    fn clone(&self) -> (r: Self)
        ensures
            r == *self,
    {
        AlarmEvent {
            id: self.id,
            room_name: self.room_name.clone(),
            sensor_name: self.sensor_name.clone(),
            severity: self.severity,
            message: self.message.clone(),
            timestamp_secs: self.timestamp_secs,
            acknowledged: self.acknowledged,
        }
    }
}

/// The abstract state of an alarm panel.
pub struct AlarmPanelView {
    pub active: Seq<AlarmEvent>,
    pub history: Seq<AlarmEvent>,
    pub max_history: nat,
}

/// A panel showing active alarms and history.
#[derive(Debug)]
pub struct AlarmPanel {
    active: Vec<AlarmEvent>,
    history: Vec<AlarmEvent>,
    max_history: usize,
}

impl View for AlarmPanel {
    type V = AlarmPanelView;

    closed spec fn view(&self) -> AlarmPanelView {
        AlarmPanelView { active: self.active@, history: self.history@, max_history: self.max_history as nat }
    }
}

/// `i` is the first position of an alarm with identifier `id`.
pub open spec fn is_first_with_id(s: Seq<AlarmEvent>, id: usize, i: int) -> bool {
    &&& 0 <= i < s.len()
    &&& s[i].id == id
    &&& forall|j: int| 0 <= j < i ==> (#[trigger] s[j]).id != id
}

/// Some alarm of the sequence has identifier `id`.
pub open spec fn contains_id(s: Seq<AlarmEvent>, id: usize) -> bool {
    exists|i: int| is_first_with_id(s, id, i)
}

/// The first position of an alarm with identifier `id` (meaningful only
/// when `contains_id`).
pub open spec fn first_with_id(s: Seq<AlarmEvent>, id: usize) -> int {
    choose|i: int| is_first_with_id(s, id, i)
}

/// The same alarm, marked as acknowledged.
pub open spec fn acknowledged(e: AlarmEvent) -> AlarmEvent {
    AlarmEvent { acknowledged: true, ..e }
}

/// The last `max` entries of `h` (all of `h` when it is not longer).
pub open spec fn keep_last(h: Seq<AlarmEvent>, max: nat) -> Seq<AlarmEvent> {
    if h.len() > max {
        h.skip(h.len() - max)
    } else {
        h
    }
}

/// The panel after `add_alarm(e)`.
pub open spec fn add_alarm_spec(v: AlarmPanelView, e: AlarmEvent) -> AlarmPanelView {
    AlarmPanelView { active: v.active.push(e), ..v }
}

/// The panel after `resolve(id)`: the first active alarm with that id leaves
/// the active list and is appended, acknowledged, to the history, which then
/// keeps only its last `max_history` entries. Unknown ids change nothing.
pub open spec fn resolve_spec(v: AlarmPanelView, id: usize) -> AlarmPanelView {
    if contains_id(v.active, id) {
        let p = first_with_id(v.active, id);
        AlarmPanelView {
            active: v.active.remove(p),
            history: keep_last(v.history.push(acknowledged(v.active[p])), v.max_history),
            max_history: v.max_history,
        }
    } else {
        v
    }
}

/// The panel after `acknowledge(id)`: the first active alarm with that id is
/// marked acknowledged. Unknown ids change nothing.
pub open spec fn acknowledge_spec(v: AlarmPanelView, id: usize) -> AlarmPanelView {
    if contains_id(v.active, id) {
        let p = first_with_id(v.active, id);
        AlarmPanelView { active: v.active.update(p, acknowledged(v.active[p])), ..v }
    } else {
        v
    }
}

/// The number of alarms of the sequence that are not acknowledged.
pub open spec fn unacked_count_spec(s: Seq<AlarmEvent>) -> nat
    decreases s.len(),
{
    if s.len() == 0 {
        0
    } else {
        unacked_count_spec(s.drop_last()) + if s.last().acknowledged { 0nat } else { 1nat }
    }
}

/// The row text of an active alarm.
pub open spec fn active_line_spec(e: AlarmEvent) -> Seq<char> {
    " "@ + alarm_emoji_spec(e.severity) + " "@ + (if e.acknowledged { "✓"@ } else { "!"@ }) + " ["@
        + dec(e.id as nat) + "] "@ + e.room_name@ + " > "@ + e.sensor_name@ + " ("@ + e.message@
        + ")"@
}

/// The row text of a resolved alarm.
pub open spec fn history_line_spec(e: AlarmEvent) -> Seq<char> {
    "   ["@ + dec(e.id as nat) + "] "@ + e.room_name@ + " > "@ + e.sensor_name@ + " ✓ @ t="@ + dec(
        e.timestamp_secs as nat,
    )
}

/// The title text of the panel.
pub open spec fn alarm_title_spec(v: AlarmPanelView) -> Seq<char> {
    " Alarms ("@ + dec(v.active.len()) + " active, "@ + dec(unacked_count_spec(v.active))
        + " unacked) "@
}

/// The lines of a rendered alarm panel `width` columns wide.
pub open spec fn alarm_panel_lines(v: AlarmPanelView, width: nat) -> Seq<Seq<char>> {
    let inner = if width >= 2 { (width - 2) as nat } else { 0nat };
    seq![seq![bd::TOP_LEFT] + pad_spec(alarm_title_spec(v), inner) + seq![bd::TOP_RIGHT]] + (if v.active.len()
        == 0 {
        seq![framed("  No active alarms"@, inner)]
    } else {
        v.active.map_values(|e: AlarmEvent| framed(active_line_spec(e), inner))
    }) + seq![
        seq![bd::T_RIGHT] + repeat_seq(bd::HORIZONTAL, inner) + seq![bd::T_LEFT],
        framed(" History (last "@ + dec(v.history.len()) + ") "@, inner),
    ] + v.history.map_values(|e: AlarmEvent| framed(history_line_spec(e), inner)) + seq![
        seq![bd::BOTTOM_LEFT] + repeat_seq(bd::HORIZONTAL, inner) + seq![bd::BOTTOM_RIGHT],
    ]
}

/// The position of the first alarm with identifier `id`, if any.
fn find_id(s: &Vec<AlarmEvent>, id: usize) -> (r: Option<usize>)
    ensures
        match r {
            Some(p) => is_first_with_id(s@, id, p as int),
            None => !contains_id(s@, id) && forall|j: int| 0 <= j < s@.len() ==> (#[trigger] s@[j]).id != id,
        },
{
    let n = s.len();
    let mut i: usize = 0;
    while i < n
        invariant
            i <= n,
            n == s@.len(),
            forall|j: int| 0 <= j < i ==> (#[trigger] s@[j]).id != id,
        decreases n - i,
    {
        if s[i].id == id {
            return Some(i);
        }
        i = i + 1;
    }
    None
}

/// Two first positions of the same id are the same position.
proof fn lemma_first_unique(s: Seq<AlarmEvent>, id: usize, p: int)
    requires
        is_first_with_id(s, id, p),
    ensures
        contains_id(s, id),
        first_with_id(s, id) == p,
{
    let q = first_with_id(s, id);
    assert(is_first_with_id(s, id, q));
    if q < p {
        assert(s[q].id != id);
    }
    if p < q {
        assert(s[p].id != id);
    }
}

impl Clone for AlarmPanel {
    fn clone(&self) -> (r: Self)
        ensures
            r@ == self@,
    {
        proof {
            use_type_invariant(self);
        }
        let active = self.active.clone();
        assert(active@ =~= self.active@);
        let history = self.history.clone();
        assert(history@ =~= self.history@);
        AlarmPanel { active, history, max_history: self.max_history }
    }
}

impl AlarmPanel {
    #[verifier::type_invariant]
    spec fn history_fits(&self) -> bool {
        self.history@.len() <= self.max_history
    }

    /// Create a new alarm panel with the given maximum history size.
    pub fn new(max_history: usize) -> (r: Self)
        ensures
            r@.active == Seq::<AlarmEvent>::empty(),
            r@.history == Seq::<AlarmEvent>::empty(),
            r@.max_history == max_history,
    {
        Self { active: Vec::new(), history: Vec::new(), max_history }
    }

    /// Add an active alarm.
    pub fn add_alarm(&mut self, event: AlarmEvent)
        ensures
            final(self)@ == add_alarm_spec(old(self)@, event),
    {
        proof {
            use_type_invariant(&*self);
        }
        let mut active: Vec<AlarmEvent> = Vec::new();
        std::mem::swap(&mut active, &mut self.active);
        active.push(event);
        self.active = active;
    }

    /// Resolve an alarm by ID, moving it to history.
    pub fn resolve(&mut self, id: usize)
        ensures
            final(self)@ == resolve_spec(old(self)@, id),
            final(self)@.history.len() <= final(self)@.max_history,
    {
        proof {
            use_type_invariant(&*self);
        }
        if let Some(pos) = find_id(&self.active, id) {
            proof {
                lemma_first_unique(self.active@, id, pos as int);
            }
            let mut active: Vec<AlarmEvent> = Vec::new();
            std::mem::swap(&mut active, &mut self.active);
            let mut event = active.remove(pos);
            self.active = active;
            event.acknowledged = true;
            let mut hist: Vec<AlarmEvent> = Vec::new();
            std::mem::swap(&mut hist, &mut self.history);
            let ghost pushed = hist@.push(event);
            hist.push(event);
            // Trim history
            while hist.len() > self.max_history
                invariant
                    keep_last(hist@, self.max_history as nat) == keep_last(pushed, self.max_history as nat),
                decreases hist@.len(),
            {
                let ghost before = hist@;
                hist.remove(0);
                assert(keep_last(hist@, self.max_history as nat) =~= keep_last(before, self.max_history as nat));
            }
            assert(keep_last(hist@, self.max_history as nat) == hist@);
            self.history = hist;
        }
        proof {
            use_type_invariant(&*self);
        }
    }

    /// Acknowledge an active alarm by ID.
    pub fn acknowledge(&mut self, id: usize)
        ensures
            final(self)@ == acknowledge_spec(old(self)@, id),
    {
        proof {
            use_type_invariant(&*self);
        }
        if let Some(pos) = find_id(&self.active, id) {
            proof {
                lemma_first_unique(self.active@, id, pos as int);
            }
            let mut active: Vec<AlarmEvent> = Vec::new();
            std::mem::swap(&mut active, &mut self.active);
            active[pos].acknowledged = true;
            self.active = active;
        }
        assert(final(self)@.active =~= acknowledge_spec(old(self)@, id).active);
    }

    /// Get active alarms.
    pub fn active_alarms(&self) -> (r: &[AlarmEvent])
        ensures
            r@ == self@.active,
    {
        self.active.as_slice()
    }

    /// Get alarm history, oldest first; it never holds more than
    /// `max_history` entries.
    pub fn alarm_history(&self) -> (r: &[AlarmEvent])
        ensures
            r@ == self@.history,
            r@.len() <= self@.max_history,
    {
        proof {
            use_type_invariant(self);
        }
        self.history.as_slice()
    }

    /// Count unacknowledged active alarms.
    pub fn unacknowledged_count(&self) -> (r: usize)
        ensures
            r == unacked_count_spec(self@.active),
    {
        let n = self.active.len();
        let mut count: usize = 0;
        let mut i: usize = 0;
        while i < n
            invariant
                i <= n,
                n == self.active@.len(),
                count == unacked_count_spec(self.active@.take(i as int)),
                count <= i,
            decreases n - i,
        {
            assert(self.active@.take(i + 1).drop_last() =~= self.active@.take(i as int));
            if !self.active[i].acknowledged {
                count = count + 1;
            }
            i = i + 1;
        }
        assert(self.active@.take(n as int) =~= self.active@);
        count
    }

    /// Render the alarm panel.
    pub fn render(&self, width: usize) -> (lines: Vec<String>)
        ensures
            views(lines@) == alarm_panel_lines(self@, width as nat),
    {
        let inner = width.saturating_sub(2);
        let ghost inner_n: nat = if width >= 2 { (width - 2) as nat } else { 0nat };
        let ghost v = self@;
        let mut lines: Vec<String> = Vec::new();

        // Title
        let ack_count = self.unacknowledged_count();
        let mut title = String::from_str(" Alarms (");
        push_decimal(&mut title, self.active.len() as u64);
        push_str(&mut title, " active, ");
        push_decimal(&mut title, ack_count as u64);
        push_str(&mut title, " unacked) ");
        let mut top = String::new();
        top.push(bd::TOP_LEFT);
        push_padded(&mut top, title.as_str(), inner);
        top.push(bd::TOP_RIGHT);
        assert(top@ =~= seq![bd::TOP_LEFT] + pad_spec(alarm_title_spec(v), inner_n) + seq![bd::TOP_RIGHT]);
        lines.push(top);
        let ghost head = views(lines@);
        assert(head =~= seq![seq![bd::TOP_LEFT] + pad_spec(alarm_title_spec(v), inner_n) + seq![bd::TOP_RIGHT]]);

        let ghost active_rows = if v.active.len() == 0 {
            seq![framed("  No active alarms"@, inner_n)]
        } else {
            v.active.map_values(|e: AlarmEvent| framed(active_line_spec(e), inner_n))
        };
        if self.active.len() == 0 {
            let mut row = String::new();
            push_framed(&mut row, "  No active alarms", inner);
            lines.push(row);
            assert(views(lines@) =~= head + active_rows);
        } else {
            // Active alarms
            let n = self.active.len();
            let mut i: usize = 0;
            while i < n
                invariant
                    i <= n,
                    n == v.active.len(),
                    v == self@,
                    inner == inner_n,
                    views(lines@) =~= head + v.active.take(i as int).map_values(
                        |e: AlarmEvent| framed(active_line_spec(e), inner_n),
                    ),
                decreases n - i,
            {
                let event = &self.active[i];
                let mut line = String::from_str(" ");
                push_str(&mut line, event.severity.emoji());
                push_str(&mut line, " ");
                push_str(&mut line, if event.acknowledged { "✓" } else { "!" });
                push_str(&mut line, " [");
                push_decimal(&mut line, event.id as u64);
                push_str(&mut line, "] ");
                push_str(&mut line, event.room_name.as_str());
                push_str(&mut line, " > ");
                push_str(&mut line, event.sensor_name.as_str());
                push_str(&mut line, " (");
                push_str(&mut line, event.message.as_str());
                push_str(&mut line, ")");
                assert(line@ =~= active_line_spec(v.active[i as int]));
                let mut row = String::new();
                push_framed(&mut row, line.as_str(), inner);
                let ghost before = lines@;
                lines.push(row);
                assert(views(lines@) =~= views(before).push(row@));
                assert(v.active.take(i + 1) =~= v.active.take(i as int).push(v.active[i as int]));
                i = i + 1;
            }
            assert(v.active.take(n as int) =~= v.active);
        }
        let ghost upper = views(lines@);
        assert(upper =~= head + active_rows);

        // Separator
        let mut sep = String::new();
        sep.push(bd::T_RIGHT);
        push_repeat(&mut sep, bd::HORIZONTAL, inner);
        sep.push(bd::T_LEFT);
        assert(sep@ =~= seq![bd::T_RIGHT] + repeat_seq(bd::HORIZONTAL, inner_n) + seq![bd::T_LEFT]);
        let ghost before_sep = lines@;
        lines.push(sep);
        assert(views(lines@) =~= views(before_sep).push(sep@));

        // History
        let mut hist_title = String::from_str(" History (last ");
        push_decimal(&mut hist_title, self.history.len() as u64);
        push_str(&mut hist_title, ") ");
        assert(hist_title@ =~= " History (last "@ + dec(v.history.len()) + ") "@);
        let mut hist_row = String::new();
        push_framed(&mut hist_row, hist_title.as_str(), inner);
        let ghost before_hist = lines@;
        lines.push(hist_row);
        assert(views(lines@) =~= views(before_hist).push(hist_row@));
        let ghost middle = views(lines@);
        assert(middle =~= upper + seq![
            seq![bd::T_RIGHT] + repeat_seq(bd::HORIZONTAL, inner_n) + seq![bd::T_LEFT],
            framed(" History (last "@ + dec(v.history.len()) + ") "@, inner_n),
        ]);

        let m = self.history.len();
        let mut k: usize = 0;
        while k < m
            invariant
                k <= m,
                m == v.history.len(),
                v == self@,
                inner == inner_n,
                views(lines@) =~= middle + v.history.take(k as int).map_values(
                    |e: AlarmEvent| framed(history_line_spec(e), inner_n),
                ),
            decreases m - k,
        {
            let event = &self.history[k];
            let mut line = String::from_str("   [");
            push_decimal(&mut line, event.id as u64);
            push_str(&mut line, "] ");
            push_str(&mut line, event.room_name.as_str());
            push_str(&mut line, " > ");
            push_str(&mut line, event.sensor_name.as_str());
            push_str(&mut line, " ✓ @ t=");
            push_decimal(&mut line, event.timestamp_secs);
            assert(line@ =~= history_line_spec(v.history[k as int]));
            let mut row = String::new();
            push_framed(&mut row, line.as_str(), inner);
            let ghost before = lines@;
            lines.push(row);
            assert(views(lines@) =~= views(before).push(row@));
            assert(v.history.take(k + 1) =~= v.history.take(k as int).push(v.history[k as int]));
            k = k + 1;
        }
        assert(v.history.take(m as int) =~= v.history);

        // Bottom
        let mut bottom = String::new();
        bottom.push(bd::BOTTOM_LEFT);
        push_repeat(&mut bottom, bd::HORIZONTAL, inner);
        bottom.push(bd::BOTTOM_RIGHT);
        assert(bottom@ =~= seq![bd::BOTTOM_LEFT] + repeat_seq(bd::HORIZONTAL, inner_n) + seq![bd::BOTTOM_RIGHT]);
        let ghost before = lines@;
        assert(views(before) =~= head + active_rows + seq![
            seq![bd::T_RIGHT] + repeat_seq(bd::HORIZONTAL, inner_n) + seq![bd::T_LEFT],
            framed(" History (last "@ + dec(v.history.len()) + ") "@, inner_n),
        ] + v.history.map_values(|e: AlarmEvent| framed(history_line_spec(e), inner_n)));
        lines.push(bottom);
        assert(views(lines@) =~= views(before).push(bottom@));
        assert(views(lines@) =~= alarm_panel_lines(v, width as nat));
        lines
    }
}

/// The number of unacknowledged alarms never exceeds the number of alarms.
pub proof fn unacked_count_bound(s: Seq<AlarmEvent>)
    ensures
        unacked_count_spec(s) <= s.len(),
    decreases s.len(),
{
    if s.len() > 0 {
        unacked_count_bound(s.drop_last());
    }
}

/// Replacing one alarm changes the unacknowledged count by the difference
/// of the two alarms' contributions.
proof fn lemma_unacked_update(s: Seq<AlarmEvent>, p: int, e: AlarmEvent)
    requires
        0 <= p < s.len(),
    ensures
        unacked_count_spec(s.update(p, e)) + (if s[p].acknowledged { 0int } else { 1int })
            == unacked_count_spec(s) + (if e.acknowledged { 0int } else { 1int }),
    decreases s.len(),
{
    let u = s.update(p, e);
    if p == s.len() - 1 {
        assert(u.drop_last() =~= s.drop_last());
    } else {
        assert(u.drop_last() =~= s.drop_last().update(p, e));
        lemma_unacked_update(s.drop_last(), p, e);
    }
}

/// Acknowledging an alarm that is active and not yet acknowledged lowers the
/// unacknowledged count by one; any other acknowledgment leaves it unchanged.
pub proof fn acknowledge_lowers_unacked_count(v: AlarmPanelView, id: usize)
    ensures
        contains_id(v.active, id) && !v.active[first_with_id(v.active, id)].acknowledged
            ==> unacked_count_spec(acknowledge_spec(v, id).active) + 1 == unacked_count_spec(v.active),
        !(contains_id(v.active, id) && !v.active[first_with_id(v.active, id)].acknowledged)
            ==> unacked_count_spec(acknowledge_spec(v, id).active) == unacked_count_spec(v.active),
{
    if contains_id(v.active, id) {
        let p = first_with_id(v.active, id);
        assert(is_first_with_id(v.active, id, p));
        lemma_unacked_update(v.active, p, acknowledged(v.active[p]));
    }
}

/// Acknowledging twice is the same as acknowledging once.
pub proof fn acknowledge_idempotent(v: AlarmPanelView, id: usize)
    ensures
        acknowledge_spec(acknowledge_spec(v, id), id) == acknowledge_spec(v, id),
{
    if contains_id(v.active, id) {
        let p = first_with_id(v.active, id);
        assert(is_first_with_id(v.active, id, p));
        let w = acknowledge_spec(v, id);
        assert(is_first_with_id(w.active, id, p));
        lemma_first_unique(w.active, id, p);
        assert(w.active.update(p, acknowledged(w.active[p])) =~= w.active);
    }
}

/// Resolving the alarm that was just added (under an id no other active
/// alarm has) gives back the active list from before the addition, and the
/// newest history entry is that alarm, acknowledged (when any history is kept).
pub proof fn resolve_undoes_add(v: AlarmPanelView, e: AlarmEvent)
    requires
        !contains_id(v.active, e.id),
    ensures
        resolve_spec(add_alarm_spec(v, e), e.id).active == v.active,
        v.max_history > 0 ==> resolve_spec(add_alarm_spec(v, e), e.id).history.last() == acknowledged(e),
        resolve_spec(add_alarm_spec(v, e), e.id).history.len() <= v.max_history,
{
    let a = v.active.push(e);
    let p = v.active.len() as int;
    assert forall|j: int| 0 <= j < p implies (#[trigger] a[j]).id != e.id by {
        if a[j].id == e.id {
            assert(v.active[j] == a[j]);
            lemma_some_id_has_first(v.active, e.id, j);
        }
    }
    assert(is_first_with_id(a, e.id, p));
    lemma_first_unique(a, e.id, p);
    assert(a.remove(p) =~= v.active);
    let h = v.history.push(acknowledged(e));
    lemma_keep_last(h, v.max_history);
}

/// An alarm with identifier `id` at position `j` means some first position exists.
proof fn lemma_some_id_has_first(s: Seq<AlarmEvent>, id: usize, j: int)
    requires
        0 <= j < s.len(),
        s[j].id == id,
    ensures
        contains_id(s, id),
    decreases j,
{
    if exists|k: int| 0 <= k < j && s[k].id == id {
        let k = choose|k: int| 0 <= k < j && s[k].id == id;
        lemma_some_id_has_first(s, id, k);
    } else {
        assert(is_first_with_id(s, id, j));
    }
}

/// Keeping the last `max` entries keeps at most `max` entries and, when any
/// are kept, keeps the newest one.
proof fn lemma_keep_last(h: Seq<AlarmEvent>, max: nat)
    requires
        h.len() > 0,
    ensures
        keep_last(h, max).len() == if h.len() > max { max } else { h.len() },
        max > 0 ==> keep_last(h, max).last() == h.last(),
{
}

/// Resolving an active alarm takes exactly one alarm off the active list and
/// records it, acknowledged, as the newest history entry (when any history
/// is kept); the history never outgrows its bound.
pub proof fn resolve_moves_alarm_to_history(v: AlarmPanelView, id: usize)
    requires
        contains_id(v.active, id),
        v.history.len() <= v.max_history,
    ensures
        resolve_spec(v, id).active.len() + 1 == v.active.len(),
        v.max_history > 0 ==> resolve_spec(v, id).history.last() == acknowledged(
            v.active[first_with_id(v.active, id)],
        ),
        v.max_history > 0 ==> resolve_spec(v, id).history.last().id == id,
        resolve_spec(v, id).history.len() <= v.max_history,
{
    let p = first_with_id(v.active, id);
    assert(is_first_with_id(v.active, id, p));
    lemma_keep_last(v.history.push(acknowledged(v.active[p])), v.max_history);

}

/// Resolving an active id removes exactly the first alarm with that id (at
/// position `p`) from the active list: the alarms before it keep their
/// places, and those after it move up by one place in their old order.
pub proof fn resolve_keeps_other_alarms_in_order(v: AlarmPanelView, id: usize, p: int)
    requires
        0 <= p < v.active.len(),
        v.active[p].id == id,
        forall|j: int| 0 <= j < p ==> (#[trigger] v.active[j]).id != id,
    ensures
        resolve_spec(v, id).active.len() + 1 == v.active.len(),
        forall|j: int| 0 <= j < p ==> #[trigger] resolve_spec(v, id).active[j] == v.active[j],
        forall|j: int|
            p <= j < v.active.len() - 1 ==> #[trigger] resolve_spec(v, id).active[j] == v.active[j + 1],
{
    assert(is_first_with_id(v.active, id, p));
    lemma_first_unique(v.active, id, p);
}

/// Resolving an id that no active alarm has leaves the panel as it was.
pub proof fn resolve_unknown_id_changes_nothing(v: AlarmPanelView, id: usize)
    requires
        forall|j: int| 0 <= j < v.active.len() ==> (#[trigger] v.active[j]).id != id,
    ensures
        resolve_spec(v, id) == v,
{
    if contains_id(v.active, id) {
        let p = first_with_id(v.active, id);
        assert(is_first_with_id(v.active, id, p));
        assert(v.active[p].id != id);
    }
}

/// In a rendered alarm panel at least six columns wide, the row of the
/// `i`-th active alarm carries in its fifth column (after the frame, a
/// blank, the severity emoji and a blank) the mark ✓ when that alarm is
/// acknowledged and ! when it is not.
pub proof fn active_row_shows_acknowledgment(v: AlarmPanelView, width: nat, i: int)
    requires
        width >= 6,
        0 <= i < v.active.len(),
    ensures
        alarm_panel_lines(v, width)[1 + i][4] == (if v.active[i].acknowledged { '✓' } else { '!' }),
{
    reveal_strlit(" ");
    reveal_strlit("✓");
    reveal_strlit("!");
    reveal_strlit("🟢");
    reveal_strlit("🟡");
    reveal_strlit("🔴");
    let inner = (width - 2) as nat;
    let e = v.active[i];
    let rows = v.active.map_values(|e: AlarmEvent| framed(active_line_spec(e), inner));
    let lines = alarm_panel_lines(v, width);
    let top = seq![seq![bd::TOP_LEFT] + pad_spec(alarm_title_spec(v), inner) + seq![bd::TOP_RIGHT]];
    assert(lines[1 + i] == (top + rows)[1 + i]);
    assert(lines[1 + i] == rows[i]);
    let text = active_line_spec(e);
    let mark = if e.acknowledged { "✓"@ } else { "!"@ };
    let head = " "@ + alarm_emoji_spec(e.severity) + " "@ + mark;
    assert(alarm_emoji_spec(e.severity).len() == 1);
    assert(head.len() == 4);
    assert(head[3] == (if e.acknowledged { '✓' } else { '!' }));
    assert(text[3] == head[3]);
    assert(text.len() > 4);
    assert(pad_spec(text, inner)[3] == text[3]);
    assert(framed(text, inner)[4] == pad_spec(text, inner)[3]);
}

/// Acknowledging an active id marks exactly the first alarm with that id (at
/// position `p`) as acknowledged, changing nothing else about it, and leaves
/// every other active alarm, the history and its bound as they were.
pub proof fn acknowledge_marks_only_first_match(v: AlarmPanelView, id: usize, p: int)
    requires
        0 <= p < v.active.len(),
        v.active[p].id == id,
        forall|j: int| 0 <= j < p ==> (#[trigger] v.active[j]).id != id,
    ensures
        acknowledge_spec(v, id).active.len() == v.active.len(),
        acknowledge_spec(v, id).active[p] == (AlarmEvent { acknowledged: true, ..v.active[p] }),
        forall|j: int|
            0 <= j < v.active.len() && j != p ==> #[trigger] acknowledge_spec(v, id).active[j] == v.active[j],
        acknowledge_spec(v, id).history == v.history,
        acknowledge_spec(v, id).max_history == v.max_history,
{
    assert(is_first_with_id(v.active, id, p));
    lemma_first_unique(v.active, id, p);
}

} // verus!
