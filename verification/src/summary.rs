//! Fleet-level summary types: alert severities and alerts, room statuses and
//! room summaries, dashboard configuration and its validation, and the
//! counting, ordering and formatting the summary views are built from.

use vstd::prelude::*;
use crate::render::Render;
use crate::text::{
    center_spec, dec, dec2, left_align, push_decimal, push_decimal2, push_left_aligned, push_repeat,
    push_right_aligned, push_str, repeat_seq, right_align, views,
};

verus! {

/// Alert severity levels, ordered Info < Warning < Critical < Emergency.
#[derive(Debug, Clone, Copy, PartialEq, Eq, Structural, PartialOrd, Ord, Hash)]
pub enum Severity {
    Info,
    Warning,
    Critical,
    Emergency,
}

/// The place of a severity in the order Info < Warning < Critical < Emergency.
pub open spec fn severity_rank(s: Severity) -> nat {
    match s {
        Severity::Info => 0,
        Severity::Warning => 1,
        Severity::Critical => 2,
        Severity::Emergency => 3,
    }
}

/// The emoji icon of a severity.
pub open spec fn severity_icon_spec(s: Severity) -> Seq<char> {
    match s {
        Severity::Info => "ℹ️"@,
        Severity::Warning => "⚠️"@,
        Severity::Critical => "🔴"@,
        Severity::Emergency => "🚨"@,
    }
}

/// The short label of a severity.
pub open spec fn severity_label_spec(s: Severity) -> Seq<char> {
    match s {
        Severity::Info => "INFO"@,
        Severity::Warning => "WARN"@,
        Severity::Critical => "CRIT"@,
        Severity::Emergency => "EMRG"@,
    }
}

impl Severity {
    /// Emoji icon for terminal display.
    pub fn icon(&self) -> (r: &'static str)
        ensures
            r@ == severity_icon_spec(*self),
    {
        match self {
            Severity::Info => "ℹ️",
            Severity::Warning => "⚠️",
            Severity::Critical => "🔴",
            Severity::Emergency => "🚨",
        }
    }

    /// Short label (also the severity's display text).
    pub fn label(&self) -> (r: &'static str)
        ensures
            r@ == severity_label_spec(*self),
    {
        match self {
            Severity::Info => "INFO",
            Severity::Warning => "WARN",
            Severity::Critical => "CRIT",
            Severity::Emergency => "EMRG",
        }
    }
}

fn rank(s: Severity) -> (r: u8)
    ensures
        r == severity_rank(s),
{
    match s {
        Severity::Info => 0,
        Severity::Warning => 1,
        Severity::Critical => 2,
        Severity::Emergency => 3,
    }
}

/// A single alert associated with a room.
#[derive(Debug)]
pub struct AlertSummary {
    pub room_id: String,
    pub alert_type: String,
    pub message: String,
    pub severity: Severity,
    pub timestamp: u64,
    pub acknowledged: bool,
}

impl Clone for AlertSummary {
    fn clone(&self) -> (r: Self)
        ensures
            r == *self,
    {
        AlertSummary {
            room_id: self.room_id.clone(),
            alert_type: self.alert_type.clone(),
            message: self.message.clone(),
            severity: self.severity,
            timestamp: self.timestamp,
            acknowledged: self.acknowledged,
        }
    }
}

impl AlertSummary {
    /// A new, unacknowledged alert.
    pub fn new(room_id: &str, alert_type: &str, message: &str, severity: Severity, timestamp: u64) -> (r: Self)
        ensures
            r.room_id@ == room_id@,
            r.alert_type@ == alert_type@,
            r.message@ == message@,
            r.severity == severity,
            r.timestamp == timestamp,
            !r.acknowledged,
    {
        Self {
            room_id: String::from_str(room_id),
            alert_type: String::from_str(alert_type),
            message: String::from_str(message),
            severity,
            timestamp,
            acknowledged: false,
        }
    }

    /// Mark the alert as acknowledged; nothing else changes.
    pub fn acknowledge(&mut self)
        ensures
            *final(self) == (AlertSummary { acknowledged: true, ..*old(self) }),
    {
        self.acknowledged = true;
    }
}

/// Operational status of a room.
#[derive(Debug, Clone, Copy, PartialEq, Eq, Structural)]
pub enum RoomStatus {
    Nominal,
    Warning,
    Critical,
    Offline,
}

/// The icon of a room status.
pub open spec fn status_icon_spec(s: RoomStatus) -> Seq<char> {
    match s {
        RoomStatus::Nominal => "✅"@,
        RoomStatus::Warning => "⚠"@,
        RoomStatus::Critical => "🔴"@,
        RoomStatus::Offline => "⬛"@,
    }
}

/// The label of a room status.
pub open spec fn status_label_spec(s: RoomStatus) -> Seq<char> {
    match s {
        RoomStatus::Nominal => "OK"@,
        RoomStatus::Warning => "WARN"@,
        RoomStatus::Critical => "CRIT"@,
        RoomStatus::Offline => "OFF"@,
    }
}

impl RoomStatus {
    pub fn icon(&self) -> (r: &'static str)
        ensures
            r@ == status_icon_spec(*self),
    {
        match self {
            RoomStatus::Nominal => "✅",
            RoomStatus::Warning => "⚠",
            RoomStatus::Critical => "🔴",
            RoomStatus::Offline => "⬛",
        }
    }

    /// Short label (also the status's display text).
    pub fn label(&self) -> (r: &'static str)
        ensures
            r@ == status_label_spec(*self),
    {
        match self {
            RoomStatus::Nominal => "OK",
            RoomStatus::Warning => "WARN",
            RoomStatus::Critical => "CRIT",
            RoomStatus::Offline => "OFF",
        }
    }
}

/// Kind of room.
#[derive(Debug, PartialEq, Eq)]
pub enum RoomType {
    Engine,
    Bridge,
    Galley,
    Hold,
    Cabin,
    Lab,
    Corridor,
    Other(String),
}

/// Aggregated state of a single room. The autonomy percentage and the
/// health score are carried as IEEE-754 binary64 bit patterns; nothing here
/// interprets them.
#[derive(Debug)]
pub struct RoomSummary {
    pub room_id: String,
    pub room_type: RoomType,
    pub status: RoomStatus,
    pub autonomy_pct_bits: u64,
    pub health_score_bits: u64,
    pub last_reading_ago_secs: u64,
    pub active_alerts: usize,
}

impl Clone for RoomType {
    fn clone(&self) -> (r: Self)
        ensures
            r == *self,
    {
        match self {
            RoomType::Engine => RoomType::Engine,
            RoomType::Bridge => RoomType::Bridge,
            RoomType::Galley => RoomType::Galley,
            RoomType::Hold => RoomType::Hold,
            RoomType::Cabin => RoomType::Cabin,
            RoomType::Lab => RoomType::Lab,
            RoomType::Corridor => RoomType::Corridor,
            RoomType::Other(name) => RoomType::Other(name.clone()),
        }
    }
}

impl Clone for RoomSummary {
    fn clone(&self) -> (r: Self)
        ensures
            r == *self,
    {
        RoomSummary {
            room_id: self.room_id.clone(),
            room_type: self.room_type.clone(),
            status: self.status,
            autonomy_pct_bits: self.autonomy_pct_bits,
            health_score_bits: self.health_score_bits,
            last_reading_ago_secs: self.last_reading_ago_secs,
            active_alerts: self.active_alerts,
        }
    }
}

impl RoomSummary {
    /// A room summary with no active alerts.
    pub fn new(
        room_id: &str,
        room_type: RoomType,
        status: RoomStatus,
        autonomy_pct_bits: u64,
        health_score_bits: u64,
        last_reading_ago_secs: u64,
    ) -> (r: Self)
        ensures
            r.room_id@ == room_id@,
            r.room_type == room_type,
            r.status == status,
            r.autonomy_pct_bits == autonomy_pct_bits,
            r.health_score_bits == health_score_bits,
            r.last_reading_ago_secs == last_reading_ago_secs,
            r.active_alerts == 0,
    {
        Self {
            room_id: String::from_str(room_id),
            room_type,
            status,
            autonomy_pct_bits,
            health_score_bits,
            last_reading_ago_secs,
            active_alerts: 0,
        }
    }
}

/// The number of rooms of the sequence with the given status.
pub open spec fn status_count(rooms: Seq<RoomSummary>, status: RoomStatus) -> nat
    decreases rooms.len(),
{
    if rooms.len() == 0 {
        0
    } else {
        status_count(rooms.drop_last(), status) + if rooms.last().status == status { 1nat } else { 0nat }
    }
}

/// The number of rooms with the given status.
pub fn rooms_with_status(rooms: &[RoomSummary], status: RoomStatus) -> (r: usize)
    ensures
        r == status_count(rooms@, status),
{
    let n = rooms.len();
    let mut count: usize = 0;
    let mut i: usize = 0;
    while i < n
        invariant
            i <= n,
            n == rooms@.len(),
            count == status_count(rooms@.take(i as int), status),
            count <= i,
        decreases n - i,
    {
        assert(rooms@.take(i + 1).drop_last() =~= rooms@.take(i as int));
        if rooms[i].status == status {
            count = count + 1;
        }
        i = i + 1;
    }
    assert(rooms@.take(n as int) =~= rooms@);
    count
}

/// Every room has exactly one of the four statuses: the four status counts
/// add up to the number of rooms.
pub proof fn status_counts_partition(rooms: Seq<RoomSummary>)
    ensures
        status_count(rooms, RoomStatus::Nominal) + status_count(rooms, RoomStatus::Warning) + status_count(
            rooms,
            RoomStatus::Critical,
        ) + status_count(rooms, RoomStatus::Offline) == rooms.len(),
    decreases rooms.len(),
{
    if rooms.len() > 0 {
        status_counts_partition(rooms.drop_last());
    }
}

/// The test "this room has status `status`".
pub open spec fn with_status(status: RoomStatus) -> spec_fn(RoomSummary) -> bool {
    |r: RoomSummary| r.status == status
}

/// The count for a status is the number of rooms that have exactly that
/// status.
pub proof fn status_count_counts_rooms_with_status(rooms: Seq<RoomSummary>, status: RoomStatus)
    ensures
        status_count(rooms, status) == rooms.filter(with_status(status)).len(),
    decreases rooms.len(),
{
    if rooms.len() > 0 {
        status_count_counts_rooms_with_status(rooms.drop_last(), status);
        rooms.drop_last().lemma_filter_push(rooms.last(), with_status(status));
        assert(rooms.drop_last().push(rooms.last()) =~= rooms);
    }
}

/// The number of alerts of the sequence at severity Critical or above.
pub open spec fn critical_count(alerts: Seq<AlertSummary>) -> nat
    decreases alerts.len(),
{
    if alerts.len() == 0 {
        0
    } else {
        critical_count(alerts.drop_last()) + if severity_rank(alerts.last().severity) >= 2 {
            1nat
        } else {
            0nat
        }
    }
}

/// The number of alerts at severity Critical or above.
pub fn critical_alert_count(alerts: &[AlertSummary]) -> (r: usize)
    ensures
        r == critical_count(alerts@),
{
    let n = alerts.len();
    let mut count: usize = 0;
    let mut i: usize = 0;
    while i < n
        invariant
            i <= n,
            n == alerts@.len(),
            count == critical_count(alerts@.take(i as int)),
            count <= i,
        decreases n - i,
    {
        assert(alerts@.take(i + 1).drop_last() =~= alerts@.take(i as int));
        if rank(alerts[i].severity) >= 2 {
            count = count + 1;
        }
        i = i + 1;
    }
    assert(alerts@.take(n as int) =~= alerts@);
    count
}

/// The alerts of the sequence with the given severity, in their order.
pub open spec fn alerts_at(alerts: Seq<AlertSummary>, s: Severity) -> Seq<AlertSummary>
    decreases alerts.len(),
{
    if alerts.len() == 0 {
        Seq::empty()
    } else if alerts.last().severity == s {
        alerts_at(alerts.drop_last(), s).push(alerts.last())
    } else {
        alerts_at(alerts.drop_last(), s)
    }
}

/// The alerts ordered most severe first, alerts of equal severity keeping
/// their relative order (a stable sort by descending severity).
pub open spec fn sorted_by_severity(alerts: Seq<AlertSummary>) -> Seq<AlertSummary> {
    alerts_at(alerts, Severity::Emergency) + alerts_at(alerts, Severity::Critical) + alerts_at(
        alerts,
        Severity::Warning,
    ) + alerts_at(alerts, Severity::Info)
}

/// Sort alerts by severity, most severe first; alerts of equal severity keep
/// their relative order.
fn sort_alerts(alerts: &mut Vec<AlertSummary>)
    ensures
        final(alerts)@ == sorted_by_severity(old(alerts)@),
{
    let mut all: Vec<AlertSummary> = Vec::new();
    std::mem::swap(&mut all, alerts);
    let ghost orig = all@;
    let mut emergency: Vec<AlertSummary> = Vec::new();
    let mut critical: Vec<AlertSummary> = Vec::new();
    let mut warning: Vec<AlertSummary> = Vec::new();
    let mut info: Vec<AlertSummary> = Vec::new();
    let ghost mut seen: int = 0;
    for a in it: all.into_iter()
        invariant
            it.seq() == orig,
            seen == it.index(),
            0 <= seen <= orig.len(),
            emergency@ == alerts_at(orig.take(seen), Severity::Emergency),
            critical@ == alerts_at(orig.take(seen), Severity::Critical),
            warning@ == alerts_at(orig.take(seen), Severity::Warning),
            info@ == alerts_at(orig.take(seen), Severity::Info),
    {
        proof {
            assert(orig.take(seen + 1).drop_last() =~= orig.take(seen));
            assert(orig.take(seen + 1).last() == a);
        }
        match a.severity {
            Severity::Emergency => emergency.push(a),
            Severity::Critical => critical.push(a),
            Severity::Warning => warning.push(a),
            Severity::Info => info.push(a),
        }
        proof {
            seen = seen + 1;
        }
    }
    assert(orig.take(seen) =~= orig);
    alerts.append(&mut emergency);
    alerts.append(&mut critical);
    alerts.append(&mut warning);
    alerts.append(&mut info);
}

/// Every alert picked out for a severity has that severity.
pub proof fn lemma_alerts_at_severity(alerts: Seq<AlertSummary>, s: Severity)
    ensures
        forall|i: int| 0 <= i < alerts_at(alerts, s).len() ==> (#[trigger] alerts_at(alerts, s)[i]).severity == s,
        alerts_at(alerts, s).len() <= alerts.len(),
    decreases alerts.len(),
{
    if alerts.len() > 0 {
        lemma_alerts_at_severity(alerts.drop_last(), s);
    }
}

/// The severity buckets together hold as many alerts as the input.
proof fn lemma_alerts_at_total(alerts: Seq<AlertSummary>)
    ensures
        alerts_at(alerts, Severity::Emergency).len() + alerts_at(alerts, Severity::Critical).len()
            + alerts_at(alerts, Severity::Warning).len() + alerts_at(alerts, Severity::Info).len()
            == alerts.len(),
    decreases alerts.len(),
{
    if alerts.len() > 0 {
        lemma_alerts_at_total(alerts.drop_last());
    }
}

/// Sorting by severity keeps the number of alerts and orders them from most
/// to least severe.
pub proof fn sort_orders_by_descending_severity(alerts: Seq<AlertSummary>)
    ensures
        sorted_by_severity(alerts).len() == alerts.len(),
        forall|i: int, j: int|
            0 <= i < j < alerts.len() ==> severity_rank(#[trigger] sorted_by_severity(alerts)[i].severity)
                >= severity_rank(#[trigger] sorted_by_severity(alerts)[j].severity),
{
    let e = alerts_at(alerts, Severity::Emergency);
    let c = alerts_at(alerts, Severity::Critical);
    let w = alerts_at(alerts, Severity::Warning);
    let f = alerts_at(alerts, Severity::Info);
    lemma_alerts_at_severity(alerts, Severity::Emergency);
    lemma_alerts_at_severity(alerts, Severity::Critical);
    lemma_alerts_at_severity(alerts, Severity::Warning);
    lemma_alerts_at_severity(alerts, Severity::Info);
    lemma_alerts_at_total(alerts);
    let r = sorted_by_severity(alerts);
    assert forall|i: int| 0 <= i < r.len() implies severity_rank(#[trigger] r[i].severity) == (if i
        < e.len() {
        3int
    } else if i < e.len() + c.len() {
        2int
    } else if i < e.len() + c.len() + w.len() {
        1int
    } else {
        0int
    }) by {
        if i < e.len() {
            assert(r[i] == e[i]);
        } else if i < e.len() + c.len() {
            assert(r[i] == c[i - e.len()]);
        } else if i < e.len() + c.len() + w.len() {
            assert(r[i] == w[i - e.len() - c.len()]);
        } else {
            assert(r[i] == f[i - e.len() - c.len() - w.len()]);
        }
    }
}

/// The test "this alert has severity `s`".
pub open spec fn of_severity(s: Severity) -> spec_fn(AlertSummary) -> bool {
    |x: AlertSummary| x.severity == s
}

/// The test "this alert is Critical or Emergency".
pub open spec fn critical_or_worse() -> spec_fn(AlertSummary) -> bool {
    |x: AlertSummary| x.severity == Severity::Critical || x.severity == Severity::Emergency
}

/// The alerts picked out for a severity are exactly the input's alerts of
/// that severity, each unchanged, in their input order.
pub proof fn alerts_at_is_filter(alerts: Seq<AlertSummary>, s: Severity)
    ensures
        alerts_at(alerts, s) == alerts.filter(of_severity(s)),
    decreases alerts.len(),
{
    if alerts.len() > 0 {
        alerts_at_is_filter(alerts.drop_last(), s);
        alerts.drop_last().lemma_filter_push(alerts.last(), of_severity(s));
        assert(alerts.drop_last().push(alerts.last()) =~= alerts);
    }
}

/// The severity buckets together hold the input's alerts, each unchanged,
/// as many times as they occur in the input.
proof fn lemma_buckets_multiset(alerts: Seq<AlertSummary>)
    ensures
        alerts_at(alerts, Severity::Emergency).to_multiset().add(
            alerts_at(alerts, Severity::Critical).to_multiset(),
        ).add(alerts_at(alerts, Severity::Warning).to_multiset()).add(
            alerts_at(alerts, Severity::Info).to_multiset(),
        ) == alerts.to_multiset(),
    decreases alerts.len(),
{
    broadcast use vstd::multiset::group_multiset_axioms;
    broadcast use vstd::seq_lib::group_to_multiset_ensures;

    if alerts.len() == 0 {
        assert(alerts.to_multiset() =~= vstd::multiset::Multiset::empty());
        assert(alerts_at(alerts, Severity::Emergency).to_multiset().add(
            alerts_at(alerts, Severity::Critical).to_multiset(),
        ).add(alerts_at(alerts, Severity::Warning).to_multiset()).add(
            alerts_at(alerts, Severity::Info).to_multiset(),
        ) =~= vstd::multiset::Multiset::empty());
    } else {
        let rest = alerts.drop_last();
        let x = alerts.last();
        lemma_buckets_multiset(rest);
        assert(rest.push(x) =~= alerts);
        assert(alerts.to_multiset() =~= rest.to_multiset().insert(x));
        assert(alerts_at(alerts, Severity::Emergency).to_multiset().add(
            alerts_at(alerts, Severity::Critical).to_multiset(),
        ).add(alerts_at(alerts, Severity::Warning).to_multiset()).add(
            alerts_at(alerts, Severity::Info).to_multiset(),
        ) =~= alerts.to_multiset());
    }
}

/// Sorting only reorders: the sorted alerts are the input's alerts, each
/// with every field unchanged, as many times as they occur in the input.
pub proof fn sort_is_permutation(alerts: Seq<AlertSummary>)
    ensures
        sorted_by_severity(alerts).to_multiset() == alerts.to_multiset(),
{
    broadcast use vstd::multiset::group_multiset_axioms;

    let e = alerts_at(alerts, Severity::Emergency);
    let c = alerts_at(alerts, Severity::Critical);
    let w = alerts_at(alerts, Severity::Warning);
    let f = alerts_at(alerts, Severity::Info);
    lemma_buckets_multiset(alerts);
    vstd::seq_lib::lemma_multiset_commutative(e, c);
    vstd::seq_lib::lemma_multiset_commutative(e + c, w);
    vstd::seq_lib::lemma_multiset_commutative(e + c + w, f);
}

/// The critical count is the number of alerts whose severity is Critical or
/// Emergency, whatever their other fields.
pub proof fn critical_count_counts_critical_alerts(alerts: Seq<AlertSummary>)
    ensures
        critical_count(alerts) == alerts.filter(critical_or_worse()).len(),
    decreases alerts.len(),
{
    if alerts.len() > 0 {
        critical_count_counts_critical_alerts(alerts.drop_last());
        alerts.drop_last().lemma_filter_push(alerts.last(), critical_or_worse());
        assert(alerts.drop_last().push(alerts.last()) =~= alerts);
    }
}

/// Acknowledging an alert, or withdrawing its acknowledgement, leaves the
/// critical count unchanged.
pub proof fn critical_count_ignores_acknowledgment(alerts: Seq<AlertSummary>, i: int, acked: bool)
    requires
        0 <= i < alerts.len(),
    ensures
        critical_count(alerts.update(i, (AlertSummary { acknowledged: acked, ..alerts[i] })))
            == critical_count(alerts),
    decreases alerts.len(),
{
    let u = alerts.update(i, (AlertSummary { acknowledged: acked, ..alerts[i] }));
    if i == alerts.len() - 1 {
        assert(u.drop_last() =~= alerts.drop_last());
    } else {
        assert(u.drop_last() =~= alerts.drop_last().update(i, (AlertSummary { acknowledged: acked, ..alerts[i] })));
        critical_count_ignores_acknowledgment(alerts.drop_last(), i, acked);
    }
}

/// Whether `c` has the Unicode White_Space property (what `char::is_whitespace` tests).
pub open spec fn is_whitespace_spec(c: char) -> bool {
    let u = c as u32;
    (0x09 <= u <= 0x0D) || u == 0x20 || u == 0x85 || u == 0xA0 || u == 0x1680 || (0x2000 <= u
        <= 0x200A) || u == 0x2028 || u == 0x2029 || u == 0x202F || u == 0x205F || u == 0x3000
}

fn is_whitespace(c: char) -> (r: bool)
    ensures
        r == is_whitespace_spec(c),
{
    let u = c as u32;
    (0x09 <= u && u <= 0x0D) || u == 0x20 || u == 0x85 || u == 0xA0 || u == 0x1680 || (0x2000 <= u
        && u <= 0x200A) || u == 0x2028 || u == 0x2029 || u == 0x202F || u == 0x205F || u == 0x3000
}

/// Whether the text holds nothing but whitespace (it is empty once trimmed).
pub open spec fn is_blank(s: Seq<char>) -> bool {
    forall|i: int| 0 <= i < s.len() ==> is_whitespace_spec(#[trigger] s[i])
}

fn blank(text: &str) -> (r: bool)
    ensures
        r == is_blank(text@),
{
    let ghost mut seen: int = 0;
    for c in it: text.chars()
        invariant
            it.seq() == text@,
            seen == it.index(),
            forall|i: int| 0 <= i < seen ==> is_whitespace_spec(#[trigger] text@[i]),
    {
        if !is_whitespace(c) {
            return false;
        }
        proof {
            seen = seen + 1;
        }
    }
    true
}

/// Dashboard configuration.
#[derive(Debug)]
pub struct DashboardConfig {
    pub fleet_name: String,
    pub refresh_interval_secs: u64,
    pub alert_ttl_secs: u64,
}

impl Clone for DashboardConfig {
    fn clone(&self) -> (r: Self)
        ensures
            r == *self,
    {
        DashboardConfig {
            fleet_name: self.fleet_name.clone(),
            refresh_interval_secs: self.refresh_interval_secs,
            alert_ttl_secs: self.alert_ttl_secs,
        }
    }
}

/// The first rule a configuration breaks, as its error message, or `None`
/// when it is valid: the fleet name must not be blank, and the refresh
/// interval and alert time-to-live must be positive.
pub open spec fn config_error(c: DashboardConfig) -> Option<Seq<char>> {
    if is_blank(c.fleet_name@) {
        Some("fleet_name must not be empty"@)
    } else if c.refresh_interval_secs == 0 {
        Some("refresh_interval_secs must be > 0"@)
    } else if c.alert_ttl_secs == 0 {
        Some("alert_ttl_secs must be > 0"@)
    } else {
        None
    }
}

impl Default for DashboardConfig {
    fn default() -> (r: Self)
        ensures
            r.fleet_name@ == "F/V AURORA"@,
            r.refresh_interval_secs == 30,
            r.alert_ttl_secs == 3600,
    {
        Self { fleet_name: String::from_str("F/V AURORA"), refresh_interval_secs: 30, alert_ttl_secs: 3600 }
    }
}

impl DashboardConfig {
    /// A configuration with the given fleet name and the default intervals.
    pub fn new(fleet_name: &str) -> (r: Self)
        ensures
            r.fleet_name@ == fleet_name@,
            r.refresh_interval_secs == 30,
            r.alert_ttl_secs == 3600,
    {
        Self { fleet_name: String::from_str(fleet_name), refresh_interval_secs: 30, alert_ttl_secs: 3600 }
    }

    /// Validate config. Returns `Ok(())` or the message of the first rule broken.
    pub fn validate(&self) -> (r: Result<(), String>)
        ensures
            match r {
                Ok(()) => config_error(*self) is None,
                Err(m) => config_error(*self) == Some(m@),
            },
    {
        if blank(self.fleet_name.as_str()) {
            return Err(String::from_str("fleet_name must not be empty"));
        }
        if self.refresh_interval_secs == 0 {
            return Err(String::from_str("refresh_interval_secs must be > 0"));
        }
        if self.alert_ttl_secs == 0 {
            return Err(String::from_str("alert_ttl_secs must be > 0"));
        }
        Ok(())
    }
}

/// The default configuration passes validation.
pub proof fn default_config_is_valid(c: DashboardConfig)
    requires
        c.fleet_name@ == "F/V AURORA"@,
        c.refresh_interval_secs == 30,
        c.alert_ttl_secs == 3600,
    ensures
        config_error(c) is None,
{
    reveal_strlit("F/V AURORA");
    assert(!is_whitespace_spec(c.fleet_name@[0]));
}

/// The clock time of a unix timestamp, `HH:MM:SS`.
pub open spec fn clock_spec(ts: nat) -> Seq<char> {
    let secs = ts % 86400;
    dec2(secs / 3600) + ":"@ + dec2((secs % 3600) / 60) + ":"@ + dec2(secs % 60)
}

/// Format a unix timestamp as HH:MM:SS (time of day, UTC).
pub fn format_unix_timestamp(ts: u64) -> (r: String)
    ensures
        r@ == clock_spec(ts as nat),
{
    let secs = ts % 86400;
    let h = secs / 3600;
    let m = (secs % 3600) / 60;
    let s = secs % 60;
    let mut out = String::new();
    push_decimal2(&mut out, h);
    push_str(&mut out, ":");
    push_decimal2(&mut out, m);
    push_str(&mut out, ":");
    push_decimal2(&mut out, s);
    assert(out@ =~= clock_spec(ts as nat));
    out
}

/// A number below one hundred takes exactly two characters in `{:02}` form.
proof fn lemma_dec2_len(n: nat)
    requires
        n < 100,
    ensures
        dec2(n).len() == 2,
{
    if n >= 10 {
        assert(dec((n / 10) as nat).len() == 1);
    }
}

/// A formatted timestamp is always eight characters long.
pub proof fn clock_is_eight_chars(ts: nat)
    ensures
        clock_spec(ts).len() == 8,
{
    reveal_strlit(":");
    let secs = ts % 86400;
    lemma_dec2_len(secs / 3600);
    lemma_dec2_len((secs % 3600) / 60);
    lemma_dec2_len(secs % 60);
}

/// The HTML of a summary card: a label over a value.
pub open spec fn stat_card_spec(label: Seq<char>, value: Seq<char>) -> Seq<char> {
    "<div class=\"stat\"><div class=\"label\">"@ + label + "</div><div class=\"value\">"@ + value
        + "</div></div>\n"@
}

/// Render a summary card: a label over a value.
pub fn stat_card(label: &str, value: &str) -> (r: String)
    ensures
        r@ == stat_card_spec(label@, value@),
{
    let mut out = String::from_str("<div class=\"stat\"><div class=\"label\">");
    push_str(&mut out, label);
    push_str(&mut out, "</div><div class=\"value\">");
    push_str(&mut out, value);
    push_str(&mut out, "</div></div>\n");
    out
}

/// Aggregate fleet-level statistics. The two averages are carried as
/// IEEE-754 binary64 bit patterns; nothing here interprets them.
#[derive(Debug)]
pub struct FleetSummary {
    pub total_rooms: usize,
    pub rooms_ok: usize,
    pub rooms_warning: usize,
    pub rooms_critical: usize,
    pub rooms_offline: usize,
    pub fleet_autonomy_pct_bits: u64,
    pub total_alerts: usize,
    pub avg_health_bits: u64,
}

impl Clone for FleetSummary {
    fn clone(&self) -> (r: Self)
        ensures
            r == *self,
    {
        FleetSummary {
            total_rooms: self.total_rooms,
            rooms_ok: self.rooms_ok,
            rooms_warning: self.rooms_warning,
            rooms_critical: self.rooms_critical,
            rooms_offline: self.rooms_offline,
            fleet_autonomy_pct_bits: self.fleet_autonomy_pct_bits,
            total_alerts: self.total_alerts,
            avg_health_bits: self.avg_health_bits,
        }
    }
}

/// The fleet summary of the rooms: their number, the number at each status,
/// the alert count and the two given averages.
pub open spec fn fleet_summary_spec(
    rooms: Seq<RoomSummary>,
    total_alerts: usize,
    fleet_autonomy_pct_bits: u64,
    avg_health_bits: u64,
) -> FleetSummary {
    FleetSummary {
        total_rooms: rooms.len() as usize,
        rooms_ok: status_count(rooms, RoomStatus::Nominal) as usize,
        rooms_warning: status_count(rooms, RoomStatus::Warning) as usize,
        rooms_critical: status_count(rooms, RoomStatus::Critical) as usize,
        rooms_offline: status_count(rooms, RoomStatus::Offline) as usize,
        fleet_autonomy_pct_bits,
        total_alerts,
        avg_health_bits,
    }
}

/// A status count is at most the number of rooms.
proof fn lemma_status_count_bound(rooms: Seq<RoomSummary>, s: RoomStatus)
    ensures
        status_count(rooms, s) <= rooms.len(),
    decreases rooms.len(),
{
    if rooms.len() > 0 {
        lemma_status_count_bound(rooms.drop_last(), s);
    }
}

impl FleetSummary {
    /// Compute the fleet summary from room summaries and the alert count.
    /// The mean autonomy percentage and mean health score over the rooms (0
    /// for no rooms) are floating-point results, handed in as bit patterns.
    pub fn from_rooms(
        rooms: &[RoomSummary],
        total_alerts: usize,
        fleet_autonomy_pct_bits: u64,
        avg_health_bits: u64,
    ) -> (r: Self)
        ensures
            r == fleet_summary_spec(rooms@, total_alerts, fleet_autonomy_pct_bits, avg_health_bits),
    {
        FleetSummary {
            total_rooms: rooms.len(),
            rooms_ok: rooms_with_status(rooms, RoomStatus::Nominal),
            rooms_warning: rooms_with_status(rooms, RoomStatus::Warning),
            rooms_critical: rooms_with_status(rooms, RoomStatus::Critical),
            rooms_offline: rooms_with_status(rooms, RoomStatus::Offline),
            fleet_autonomy_pct_bits,
            total_alerts,
            avg_health_bits,
        }
    }
}

/// The display texts of a summary dashboard's floating-point figures: the
/// fleet autonomy (one decimal place), the average health (two decimal
/// places), and each room's autonomy (one) and health score (two).
#[derive(Debug)]
pub struct FigureTexts {
    pub fleet_autonomy: String,
    pub avg_health: String,
    pub room_autonomy: Vec<String>,
    pub room_health: Vec<String>,
}

/// Top-level summary dashboard container.
#[derive(Debug)]
pub struct Dashboard {
    pub fleet_name: String,
    pub timestamp: u64,
    pub rooms: Vec<RoomSummary>,
    pub fleet_summary: FleetSummary,
    pub active_alerts: Vec<AlertSummary>,
}

impl Clone for FigureTexts {
    fn clone(&self) -> (r: Self)
        ensures
            r.fleet_autonomy == self.fleet_autonomy,
            r.avg_health == self.avg_health,
            r.room_autonomy@ == self.room_autonomy@,
            r.room_health@ == self.room_health@,
    {
        let room_autonomy = self.room_autonomy.clone();
        assert(room_autonomy@ =~= self.room_autonomy@);
        let room_health = self.room_health.clone();
        assert(room_health@ =~= self.room_health@);
        FigureTexts {
            fleet_autonomy: self.fleet_autonomy.clone(),
            avg_health: self.avg_health.clone(),
            room_autonomy,
            room_health,
        }
    }
}

impl Clone for Dashboard {
    fn clone(&self) -> (r: Self)
        ensures
            r.fleet_name == self.fleet_name,
            r.timestamp == self.timestamp,
            r.rooms@ == self.rooms@,
            r.fleet_summary == self.fleet_summary,
            r.active_alerts@ == self.active_alerts@,
    {
        let rooms = self.rooms.clone();
        assert(rooms@ =~= self.rooms@);
        let active_alerts = self.active_alerts.clone();
        assert(active_alerts@ =~= self.active_alerts@);
        Dashboard {
            fleet_name: self.fleet_name.clone(),
            timestamp: self.timestamp,
            rooms,
            fleet_summary: self.fleet_summary.clone(),
            active_alerts,
        }
    }
}

/// The CSS class of a room status.
pub open spec fn status_css_spec(s: RoomStatus) -> Seq<char> {
    match s {
        RoomStatus::Nominal => "ok"@,
        RoomStatus::Warning => "warn"@,
        RoomStatus::Critical => "crit"@,
        RoomStatus::Offline => "off"@,
    }
}

/// The CSS class of an alert severity.
pub open spec fn severity_css_spec(s: Severity) -> Seq<char> {
    match s {
        Severity::Info => "ok"@,
        Severity::Warning => "warn"@,
        Severity::Critical => "crit"@,
        Severity::Emergency => "crit"@,
    }
}

fn status_css(s: RoomStatus) -> (r: &'static str)
    ensures
        r@ == status_css_spec(s),
{
    match s {
        RoomStatus::Nominal => "ok",
        RoomStatus::Warning => "warn",
        RoomStatus::Critical => "crit",
        RoomStatus::Offline => "off",
    }
}

fn severity_css(s: Severity) -> (r: &'static str)
    ensures
        r@ == severity_css_spec(s),
{
    match s {
        Severity::Info => "ok",
        Severity::Warning => "warn",
        Severity::Critical | Severity::Emergency => "crit",
    }
}

/// The value of the "Rooms" card: the count at each status.
pub open spec fn rooms_card_spec(f: FleetSummary) -> Seq<char> {
    dec(f.rooms_ok as nat) + " OK / "@ + dec(f.rooms_warning as nat) + " WARN / "@ + dec(f.rooms_critical as nat)
        + " CRIT / "@ + dec(f.rooms_offline as nat) + " OFF"@
}

/// The figure texts fit the dashboard: one autonomy and one health text per room.
pub open spec fn texts_fit(d: Dashboard, t: FigureTexts) -> bool {
    t.room_autonomy@.len() == d.rooms@.len() && t.room_health@.len() == d.rooms@.len()
}

/// The HTML page up to and including the header row of the rooms table.
pub open spec fn html_head_spec(d: Dashboard, t: FigureTexts) -> Seq<char> {
    "<!DOCTYPE html>\n<html lang=\"en\">\n<head>\n<meta charset=\"utf-8\">\n"@ + "<title>"@ + d.fleet_name@ + " — Fleet Dashboard</title>\n"@ + "<style>\n"@ + "body{font-family:monospace;background:#0d1117;color:#c9d1d9;margin:2em;}\n"@ + "h1{color:#58a6ff;border-bottom:1px solid #30363d;padding-bottom:.5em;}\n"@ + "h2{color:#8b949e;margin-top:1.5em;}\n"@ + "table{border-collapse:collapse;width:100%;margin-top:1em;}\n"@ + "th,td{border:1px solid #30363d;padding:8px 12px;text-align:left;}\n"@ + "th{background:#161b22;color:#58a6ff;}\n"@ + "tr:nth-child(even){background:#161b22;}\n"@ + ".ok{color:#3fb950;}.warn{color:#d29922;}.crit{color:#f85149;}.off{color:#484f58;}\n"@ + ".summary{display:flex;gap:2em;margin:1em 0;flex-wrap:wrap;}\n"@ + ".stat{background:#161b22;border:1px solid #30363d;border-radius:6px;padding:1em 1.5em;}\n"@ + ".stat .label{color:#8b949e;font-size:.85em;}\n"@ + ".stat .value{color:#58a6ff;font-size:1.4em;font-weight:bold;}\n"@ + "</style>\n</head>\n<body>\n"@ + "<h1>"@ + d.fleet_name@ + " — Fleet Dashboard</h1>\n"@ + "<p>Generated: "@ + clock_spec(d.timestamp as nat) + "</p>\n"@ + "<div class=\"summary\">\n"@ + stat_card_spec("Fleet Autonomy"@, t.fleet_autonomy@ + "%"@) + stat_card_spec("Total Alerts"@, dec(d.fleet_summary.total_alerts as nat) + " ("@ + dec(critical_count(d.active_alerts@)) + " CRIT)"@) + stat_card_spec("Avg Health"@, t.avg_health@) + stat_card_spec("Rooms"@, rooms_card_spec(d.fleet_summary)) + "</div>\n"@ + "<h2>Room Status</h2>\n<table>\n"@ + "<tr><th>Room</th><th>Status</th><th>Autonomy</th><th>Health</th><th>Last Reading</th><th>Alerts</th></tr>\n"@
}

/// The HTML row of a room, given its autonomy and health texts.
pub open spec fn html_room_row_spec(r: RoomSummary, autonomy: Seq<char>, health: Seq<char>) -> Seq<char> {
    "<tr><td>"@ + r.room_id@ + "</td><td class=\""@ + status_css_spec(r.status) + "\">"@ + status_icon_spec(r.status) + " "@ + status_label_spec(r.status) + "</td><td>"@ + autonomy + "%</td><td>"@ + health + "</td><td>"@ + dec(r.last_reading_ago_secs as nat) + "s ago</td><td>"@ + dec(r.active_alerts as nat) + "</td></tr>\n"@
}

/// The HTML row of an alert.
pub open spec fn html_alert_row_spec(a: AlertSummary) -> Seq<char> {
    "<tr><td>"@ + a.room_id@ + "</td><td>"@ + a.alert_type@ + "</td><td class=\""@ + severity_css_spec(a.severity) + "\">"@ + severity_icon_spec(a.severity) + " "@ + severity_label_spec(a.severity) + "</td><td>"@ + a.message@ + "</td><td>"@ + (if a.acknowledged { "✅"@ } else { "❌"@ }) + "</td></tr>\n"@
}

/// The HTML rows of the first `n` rooms.
pub open spec fn html_room_rows(rooms: Seq<RoomSummary>, aut: Seq<Seq<char>>, hea: Seq<Seq<char>>, n: nat) -> Seq<char>
    decreases n,
{
    if n == 0 {
        Seq::empty()
    } else {
        html_room_rows(rooms, aut, hea, (n - 1) as nat) + html_room_row_spec(rooms[n - 1], aut[n - 1], hea[n - 1])
    }
}

/// The HTML rows of the first `n` alerts.
pub open spec fn html_alert_rows(alerts: Seq<AlertSummary>, n: nat) -> Seq<char>
    decreases n,
{
    if n == 0 {
        Seq::empty()
    } else {
        html_alert_rows(alerts, (n - 1) as nat) + html_alert_row_spec(alerts[n - 1])
    }
}

/// The whole HTML page: head, room rows, the alerts table when there are
/// alerts, and the closing tags.
pub open spec fn render_html_spec(d: Dashboard, t: FigureTexts) -> Seq<char> {
    html_head_spec(d, t) + html_room_rows(d.rooms@, views(t.room_autonomy@), views(t.room_health@), d.rooms@.len())
        + "</table>\n"@ + (if d.active_alerts@.len() > 0 {
        "<h2>Active Alerts</h2>\n<table>\n"@
            + "<tr><th>Room</th><th>Type</th><th>Severity</th><th>Message</th><th>Ack</th></tr>\n"@
            + html_alert_rows(d.active_alerts@, d.active_alerts@.len()) + "</table>\n"@
    } else {
        Seq::empty()
    }) + "</body>\n</html>\n"@
}

/// The title text of the terminal table.
pub open spec fn text_title_spec(d: Dashboard) -> Seq<char> {
    "  "@ + d.fleet_name@ + " — Fleet Dashboard    "@ + clock_spec(d.timestamp as nat) + "  "@
}

/// The fleet summary text of the terminal table.
pub open spec fn text_summary_spec(d: Dashboard, t: FigureTexts) -> Seq<char> {
    "  Fleet Autonomy: "@ + t.fleet_autonomy@ + "%  │  Alerts: "@ + dec(d.fleet_summary.total_alerts as nat) + " ("@
        + dec(critical_count(d.active_alerts@)) + " CRIT)   "@
}

/// The terminal table row of a room, given its autonomy and health texts.
pub open spec fn text_row_spec(r: RoomSummary, autonomy: Seq<char>, health: Seq<char>) -> Seq<char> {
    "║  "@ + left_align(r.room_id@, 10) + "║ "@ + left_align(status_icon_spec(r.status) + " "@ + status_label_spec(r.status), 9) + "║ "@ + right_align(autonomy, 8) + "%  ║ "@ + right_align(health, 11) + " ║\n"@
}

/// The terminal table rows of the first `n` rooms.
pub open spec fn text_rows(rooms: Seq<RoomSummary>, aut: Seq<Seq<char>>, hea: Seq<Seq<char>>, n: nat) -> Seq<char>
    decreases n,
{
    if n == 0 {
        Seq::empty()
    } else {
        text_rows(rooms, aut, hea, (n - 1) as nat) + text_row_spec(rooms[n - 1], aut[n - 1], hea[n - 1])
    }
}

/// The terminal table: a double-line frame with the centered title and
/// fleet summary, a header, one row per room, and the closing border.
pub open spec fn render_text_spec(d: Dashboard, t: FigureTexts) -> Seq<char> {
    "╔"@ + repeat_seq('═', 50) + "╗\n"@ + "║"@ + center_spec(text_title_spec(d), 50) + "║\n"@ + "╠"@ + repeat_seq(
        '═',
        50,
    ) + "╣\n"@ + "║"@ + center_spec(text_summary_spec(d, t), 50) + "║\n"@
        + "╠════════════╦═══════════╦═══════════╦═════════════╣\n"@
        + "║  Room      ║ Status    ║ Autonomy  ║ Health      ║\n"@
        + "╠════════════╬═══════════╬═══════════╬═════════════╣\n"@ + text_rows(
        d.rooms@,
        views(t.room_autonomy@),
        views(t.room_health@),
        d.rooms@.len(),
    ) + "╚════════════╩═══════════╩═══════════╩═════════════╝\n"@
}

impl Dashboard {
    /// Build a dashboard from config, rooms, alerts, a unix timestamp, and
    /// the fleet's mean autonomy percentage and mean health score (0 for no
    /// rooms), which are floating-point results handed in as bit patterns.
    pub fn new(
        config: &DashboardConfig,
        rooms: Vec<RoomSummary>,
        active_alerts: Vec<AlertSummary>,
        timestamp: u64,
        fleet_autonomy_pct_bits: u64,
        avg_health_bits: u64,
    ) -> (r: Self)
        ensures
            r.fleet_name@ == config.fleet_name@,
            r.timestamp == timestamp,
            r.rooms@ == rooms@,
            r.active_alerts@ == active_alerts@,
            r.fleet_summary == fleet_summary_spec(
                rooms@,
                active_alerts@.len() as usize,
                fleet_autonomy_pct_bits,
                avg_health_bits,
            ),
    {
        let fleet_summary = FleetSummary::from_rooms(
            rooms.as_slice(),
            active_alerts.len(),
            fleet_autonomy_pct_bits,
            avg_health_bits,
        );
        Self { fleet_name: config.fleet_name.clone(), timestamp, rooms, fleet_summary, active_alerts }
    }

    /// Render dashboard as a formatted table for terminal display, given the
    /// display texts of its floating-point figures.
    pub fn render_text(&self, texts: &FigureTexts) -> (r: String)
        requires
            texts_fit(*self, *texts),
        ensures
            r@ == render_text_spec(*self, *texts),
    {
        let ghost d = *self;
        let ghost t = *texts;
        let ghost aut = views(texts.room_autonomy@);
        let ghost hea = views(texts.room_health@);
        let ts_str = format_unix_timestamp(self.timestamp);

        // Header
        let mut title = String::from_str("  ");
        push_str(&mut title, self.fleet_name.as_str());
        push_str(&mut title, " — Fleet Dashboard    ");
        push_str(&mut title, ts_str.as_str());
        push_str(&mut title, "  ");
        assert(title@ =~= text_title_spec(d));
        let mut out = String::from_str("╔");
        push_repeat(&mut out, '═', 50);
        push_str(&mut out, "╗\n");
        push_str(&mut out, "║");
        let centered = Render::center(title.as_str(), 50);
        push_str(&mut out, centered.as_str());
        push_str(&mut out, "║\n");
        push_str(&mut out, "╠");
        push_repeat(&mut out, '═', 50);
        push_str(&mut out, "╣\n");

        // Fleet summary line
        let crit = critical_alert_count(self.active_alerts.as_slice());
        let mut summary = String::from_str("  Fleet Autonomy: ");
        push_str(&mut summary, texts.fleet_autonomy.as_str());
        push_str(&mut summary, "%  │  Alerts: ");
        push_decimal(&mut summary, self.fleet_summary.total_alerts as u64);
        push_str(&mut summary, " (");
        push_decimal(&mut summary, crit as u64);
        push_str(&mut summary, " CRIT)   ");
        assert(summary@ =~= text_summary_spec(d, t));
        push_str(&mut out, "║");
        let centered_summary = Render::center(summary.as_str(), 50);
        push_str(&mut out, centered_summary.as_str());
        push_str(&mut out, "║\n");

        // Table header
        push_str(&mut out, "╠════════════╦═══════════╦═══════════╦═════════════╣\n");
        push_str(&mut out, "║  Room      ║ Status    ║ Autonomy  ║ Health      ║\n");
        push_str(&mut out, "╠════════════╬═══════════╬═══════════╬═════════════╣\n");
        let ghost head = out@;

        // Room rows
        let n = self.rooms.len();
        let mut i: usize = 0;
        while i < n
            invariant
                i <= n,
                n == d.rooms@.len(),
                d == *self,
                t == *texts,
                texts_fit(d, t),
                aut == views(texts.room_autonomy@),
                hea == views(texts.room_health@),
                out@ == head + text_rows(d.rooms@, aut, hea, i as nat),
            decreases n - i,
        {
            let room = &self.rooms[i];
            let mut status_str = String::from_str(room.status.icon());
            push_str(&mut status_str, " ");
            push_str(&mut status_str, room.status.label());
            let mut row = String::new();
            push_str(&mut row, "║  ");
            push_left_aligned(&mut row, room.room_id.as_str(), 10);
            push_str(&mut row, "║ ");
            push_left_aligned(&mut row, status_str.as_str(), 9);
            push_str(&mut row, "║ ");
            push_right_aligned(&mut row, texts.room_autonomy[i].as_str(), 8);
            push_str(&mut row, "%  ║ ");
            push_right_aligned(&mut row, texts.room_health[i].as_str(), 11);
            push_str(&mut row, " ║\n");
            let ghost r = d.rooms@[i as int];
            let ghost autonomy = aut[i as int];
            let ghost health = hea[i as int];
            assert(row@ =~= text_row_spec(r, autonomy, health));
            push_str(&mut out, row.as_str());
            i = i + 1;
        }
        push_str(&mut out, "╚════════════╩═══════════╩═══════════╩═════════════╝\n");
        assert(out@ =~= render_text_spec(d, t));
        out
    }

    /// Render dashboard as minimal HTML with inline CSS (dark theme), given
    /// the display texts of its floating-point figures.
    pub fn render_html(&self, texts: &FigureTexts) -> (r: String)
        requires
            texts_fit(*self, *texts),
        ensures
            r@ == render_html_spec(*self, *texts),
    {
        let ghost d = *self;
        let ghost t = *texts;
        let ghost aut = views(texts.room_autonomy@);
        let ghost hea = views(texts.room_health@);
        let ts_str = format_unix_timestamp(self.timestamp);
        let crit_count = critical_alert_count(self.active_alerts.as_slice());

        // Summary cards
        let mut v1 = String::from_str(texts.fleet_autonomy.as_str());
        push_str(&mut v1, "%");
        let card1 = stat_card("Fleet Autonomy", v1.as_str());
        let mut v2 = String::new();
        push_decimal(&mut v2, self.fleet_summary.total_alerts as u64);
        push_str(&mut v2, " (");
        push_decimal(&mut v2, crit_count as u64);
        push_str(&mut v2, " CRIT)");
        let card2 = stat_card("Total Alerts", v2.as_str());
        let card3 = stat_card("Avg Health", texts.avg_health.as_str());
        let mut v4 = String::new();
        push_decimal(&mut v4, self.fleet_summary.rooms_ok as u64);
        push_str(&mut v4, " OK / ");
        push_decimal(&mut v4, self.fleet_summary.rooms_warning as u64);
        push_str(&mut v4, " WARN / ");
        push_decimal(&mut v4, self.fleet_summary.rooms_critical as u64);
        push_str(&mut v4, " CRIT / ");
        push_decimal(&mut v4, self.fleet_summary.rooms_offline as u64);
        push_str(&mut v4, " OFF");
        let card4 = stat_card("Rooms", v4.as_str());
        assert(v4@ =~= rooms_card_spec(d.fleet_summary));
        assert(v2@ =~= dec(d.fleet_summary.total_alerts as nat) + " ("@ + dec(critical_count(d.active_alerts@)) + " CRIT)"@);

        let mut html = String::new();
        push_str(&mut html, "<!DOCTYPE html>\n<html lang=\"en\">\n<head>\n<meta charset=\"utf-8\">\n");
        push_str(&mut html, "<title>");
        push_str(&mut html, self.fleet_name.as_str());
        push_str(&mut html, " — Fleet Dashboard</title>\n");
        push_str(&mut html, "<style>\n");
        push_str(&mut html, "body{font-family:monospace;background:#0d1117;color:#c9d1d9;margin:2em;}\n");
        push_str(&mut html, "h1{color:#58a6ff;border-bottom:1px solid #30363d;padding-bottom:.5em;}\n");
        push_str(&mut html, "h2{color:#8b949e;margin-top:1.5em;}\n");
        push_str(&mut html, "table{border-collapse:collapse;width:100%;margin-top:1em;}\n");
        push_str(&mut html, "th,td{border:1px solid #30363d;padding:8px 12px;text-align:left;}\n");
        push_str(&mut html, "th{background:#161b22;color:#58a6ff;}\n");
        push_str(&mut html, "tr:nth-child(even){background:#161b22;}\n");
        push_str(&mut html, ".ok{color:#3fb950;}.warn{color:#d29922;}.crit{color:#f85149;}.off{color:#484f58;}\n");
        push_str(&mut html, ".summary{display:flex;gap:2em;margin:1em 0;flex-wrap:wrap;}\n");
        push_str(&mut html, ".stat{background:#161b22;border:1px solid #30363d;border-radius:6px;padding:1em 1.5em;}\n");
        push_str(&mut html, ".stat .label{color:#8b949e;font-size:.85em;}\n");
        push_str(&mut html, ".stat .value{color:#58a6ff;font-size:1.4em;font-weight:bold;}\n");
        push_str(&mut html, "</style>\n</head>\n<body>\n");
        push_str(&mut html, "<h1>");
        push_str(&mut html, self.fleet_name.as_str());
        push_str(&mut html, " — Fleet Dashboard</h1>\n");
        push_str(&mut html, "<p>Generated: ");
        push_str(&mut html, ts_str.as_str());
        push_str(&mut html, "</p>\n");
        push_str(&mut html, "<div class=\"summary\">\n");
        push_str(&mut html, card1.as_str());
        push_str(&mut html, card2.as_str());
        push_str(&mut html, card3.as_str());
        push_str(&mut html, card4.as_str());
        push_str(&mut html, "</div>\n");
        push_str(&mut html, "<h2>Room Status</h2>\n<table>\n");
        push_str(&mut html, "<tr><th>Room</th><th>Status</th><th>Autonomy</th><th>Health</th><th>Last Reading</th><th>Alerts</th></tr>\n");
        assert(html@ =~= html_head_spec(d, t));
        let ghost head = html@;

        // Rooms table
        let n = self.rooms.len();
        let mut i: usize = 0;
        while i < n
            invariant
                i <= n,
                n == d.rooms@.len(),
                d == *self,
                t == *texts,
                texts_fit(d, t),
                aut == views(texts.room_autonomy@),
                hea == views(texts.room_health@),
                html@ == head + html_room_rows(d.rooms@, aut, hea, i as nat),
            decreases n - i,
        {
            let room = &self.rooms[i];
            let mut row = String::new();
            push_str(&mut row, "<tr><td>");
            push_str(&mut row, room.room_id.as_str());
            push_str(&mut row, "</td><td class=\"");
            push_str(&mut row, status_css(room.status));
            push_str(&mut row, "\">");
            push_str(&mut row, room.status.icon());
            push_str(&mut row, " ");
            push_str(&mut row, room.status.label());
            push_str(&mut row, "</td><td>");
            push_str(&mut row, texts.room_autonomy[i].as_str());
            push_str(&mut row, "%</td><td>");
            push_str(&mut row, texts.room_health[i].as_str());
            push_str(&mut row, "</td><td>");
            push_decimal(&mut row, room.last_reading_ago_secs);
            push_str(&mut row, "s ago</td><td>");
            push_decimal(&mut row, room.active_alerts as u64);
            push_str(&mut row, "</td></tr>\n");
            let ghost r = d.rooms@[i as int];
            let ghost autonomy = aut[i as int];
            let ghost health = hea[i as int];
            assert(row@ =~= html_room_row_spec(r, autonomy, health));
            push_str(&mut html, row.as_str());
            i = i + 1;
        }
        push_str(&mut html, "</table>\n");
        let ghost body = html@;

        // Alerts table
        if self.active_alerts.len() > 0 {
            push_str(&mut html, "<h2>Active Alerts</h2>\n<table>\n");
            push_str(&mut html, "<tr><th>Room</th><th>Type</th><th>Severity</th><th>Message</th><th>Ack</th></tr>\n");
            let ghost alerts_head = html@;
            let m = self.active_alerts.len();
            let mut k: usize = 0;
            while k < m
                invariant
                    k <= m,
                    m == d.active_alerts@.len(),
                    d == *self,
                    html@ == alerts_head + html_alert_rows(d.active_alerts@, k as nat),
                decreases m - k,
            {
                let alert = &self.active_alerts[k];
                let mut row = String::new();
                push_str(&mut row, "<tr><td>");
                push_str(&mut row, alert.room_id.as_str());
                push_str(&mut row, "</td><td>");
                push_str(&mut row, alert.alert_type.as_str());
                push_str(&mut row, "</td><td class=\"");
                push_str(&mut row, severity_css(alert.severity));
                push_str(&mut row, "\">");
                push_str(&mut row, alert.severity.icon());
                push_str(&mut row, " ");
                push_str(&mut row, alert.severity.label());
                push_str(&mut row, "</td><td>");
                push_str(&mut row, alert.message.as_str());
                push_str(&mut row, "</td><td>");
                push_str(&mut row, if alert.acknowledged { "✅" } else { "❌" });
                push_str(&mut row, "</td></tr>\n");
                let ghost a = d.active_alerts@[k as int];
                assert(row@ =~= html_alert_row_spec(a));
                push_str(&mut html, row.as_str());
                k = k + 1;
            }
            push_str(&mut html, "</table>\n");
        }

        push_str(&mut html, "</body>\n</html>\n");
        assert(html@ =~= render_html_spec(d, t));
        html
    }

    /// Sort alerts by severity (descending, most severe first); alerts of
    /// equal severity keep their relative order. Nothing else changes.
    pub fn sort_alerts_by_severity(&mut self)
        ensures
            final(self).active_alerts@ == sorted_by_severity(old(self).active_alerts@),
            final(self).fleet_name == old(self).fleet_name,
            final(self).timestamp == old(self).timestamp,
            final(self).rooms == old(self).rooms,
            final(self).fleet_summary == old(self).fleet_summary,
    {
        sort_alerts(&mut self.active_alerts);
    }
}

} // verus!
