//! Statistical aggregation: turning a snapshot history into per-resource
//! statistics, an overall status, and the final report.

use vstd::prelude::*;

use crate::clock::{local_timestamp_compact, now_unix};
use crate::config::Config;
use crate::metrics::{CriticalEventV, Severity};
use crate::store::{history_view, Snapshot, SnapshotV};

verus! {

/// Min, max, average and final value of one resource's percentage across a
/// history, all in tenths of a percent.
#[derive(Debug, Clone, Copy, PartialEq, Eq, Structural)]
pub struct ResourceStats {
    pub min: u64,
    pub max: u64,
    pub avg: u64,
    pub final_value: u64,
}

/// Aggregate statistics of one snapshot history.
#[derive(Debug, Clone, Copy, PartialEq, Eq, Structural)]
pub struct Statistics {
    pub total_snapshots: usize,
    /// Whole seconds between the first and the last snapshot; zero for
    /// histories of fewer than two snapshots.
    pub duration_seconds: i64,
    pub memory_stats: ResourceStats,
    pub cpu_stats: ResourceStats,
    pub load_stats: ResourceStats,
    pub swap_stats: ResourceStats,
    pub total_critical_events: usize,
}

/// The overall verdict of a run.
#[derive(Debug, Clone, Copy, PartialEq, Eq, Structural)]
pub enum OverallStatus {
    Stable,
    Warning,
    Critical,
}

/// Tally of event severities across a history, and the verdict they imply.
#[derive(Debug, Clone, Copy, PartialEq, Eq, Structural)]
pub struct ReportSummary {
    pub overall_status: OverallStatus,
    pub critical_issues: usize,
    pub warnings: usize,
}

/// The smallest element of `s`; zero when `s` is empty.
pub open spec fn seq_min(s: Seq<u64>) -> u64
    decreases s.len(),
{
    if s.len() == 0 {
        0
    } else if s.len() == 1 {
        s[0]
    } else {
        let m = seq_min(s.drop_last());
        if s.last() < m {
            s.last()
        } else {
            m
        }
    }
}

/// The largest element of `s`; zero when `s` is empty.
pub open spec fn seq_max(s: Seq<u64>) -> u64
    decreases s.len(),
{
    if s.len() == 0 {
        0
    } else if s.len() == 1 {
        s[0]
    } else {
        let m = seq_max(s.drop_last());
        if s.last() > m {
            s.last()
        } else {
            m
        }
    }
}

/// The sum of `s`.
pub open spec fn seq_sum(s: Seq<u64>) -> int
    decreases s.len(),
{
    if s.len() == 0 {
        0
    } else {
        seq_sum(s.drop_last()) + s.last()
    }
}

/// Every element's sum lies between zero and `len * u64::MAX`.
pub proof fn lemma_seq_sum_bound(s: Seq<u64>)
    ensures
        0 <= seq_sum(s) <= s.len() * u64::MAX,
    decreases s.len(),
{
    if s.len() == 0 {
    } else {
        lemma_seq_sum_bound(s.drop_last());
        assert((s.len() - 1) * u64::MAX + u64::MAX == s.len() * u64::MAX) by (nonlinear_arith);
    }
}

/// The statistics of one value sequence: all zero when it is empty, else
/// min, max, the average rounded down, and the last value.
pub open spec fn stats_of(values: Seq<u64>) -> ResourceStats {
    if values.len() == 0 {
        ResourceStats { min: 0, max: 0, avg: 0, final_value: 0 }
    } else {
        ResourceStats {
            min: seq_min(values),
            max: seq_max(values),
            avg: (seq_sum(values) / values.len() as int) as u64,
            final_value: values.last(),
        }
    }
}

/// Clips a mathematical integer into `i64`.
pub open spec fn clip_i64(x: int) -> i64 {
    if x > i64::MAX {
        i64::MAX
    } else if x < i64::MIN {
        i64::MIN
    } else {
        x as i64
    }
}

/// Clips a non-negative mathematical integer into `usize`.
pub open spec fn clip_usize(x: int) -> usize {
    if x > usize::MAX {
        usize::MAX
    } else {
        x as usize
    }
}

/// The memory used-percent of every snapshot, in history order.
pub open spec fn mem_values(h: Seq<SnapshotV>) -> Seq<u64> {
    h.map_values(|s: SnapshotV| s.metrics.memory.used_percent_tenths)
}

/// The CPU usage-percent of every snapshot, in history order.
pub open spec fn cpu_values(h: Seq<SnapshotV>) -> Seq<u64> {
    h.map_values(|s: SnapshotV| s.metrics.cpu.cpu_usage_percent_tenths)
}

/// The one-minute load percent of every snapshot, in history order.
pub open spec fn load_values(h: Seq<SnapshotV>) -> Seq<u64> {
    h.map_values(|s: SnapshotV| s.metrics.load.load_percent_1min_tenths)
}

/// The swap used-percent of every snapshot, in history order.
pub open spec fn swap_values(h: Seq<SnapshotV>) -> Seq<u64> {
    h.map_values(|s: SnapshotV| s.metrics.swap.used_percent_tenths)
}

/// Whole seconds between the first and the last snapshot; zero for fewer
/// than two snapshots.
pub open spec fn duration_of(h: Seq<SnapshotV>) -> i64 {
    if h.len() <= 1 {
        0
    } else {
        clip_i64(h.last().timestamp - h.first().timestamp)
    }
}

/// How many critical events the history carries in all.
pub open spec fn event_count(h: Seq<SnapshotV>) -> int
    decreases h.len(),
{
    if h.len() == 0 {
        0
    } else {
        event_count(h.drop_last()) + h.last().metrics.critical_events.len()
    }
}

/// The event total is never negative.
pub proof fn lemma_event_count_nonneg(h: Seq<SnapshotV>)
    ensures
        event_count(h) >= 0,
    decreases h.len(),
{
    if h.len() > 0 {
        lemma_event_count_nonneg(h.drop_last());
    }
}

/// The statistics of one history: all zero for the empty history, never a
/// division failure; else per-resource statistics over the respective
/// percent values, the wall-clock span, and the event total.
pub open spec fn statistics_of(h: Seq<SnapshotV>) -> Statistics {
    Statistics {
        total_snapshots: clip_usize(h.len() as int),
        duration_seconds: duration_of(h),
        memory_stats: stats_of(mem_values(h)),
        cpu_stats: stats_of(cpu_values(h)),
        load_stats: stats_of(load_values(h)),
        swap_stats: stats_of(swap_values(h)),
        total_critical_events: clip_usize(event_count(h)),
    }
}

/// How many events of severity `sev` one reading's event list carries.
pub open spec fn count_sev_events(es: Seq<CriticalEventV>, sev: Severity) -> int
    decreases es.len(),
{
    if es.len() == 0 {
        0
    } else {
        count_sev_events(es.drop_last(), sev) + if es.last().severity == sev {
            1int
        } else {
            0int
        }
    }
}

/// How many events of severity `sev` the whole history carries.
pub open spec fn count_sev(h: Seq<SnapshotV>, sev: Severity) -> int
    decreases h.len(),
{
    if h.len() == 0 {
        0
    } else {
        count_sev(h.drop_last(), sev) + count_sev_events(h.last().metrics.critical_events, sev)
    }
}

/// The verdict a history implies: critical wherever a critical event
/// exists, else warning wherever a high event exists, else stable.
pub open spec fn status_of(h: Seq<SnapshotV>) -> OverallStatus {
    if count_sev(h, Severity::Critical) > 0 {
        OverallStatus::Critical
    } else if count_sev(h, Severity::High) > 0 {
        OverallStatus::Warning
    } else {
        OverallStatus::Stable
    }
}

/// The summary of one history: the verdict and both severity tallies.
pub open spec fn summary_of(h: Seq<SnapshotV>) -> ReportSummary {
    ReportSummary {
        overall_status: status_of(h),
        critical_issues: clip_usize(count_sev(h, Severity::Critical)),
        warnings: clip_usize(count_sev(h, Severity::High)),
    }
}

/// Whether any event of severity `sev` stands anywhere in the history.
pub open spec fn has_event_with(h: Seq<SnapshotV>, sev: Severity) -> bool {
    exists|i: int, j: int|
        0 <= i < h.len() && 0 <= j < h[i].metrics.critical_events.len()
            && (#[trigger] h[i].metrics.critical_events[j]).severity == sev
}

/// A per-list severity count is positive exactly when such an event is in
/// the list, and never negative.
pub proof fn lemma_count_sev_events_pos_iff(es: Seq<CriticalEventV>, sev: Severity)
    ensures
        count_sev_events(es, sev) >= 0,
        count_sev_events(es, sev) > 0 <==> exists|j: int|
            0 <= j < es.len() && (#[trigger] es[j]).severity == sev,
    decreases es.len(),
{
    if es.len() == 0 {
    } else {
        lemma_count_sev_events_pos_iff(es.drop_last(), sev);
        if es.last().severity == sev {
            assert(es[es.len() - 1].severity == sev);
        } else if count_sev_events(es.drop_last(), sev) > 0 {
            let j = choose|j: int|
                0 <= j < es.drop_last().len() && (#[trigger] es.drop_last()[j]).severity == sev;
            assert(es[j].severity == sev);
        } else if exists|j: int| 0 <= j < es.len() && (#[trigger] es[j]).severity == sev {
            let j = choose|j: int| 0 <= j < es.len() && (#[trigger] es[j]).severity == sev;
            assert(j < es.len() - 1 ==> es.drop_last()[j].severity == sev);
        }
    }
}

/// A history-wide severity count is positive exactly when some snapshot
/// carries such an event, and never negative.
pub proof fn lemma_count_sev_pos_iff(h: Seq<SnapshotV>, sev: Severity)
    ensures
        count_sev(h, sev) >= 0,
        count_sev(h, sev) > 0 <==> has_event_with(h, sev),
    decreases h.len(),
{
    if h.len() == 0 {
    } else {
        lemma_count_sev_pos_iff(h.drop_last(), sev);
        lemma_count_sev_events_pos_iff(h.last().metrics.critical_events, sev);
        if count_sev_events(h.last().metrics.critical_events, sev) > 0 {
            let j = choose|j: int|
                0 <= j < h.last().metrics.critical_events.len() && (#[trigger] h.last()
                    .metrics
                    .critical_events[j]).severity == sev;
            assert((h[h.len() - 1].metrics.critical_events[j]).severity == sev);
            assert(has_event_with(h, sev));
        } else if count_sev(h.drop_last(), sev) > 0 {
            let (i, j) = choose|i: int, j: int|
                0 <= i < h.drop_last().len() && 0 <= j < h.drop_last()[i].metrics.critical_events
                    .len() && (#[trigger] h.drop_last()[i].metrics.critical_events[j]).severity
                    == sev;
            assert((h[i].metrics.critical_events[j]).severity == sev);
            assert(has_event_with(h, sev));
        } else if has_event_with(h, sev) {
            let (i, j) = choose|i: int, j: int|
                0 <= i < h.len() && 0 <= j < h[i].metrics.critical_events.len()
                    && (#[trigger] h[i].metrics.critical_events[j]).severity == sev;
            if i < h.len() - 1 {
                assert((h.drop_last()[i].metrics.critical_events[j]).severity == sev);
                assert(has_event_with(h.drop_last(), sev));
            } else {
                assert((h.last().metrics.critical_events[j]).severity == sev);
            }
        }
    }
}

/// The overall status is critical exactly when a critical event exists
/// anywhere in the history; else warning exactly when a high event exists;
/// else stable.
pub proof fn lemma_status_characterization(h: Seq<SnapshotV>)
    ensures
        status_of(h) == OverallStatus::Critical <==> has_event_with(h, Severity::Critical),
        status_of(h) == OverallStatus::Warning <==> !has_event_with(h, Severity::Critical)
            && has_event_with(h, Severity::High),
        status_of(h) == OverallStatus::Stable <==> !has_event_with(h, Severity::Critical)
            && !has_event_with(h, Severity::High),
{
    lemma_count_sev_pos_iff(h, Severity::Critical);
    lemma_count_sev_pos_iff(h, Severity::High);
}

/// The statistics of the empty history: everything zero, nothing fails.
pub proof fn lemma_empty_statistics()
    ensures
        statistics_of(Seq::<SnapshotV>::empty()) == (Statistics {
            total_snapshots: 0,
            duration_seconds: 0,
            memory_stats: ResourceStats { min: 0, max: 0, avg: 0, final_value: 0 },
            cpu_stats: ResourceStats { min: 0, max: 0, avg: 0, final_value: 0 },
            load_stats: ResourceStats { min: 0, max: 0, avg: 0, final_value: 0 },
            swap_stats: ResourceStats { min: 0, max: 0, avg: 0, final_value: 0 },
            total_critical_events: 0,
        }),
        summary_of(Seq::<SnapshotV>::empty()) == (ReportSummary {
            overall_status: OverallStatus::Stable,
            critical_issues: 0,
            warnings: 0,
        }),
{
    assert(mem_values(Seq::<SnapshotV>::empty()).len() == 0);
    assert(cpu_values(Seq::<SnapshotV>::empty()).len() == 0);
    assert(load_values(Seq::<SnapshotV>::empty()).len() == 0);
    assert(swap_values(Seq::<SnapshotV>::empty()).len() == 0);
}

/// Over a single-snapshot history, every resource's min, max, average and
/// final value coincide with that snapshot's value, and the duration is
/// zero.
pub proof fn lemma_single_snapshot_statistics(h: Seq<SnapshotV>)
    requires
        h.len() == 1,
    ensures
        statistics_of(h).duration_seconds == 0,
        statistics_of(h).total_snapshots == 1,
        statistics_of(h).memory_stats == (ResourceStats {
            min: h[0].metrics.memory.used_percent_tenths,
            max: h[0].metrics.memory.used_percent_tenths,
            avg: h[0].metrics.memory.used_percent_tenths,
            final_value: h[0].metrics.memory.used_percent_tenths,
        }),
        statistics_of(h).cpu_stats == (ResourceStats {
            min: h[0].metrics.cpu.cpu_usage_percent_tenths,
            max: h[0].metrics.cpu.cpu_usage_percent_tenths,
            avg: h[0].metrics.cpu.cpu_usage_percent_tenths,
            final_value: h[0].metrics.cpu.cpu_usage_percent_tenths,
        }),
        statistics_of(h).load_stats == (ResourceStats {
            min: h[0].metrics.load.load_percent_1min_tenths,
            max: h[0].metrics.load.load_percent_1min_tenths,
            avg: h[0].metrics.load.load_percent_1min_tenths,
            final_value: h[0].metrics.load.load_percent_1min_tenths,
        }),
        statistics_of(h).swap_stats == (ResourceStats {
            min: h[0].metrics.swap.used_percent_tenths,
            max: h[0].metrics.swap.used_percent_tenths,
            avg: h[0].metrics.swap.used_percent_tenths,
            final_value: h[0].metrics.swap.used_percent_tenths,
        }),
{
    lemma_single_value_stats(mem_values(h), h[0].metrics.memory.used_percent_tenths);
    lemma_single_value_stats(cpu_values(h), h[0].metrics.cpu.cpu_usage_percent_tenths);
    lemma_single_value_stats(load_values(h), h[0].metrics.load.load_percent_1min_tenths);
    lemma_single_value_stats(swap_values(h), h[0].metrics.swap.used_percent_tenths);
}

/// Statistics of a one-element value sequence: all four fields are that
/// element.
proof fn lemma_single_value_stats(values: Seq<u64>, v: u64)
    requires
        values.len() == 1,
        values[0] == v,
    ensures
        stats_of(values) == (ResourceStats { min: v, max: v, avg: v, final_value: v }),
{
    assert(seq_sum(values.drop_last()) == 0);
    assert(seq_sum(values) == v);
}

/// Computes the smallest element; zero for an empty sequence.
fn min_of(values: &Vec<u64>) -> (r: u64)
    ensures
        r == seq_min(values@),
{
    if values.len() == 0 {
        return 0;
    }
    let mut m = values[0];
    let ghost s = values@;
    proof {
        assert(s.take(1).len() == 1 && s.take(1)[0] == s[0]);
    }
    let mut i: usize = 1;
    while i < values.len()
        invariant
            1 <= i <= s.len(),
            s == values@,
            s.len() >= 1,
            m == seq_min(s.take(i as int)),
        decreases s.len() - i,
    {
        let v = values[i];
        proof {
            assert(s.take(i as int + 1).drop_last() =~= s.take(i as int));
            assert(s.take(i as int + 1).last() == s[i as int]);
        }
        if v < m {
            m = v;
        }
        i = i + 1;
    }
    proof {
        assert(s.take(s.len() as int) =~= s);
    }
    m
}

/// Computes the largest element; zero for an empty sequence.
fn max_of(values: &Vec<u64>) -> (r: u64)
    ensures
        r == seq_max(values@),
{
    if values.len() == 0 {
        return 0;
    }
    let mut m = values[0];
    let ghost s = values@;
    proof {
        assert(s.take(1).len() == 1 && s.take(1)[0] == s[0]);
    }
    let mut i: usize = 1;
    while i < values.len()
        invariant
            1 <= i <= s.len(),
            s == values@,
            s.len() >= 1,
            m == seq_max(s.take(i as int)),
        decreases s.len() - i,
    {
        let v = values[i];
        proof {
            assert(s.take(i as int + 1).drop_last() =~= s.take(i as int));
            assert(s.take(i as int + 1).last() == s[i as int]);
        }
        if v > m {
            m = v;
        }
        i = i + 1;
    }
    proof {
        assert(s.take(s.len() as int) =~= s);
    }
    m
}

/// Computes the average, rounded down; the sum is carried in 128 bits, so
/// no length of history can overflow it.
fn avg_of(values: &Vec<u64>) -> (r: u64)
    requires
        values@.len() >= 1,
    ensures
        r as int == seq_sum(values@) / values@.len() as int,
{
    let ghost s = values@;
    let mut sum: u128 = 0;
    let mut i: usize = 0;
    while i < values.len()
        invariant
            0 <= i <= s.len(),
            s == values@,
            sum as int == seq_sum(s.take(i as int)),
        decreases s.len() - i,
    {
        proof {
            assert(s.take(i as int + 1).drop_last() =~= s.take(i as int));
            assert(s.take(i as int + 1).last() == s[i as int]);
            lemma_seq_sum_bound(s.take(i as int));
            assert(i as int * u64::MAX + u64::MAX <= u64::MAX as int * (u64::MAX as int + 1))
                by (nonlinear_arith)
                requires i as int <= u64::MAX as int;
        }
        sum = sum + (values[i] as u128);
        i = i + 1;
    }
    proof {
        assert(s.take(s.len() as int) =~= s);
        lemma_seq_sum_bound(s);
        assert(seq_sum(s) / s.len() as int <= u64::MAX) by (nonlinear_arith)
            requires
                s.len() >= 1,
                0 <= seq_sum(s) <= s.len() * u64::MAX,
        ;
    }
    let len: u128 = values.len() as u128;
    (sum / len) as u64
}

/// Computes the statistics of one value sequence.
pub fn calc_stats(values: &Vec<u64>) -> (r: ResourceStats)
    ensures
        r == stats_of(values@),
{
    if values.len() == 0 {
        ResourceStats { min: 0, max: 0, avg: 0, final_value: 0 }
    } else {
        ResourceStats {
            min: min_of(values),
            max: max_of(values),
            avg: avg_of(values),
            final_value: values[values.len() - 1],
        }
    }
}

/// Collects the memory used-percent of every snapshot.
fn collect_mem_values(snapshots: &Vec<Snapshot>) -> (v: Vec<u64>)
    ensures
        v@ == mem_values(history_view(snapshots@)),
{
    let mut v: Vec<u64> = Vec::new();
    let mut i: usize = 0;
    while i < snapshots.len()
        invariant
            0 <= i <= snapshots@.len(),
            v@.len() == i as int,
            forall|j: int|
                0 <= j < i ==> v@[j] == (#[trigger] snapshots@[j])@.metrics.memory
                    .used_percent_tenths,
        decreases snapshots@.len() - i,
    {
        v.push(snapshots[i].metrics.memory.used_percent_tenths);
        i = i + 1;
    }
    proof {
        assert(v@ =~= mem_values(history_view(snapshots@)));
    }
    v
}

/// Collects the CPU usage-percent of every snapshot.
fn collect_cpu_values(snapshots: &Vec<Snapshot>) -> (v: Vec<u64>)
    ensures
        v@ == cpu_values(history_view(snapshots@)),
{
    let mut v: Vec<u64> = Vec::new();
    let mut i: usize = 0;
    while i < snapshots.len()
        invariant
            0 <= i <= snapshots@.len(),
            v@.len() == i as int,
            forall|j: int|
                0 <= j < i ==> v@[j] == (#[trigger] snapshots@[j])@.metrics.cpu
                    .cpu_usage_percent_tenths,
        decreases snapshots@.len() - i,
    {
        v.push(snapshots[i].metrics.cpu.cpu_usage_percent_tenths);
        i = i + 1;
    }
    proof {
        assert(v@ =~= cpu_values(history_view(snapshots@)));
    }
    v
}

/// Collects the one-minute load percent of every snapshot.
fn collect_load_values(snapshots: &Vec<Snapshot>) -> (v: Vec<u64>)
    ensures
        v@ == load_values(history_view(snapshots@)),
{
    let mut v: Vec<u64> = Vec::new();
    let mut i: usize = 0;
    while i < snapshots.len()
        invariant
            0 <= i <= snapshots@.len(),
            v@.len() == i as int,
            forall|j: int|
                0 <= j < i ==> v@[j] == (#[trigger] snapshots@[j])@.metrics.load
                    .load_percent_1min_tenths,
        decreases snapshots@.len() - i,
    {
        v.push(snapshots[i].metrics.load.load_percent_1min_tenths);
        i = i + 1;
    }
    proof {
        assert(v@ =~= load_values(history_view(snapshots@)));
    }
    v
}

/// Collects the swap used-percent of every snapshot.
fn collect_swap_values(snapshots: &Vec<Snapshot>) -> (v: Vec<u64>)
    ensures
        v@ == swap_values(history_view(snapshots@)),
{
    let mut v: Vec<u64> = Vec::new();
    let mut i: usize = 0;
    while i < snapshots.len()
        invariant
            0 <= i <= snapshots@.len(),
            v@.len() == i as int,
            forall|j: int|
                0 <= j < i ==> v@[j] == (#[trigger] snapshots@[j])@.metrics.swap
                    .used_percent_tenths,
        decreases snapshots@.len() - i,
    {
        v.push(snapshots[i].metrics.swap.used_percent_tenths);
        i = i + 1;
    }
    proof {
        assert(v@ =~= swap_values(history_view(snapshots@)));
    }
    v
}

/// Computes the wall-clock span of a history in whole seconds, clipped at
/// the `i64` range.
fn duration_seconds(snapshots: &Vec<Snapshot>) -> (d: i64)
    ensures
        d == duration_of(history_view(snapshots@)),
{
    if snapshots.len() <= 1 {
        0
    } else {
        let last = snapshots[snapshots.len() - 1].timestamp;
        let first = snapshots[0].timestamp;
        match last.checked_sub(first) {
            Option::Some(d) => d,
            Option::None => {
                if first < 0 {
                    i64::MAX
                } else {
                    i64::MIN
                }
            },
        }
    }
}

/// Counts the critical events across the whole history, saturating at the
/// `usize` range.
fn total_event_count(snapshots: &Vec<Snapshot>) -> (n: usize)
    ensures
        n == clip_usize(event_count(history_view(snapshots@))),
{
    let ghost h = history_view(snapshots@);
    let mut n: usize = 0;
    let mut i: usize = 0;
    while i < snapshots.len()
        invariant
            0 <= i <= snapshots@.len(),
            h == history_view(snapshots@),
            n == clip_usize(event_count(h.take(i as int))),
        decreases snapshots@.len() - i,
    {
        proof {
            assert(h.take(i as int + 1).drop_last() =~= h.take(i as int));
            assert(h.take(i as int + 1).last() == h[i as int]);
            lemma_event_count_nonneg(h.take(i as int));
        }
        n = n.saturating_add(snapshots[i].metrics.critical_events.len());
        i = i + 1;
    }
    proof {
        assert(h.take(h.len() as int) =~= h);
    }
    n
}

/// Computes the aggregate statistics of a history.  An empty history yields
/// all-zero statistics and zero duration, never a division failure.
pub fn calculate_statistics(snapshots: &Vec<Snapshot>) -> (r: Statistics)
    ensures
        r == statistics_of(history_view(snapshots@)),
{
    let mem = collect_mem_values(snapshots);
    let cpu = collect_cpu_values(snapshots);
    let load = collect_load_values(snapshots);
    let swap = collect_swap_values(snapshots);
    Statistics {
        total_snapshots: snapshots.len(),
        duration_seconds: duration_seconds(snapshots),
        memory_stats: calc_stats(&mem),
        cpu_stats: calc_stats(&cpu),
        load_stats: calc_stats(&load),
        swap_stats: calc_stats(&swap),
        total_critical_events: total_event_count(snapshots),
    }
}

/// Tallies event severities across the history and derives the verdict.
pub fn generate_summary(snapshots: &Vec<Snapshot>) -> (r: ReportSummary)
    ensures
        r == summary_of(history_view(snapshots@)),
{
    let ghost h = history_view(snapshots@);
    let mut critical: usize = 0;
    let mut warnings: usize = 0;
    let mut i: usize = 0;
    while i < snapshots.len()
        invariant
            0 <= i <= snapshots@.len(),
            h == history_view(snapshots@),
            critical == clip_usize(count_sev(h.take(i as int), Severity::Critical)),
            warnings == clip_usize(count_sev(h.take(i as int), Severity::High)),
        decreases snapshots@.len() - i,
    {
        let events = &snapshots[i].metrics.critical_events;
        let ghost es = h[i as int].metrics.critical_events;
        let mut ci: usize = 0;
        let mut wi: usize = 0;
        let mut j: usize = 0;
        while j < events.len()
            invariant
                0 <= j <= events@.len(),
                es == crate::metrics::events_view(events@),
                es.len() == events@.len(),
                ci == clip_usize(count_sev_events(es.take(j as int), Severity::Critical)),
                wi == clip_usize(count_sev_events(es.take(j as int), Severity::High)),
            decreases events@.len() - j,
        {
            proof {
                assert(es.take(j as int + 1).drop_last() =~= es.take(j as int));
                assert(es.take(j as int + 1).last() == es[j as int]);
                lemma_count_sev_events_pos_iff(es.take(j as int), Severity::Critical);
                lemma_count_sev_events_pos_iff(es.take(j as int), Severity::High);
            }
            match events[j].severity {
                Severity::Critical => {
                    ci = ci.saturating_add(1);
                },
                Severity::High => {
                    wi = wi.saturating_add(1);
                },
            }
            j = j + 1;
        }
        proof {
            assert(es.take(es.len() as int) =~= es);
            assert(h.take(i as int + 1).drop_last() =~= h.take(i as int));
            assert(h.take(i as int + 1).last() == h[i as int]);
            lemma_count_sev_pos_iff(h.take(i as int), Severity::Critical);
            lemma_count_sev_pos_iff(h.take(i as int), Severity::High);
            lemma_count_sev_events_pos_iff(es, Severity::Critical);
            lemma_count_sev_events_pos_iff(es, Severity::High);
        }
        critical = critical.saturating_add(ci);
        warnings = warnings.saturating_add(wi);
        i = i + 1;
    }
    proof {
        assert(h.take(h.len() as int) =~= h);
        lemma_count_sev_pos_iff(h, Severity::Critical);
        lemma_count_sev_pos_iff(h, Severity::High);
    }
    let overall_status = if critical > 0 {
        OverallStatus::Critical
    } else if warnings > 0 {
        OverallStatus::Warning
    } else {
        OverallStatus::Stable
    };
    ReportSummary { overall_status, critical_issues: critical, warnings }
}

/// The single aggregated artifact of a run: identity, configuration, the
/// full history, its statistics, and its summary.
#[derive(Debug)]
pub struct FinalReport {
    /// Derived from the generation timestamp.
    pub report_id: String,
    /// Seconds since the Unix epoch at generation.
    pub generation_time: i64,
    pub config: Config,
    pub snapshots: Vec<Snapshot>,
    pub statistics: Statistics,
    pub summary: ReportSummary,
}

impl FinalReport {
    /// The report's statistics and summary are exactly those of its
    /// history.
    pub open spec fn wf(&self) -> bool {
        &&& self.statistics == statistics_of(history_view(self.snapshots@))
        &&& self.summary == summary_of(history_view(self.snapshots@))
    }

    /// Builds the final report for a history: its statistics, its summary,
    /// and an identity derived from the generation timestamp.  Equivalent
    /// histories yield equal statistics and summaries whatever path asked
    /// for the report.
    pub fn new(snapshots: Vec<Snapshot>, config: Config) -> (r: FinalReport)
        ensures
            r.wf(),
            history_view(r.snapshots@) == history_view(snapshots@),
            r.config == config,
            r.report_id@.len() >= 13 && r.report_id@.subrange(0, 13) == "final_report_"@,
    {
        let statistics = calculate_statistics(&snapshots);
        let summary = generate_summary(&snapshots);
        let mut report_id = String::new();
        report_id.append("final_report_");
        let stamp = local_timestamp_compact();
        report_id.append(stamp.as_str());
        proof {
            reveal_strlit("final_report_");
            assert(report_id@.subrange(0, 13) =~= "final_report_"@);
        }
        FinalReport {
            report_id,
            generation_time: now_unix(),
            config,
            snapshots,
            statistics,
            summary,
        }
    }
}

/// Normal shutdown and emergency shutdown build their reports from the
/// history alone: two well-formed reports over equivalent histories carry
/// identical statistics and summaries, whichever path produced each (only
/// identity and generation time may differ).
pub proof fn lemma_shutdown_paths_agree(r1: FinalReport, r2: FinalReport)
    requires
        r1.wf(),
        r2.wf(),
        history_view(r1.snapshots@) == history_view(r2.snapshots@),
    ensures
        r1.statistics == r2.statistics,
        r1.summary == r2.summary,
{
}

/// The emergency path: given whatever snapshots exist when a termination
/// signal arrives, builds a report to persist before the process exits.
/// Produces a report exactly when the history is non-empty.
pub fn emergency_report(snapshots: Vec<Snapshot>, config: Config) -> (r: Option<FinalReport>)
    ensures
        r is Some <==> snapshots@.len() > 0,
        r matches Some(rep) ==> rep.wf() && history_view(rep.snapshots@) == history_view(
            snapshots@,
        ) && rep.config == config,
{
    if snapshots.len() == 0 {
        Option::None
    } else {
        Option::Some(FinalReport::new(snapshots, config))
    }
}

} // verus!
