//! The human-readable lines the monitor prints: one compact line per
//! snapshot, the periodic worker-status line, and the final report summary.
//! Each is a pure function of the values it shows; the process shell only
//! prints what it is handed.

use vstd::prelude::*;

use crate::render::{
    dec_digits, hundredths_string, hundredths_text, tenths_rounded, tenths_rounded_string,
    tenths_string, tenths_text, u64_text,
};
use crate::report::{FinalReport, OverallStatus, ResourceStats};
use crate::store::Snapshot;
use crate::workers::WorkerCounters;

verus! {

/// The rendering of a signed whole number.
pub open spec fn int_text(x: int) -> Seq<char> {
    if x >= 0 {
        dec_digits(x as nat)
    } else {
        seq!['-'] + dec_digits((-x) as nat)
    }
}

/// Renders a signed whole number.
pub fn i64_text(x: i64) -> (s: String)
    ensures
        s@ == int_text(x as int),
{
    if x >= 0 {
        let s = u64_text(x as u64);
        s
    } else {
        let mag: u64 = if x == i64::MIN {
            9223372036854775808u64
        } else {
            (-x) as u64
        };
        let mut s = String::new();
        s.append("-");
        let t = u64_text(mag);
        s.append(t.as_str());
        proof {
            reveal_strlit("-");
            assert(s@ =~= int_text(x as int));
        }
        s
    }
}

/// A large count abbreviated with 1000-based suffixes: one decimal and `B`,
/// `M` or `K` at a billion, a million, a thousand (half-up), the plain
/// number below that.
pub open spec fn big_count_text(n: u64) -> Seq<char> {
    if n >= 1000000000 {
        tenths_text(((n * 10 + 500000000) / 1000000000) as nat) + " B"@
    } else if n >= 1000000 {
        tenths_text(((n * 10 + 500000) / 1000000) as nat) + " M"@
    } else if n >= 1000 {
        tenths_text(((n * 10 + 500) / 1000) as nat) + " K"@
    } else {
        dec_digits(n as nat)
    }
}

/// Renders a large count with 1000-based suffixes.
pub fn big_count_string(n: u64) -> (s: String)
    ensures
        s@ == big_count_text(n),
{
    if n >= 1000000000 {
        let v: u128 = ((n as u128) * 10 + 500000000) / 1000000000;
        let mut s = tenths_string(v as u64);
        s.append(" B");
        proof {
            reveal_strlit(" B");
            assert(s@ =~= big_count_text(n));
        }
        s
    } else if n >= 1000000 {
        let v: u64 = (n * 10 + 500000) / 1000000;
        let mut s = tenths_string(v);
        s.append(" M");
        proof {
            reveal_strlit(" M");
            assert(s@ =~= big_count_text(n));
        }
        s
    } else if n >= 1000 {
        let v: u64 = (n * 10 + 500) / 1000;
        let mut s = tenths_string(v);
        s.append(" K");
        proof {
            reveal_strlit(" K");
            assert(s@ =~= big_count_text(n));
        }
        s
    } else {
        u64_text(n)
    }
}

/// Bytes as GiB in hundredths, rounded half-up.
pub open spec fn gb_hundredths_of(bytes: u64) -> u64 {
    ((bytes * 100 + 0x20000000) / 0x40000000) as u64
}

/// Computes bytes as GiB in hundredths.
pub fn gb_hundredths(bytes: u64) -> (r: u64)
    ensures
        r == gb_hundredths_of(bytes),
{
    let v: u128 = ((bytes as u128) * 100 + 0x20000000) / 0x40000000;
    v as u64
}

/// The compact per-snapshot line: memory percent and MB figures, load
/// average and its rounded percent, CPU percent, swap percent.
pub open spec fn compact_line_text(s: crate::store::SnapshotV) -> Seq<char> {
    "  MEM: "@ + tenths_text(s.metrics.memory.used_percent_tenths as nat) + "% ("@ + dec_digits(
        (s.metrics.memory.used_kb / 1024) as nat,
    ) + "/"@ + dec_digits((s.metrics.memory.total_kb / 1024) as nat) + " MB) | LOAD: "@
        + hundredths_text(s.metrics.load.load_average_1min_hundredths as nat) + " ("@ + dec_digits(
        tenths_rounded(s.metrics.load.load_percent_1min_tenths as nat),
    ) + "%) | CPU: "@ + tenths_text(s.metrics.cpu.cpu_usage_percent_tenths as nat) + "% | SWAP: "@
        + tenths_text(s.metrics.swap.used_percent_tenths as nat) + "%"@
}

/// Builds the compact line for one snapshot.
pub fn compact_line(snapshot: &Snapshot) -> (line: String)
    ensures
        line@ == compact_line_text(snapshot@),
{
    let mut line = String::new();
    line.append("  MEM: ");
    let t1 = tenths_string(snapshot.metrics.memory.used_percent_tenths);
    line.append(t1.as_str());
    line.append("% (");
    let t2 = u64_text(snapshot.metrics.memory.used_kb / 1024);
    line.append(t2.as_str());
    line.append("/");
    let t3 = u64_text(snapshot.metrics.memory.total_kb / 1024);
    line.append(t3.as_str());
    line.append(" MB) | LOAD: ");
    let t4 = hundredths_string(snapshot.metrics.load.load_average_1min_hundredths);
    line.append(t4.as_str());
    line.append(" (");
    let t5 = tenths_rounded_string(snapshot.metrics.load.load_percent_1min_tenths);
    line.append(t5.as_str());
    line.append("%) | CPU: ");
    let t6 = tenths_string(snapshot.metrics.cpu.cpu_usage_percent_tenths);
    line.append(t6.as_str());
    line.append("% | SWAP: ");
    let t7 = tenths_string(snapshot.metrics.swap.used_percent_tenths);
    line.append(t7.as_str());
    line.append("%");
    proof {
        assert(line@ =~= compact_line_text(snapshot@));
    }
    line
}

/// The periodic worker-status line: leaked GB with two decimals, the active
/// CPU-worker count, and the abbreviated burn total.
pub open spec fn status_line_text(c: WorkerCounters) -> Seq<char> {
    "[STATUS] leak: "@ + hundredths_text(gb_hundredths_of(c.leak_total_bytes) as nat)
        + " GB | cpu workers: "@ + dec_digits(c.cpu_active_workers as nat) + " | burned: "@
        + big_count_text(c.cpu_total_cycles) + " cycles"@
}

/// Builds the worker-status line for the counters as read.
pub fn status_line(counters: &WorkerCounters) -> (line: String)
    ensures
        line@ == status_line_text(*counters),
{
    let mut line = String::new();
    line.append("[STATUS] leak: ");
    let gb = hundredths_string(gb_hundredths(counters.leak_total_bytes));
    line.append(gb.as_str());
    line.append(" GB | cpu workers: ");
    let w = u64_text(counters.cpu_active_workers);
    line.append(w.as_str());
    line.append(" | burned: ");
    let b = big_count_string(counters.cpu_total_cycles);
    line.append(b.as_str());
    line.append(" cycles");
    proof {
        assert(line@ =~= status_line_text(*counters));
    }
    line
}

/// The status word of a verdict.
pub open spec fn status_text(s: OverallStatus) -> Seq<char> {
    match s {
        OverallStatus::Critical => "CRITICAL"@,
        OverallStatus::Warning => "WARNING"@,
        OverallStatus::Stable => "STABLE"@,
    }
}

/// Renders the status word.
pub fn status_string(s: OverallStatus) -> (r: String)
    ensures
        r@ == status_text(s),
{
    let mut r = String::new();
    match s {
        OverallStatus::Critical => r.append("CRITICAL"),
        OverallStatus::Warning => r.append("WARNING"),
        OverallStatus::Stable => r.append("STABLE"),
    }
    proof {
        assert(r@ =~= status_text(s));
    }
    r
}

/// Truncating division by sixty: whole minutes in a signed second count.
pub open spec fn minutes_of(d: int) -> int {
    if d >= 0 {
        d / 60
    } else {
        -((-d) / 60)
    }
}

/// One statistics row of the summary: min, max, avg and final value of one
/// resource.
pub open spec fn stat_row_text(r: ResourceStats) -> Seq<char> {
    tenths_text(r.min as nat) + "% | max "@ + tenths_text(r.max as nat) + "% | avg "@
        + tenths_text(r.avg as nat) + "% | final "@ + tenths_text(r.final_value as nat) + "%"@
}

/// Builds one statistics row, the part after its label.
fn stat_row(r: &ResourceStats) -> (line: String)
    ensures
        line@ == stat_row_text(*r),
{
    let mut line = String::new();
    let t1 = tenths_string(r.min);
    line.append(t1.as_str());
    line.append("% | max ");
    let t2 = tenths_string(r.max);
    line.append(t2.as_str());
    line.append("% | avg ");
    let t3 = tenths_string(r.avg);
    line.append(t3.as_str());
    line.append("% | final ");
    let t4 = tenths_string(r.final_value);
    line.append(t4.as_str());
    line.append("%");
    proof {
        assert(line@ =~= stat_row_text(*r));
    }
    line
}

/// The whole final summary, one line per row, newline-separated.
pub open spec fn summary_text_of(r: FinalReport) -> Seq<char> {
    "=== FINAL DIAGNOSTIC REPORT ===\nStatus: "@ + status_text(r.summary.overall_status)
        + "\nDuration: "@ + int_text(r.statistics.duration_seconds as int) + " seconds ("@
        + int_text(minutes_of(r.statistics.duration_seconds as int)) + " minutes)"@
        + "\nTotal Snapshots: "@ + dec_digits(r.statistics.total_snapshots as nat)
        + "\n-- MEMORY:   min "@ + stat_row_text(r.statistics.memory_stats)
        + "\n-- CPU:      min "@ + stat_row_text(r.statistics.cpu_stats)
        + "\n-- LOAD(%):  min "@ + stat_row_text(r.statistics.load_stats)
        + "\n-- SWAP:     min "@ + stat_row_text(r.statistics.swap_stats)
        + "\nCritical events: "@ + dec_digits(r.summary.critical_issues as nat) + " | Warnings: "@
        + dec_digits(r.summary.warnings as nat)
}

/// Builds the final summary text of a report.
pub fn summary_text(report: &FinalReport) -> (text: String)
    ensures
        text@ == summary_text_of(*report),
{
    let mut text = String::new();
    text.append("=== FINAL DIAGNOSTIC REPORT ===\nStatus: ");
    let st = status_string(report.summary.overall_status);
    text.append(st.as_str());
    text.append("\nDuration: ");
    let d = report.statistics.duration_seconds;
    let ds = i64_text(d);
    text.append(ds.as_str());
    text.append(" seconds (");
    let minutes: i64 = d / 60;
    proof {
        assert(minutes as int == minutes_of(d as int));
    }
    let ms = i64_text(minutes);
    text.append(ms.as_str());
    text.append(" minutes)");
    text.append("\nTotal Snapshots: ");
    let ts = u64_text(report.statistics.total_snapshots as u64);
    text.append(ts.as_str());
    text.append("\n-- MEMORY:   min ");
    let r1 = stat_row(&report.statistics.memory_stats);
    text.append(r1.as_str());
    text.append("\n-- CPU:      min ");
    let r2 = stat_row(&report.statistics.cpu_stats);
    text.append(r2.as_str());
    text.append("\n-- LOAD(%):  min ");
    let r3 = stat_row(&report.statistics.load_stats);
    text.append(r3.as_str());
    text.append("\n-- SWAP:     min ");
    let r4 = stat_row(&report.statistics.swap_stats);
    text.append(r4.as_str());
    text.append("\nCritical events: ");
    let ci = u64_text(report.summary.critical_issues as u64);
    text.append(ci.as_str());
    text.append(" | Warnings: ");
    let w = u64_text(report.summary.warnings as u64);
    text.append(w.as_str());
    proof {
        assert(text@ =~= summary_text_of(*report));
    }
    text
}

} // verus!
