//! Verified core of a host-resource diagnostic harness.
//!
//! The library induces controlled memory and CPU load while sampling system
//! resource metrics at a fixed cadence, keeping an ordered snapshot history
//! and turning it into a final statistical report.  Everything here is
//! verified; the thin process shell (threads, signals, file I/O, the reads of
//! the OS pseudo-files that feed the metrics) lives outside the library and
//! hands in plain values.

pub mod clock;
pub mod config;
pub mod error;
pub mod events;
pub mod lines;
pub mod metrics;
pub mod parse;
pub mod render;
pub mod report;
pub mod sampler;
pub mod source;
pub mod store;
pub mod workers;

pub use config::Config;
pub use error::MonitorError;
pub use events::detect_critical_events;
pub use metrics::{
    CpuMetrics, CpuSample, CriticalEvent, EventKind, LoadMetrics, MemoryMetrics, RawCpu, RawLoad,
    RawMemory, RawReadings, RawSwap, Severity, SwapMetrics, SystemMetrics,
};
pub use lines::{compact_line, status_line, status_string, summary_text};
pub use parse::{fixed2_hundredths, parse_u64};
pub use report::{
    calc_stats, calculate_statistics, emergency_report, generate_summary, FinalReport,
    OverallStatus, ReportSummary, ResourceStats, Statistics,
};
pub use sampler::{next_sampler_state, sampler_cycle, should_save, CycleOutcome, SamplerState};
pub use source::MetricsSource;
pub use store::{Snapshot, SnapshotStore};
pub use workers::{
    cpu_active_workers, cpu_burn_burst, cpu_total_cycles, leak_step, leak_total_bytes,
    spawn_cpu_stress, WorkerCounters, CYCLES_PER_BURST,
};
