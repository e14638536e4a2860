//! System metric readings and their derivations.
//!
//! Raw counters come from the host (the process shell reads the OS
//! pseudo-files and hands in plain integers); everything derived from them —
//! usage percentages, the CPU-usage delta computation, and the threshold
//! events — is computed and verified here.
//!
//! Fixed-point conventions: percentages are integers in tenths of a percent
//! (`851` means `85.1%`); load averages are integers in hundredths.

use vstd::prelude::*;

use crate::error::MonitorError;

verus! {

/// Memory usage above this many tenths of a percent is critical.
pub const MEMORY_CRITICAL_TENTHS: u64 = 850;

/// Memory usage above this many tenths of a percent (and not critical) is high.
pub const MEMORY_HIGH_TENTHS: u64 = 700;

/// Load, as tenths of a percent of the CPU count, above this is critical.
pub const LOAD_CRITICAL_TENTHS: u64 = 2500;

/// Load, as tenths of a percent of the CPU count, above this (and not
/// critical) is high.
pub const LOAD_HIGH_TENTHS: u64 = 1500;

/// Swap usage above this many tenths of a percent is critical.
pub const SWAP_CRITICAL_TENTHS: u64 = 600;

/// Swap usage above this many tenths of a percent (and not critical) is high.
pub const SWAP_HIGH_TENTHS: u64 = 300;

/// Derived memory reading.
#[derive(Debug, Clone, Copy, PartialEq, Eq, Structural)]
pub struct MemoryMetrics {
    pub total_kb: u64,
    pub available_kb: u64,
    pub used_kb: u64,
    /// Used share of total memory, in tenths of a percent.
    pub used_percent_tenths: u64,
    pub free_kb: u64,
    pub buffers_kb: u64,
    pub cached_kb: u64,
}

/// Derived CPU reading: the cumulative counters and the usage over the
/// previous reading.
#[derive(Debug, Clone, Copy, PartialEq, Eq, Structural)]
pub struct CpuMetrics {
    pub user_time: u64,
    pub system_time: u64,
    pub idle_time: u64,
    pub iowait_time: u64,
    pub total_time: u64,
    /// Active share of the counter deltas since the previous reading, in
    /// tenths of a percent; zero on the very first reading.
    pub cpu_usage_percent_tenths: u64,
}

/// Derived load reading.
#[derive(Debug, Clone, Copy, PartialEq, Eq, Structural)]
pub struct LoadMetrics {
    /// One-minute load average, in hundredths.
    pub load_average_1min_hundredths: u64,
    /// Five-minute load average, in hundredths.
    pub load_average_5min_hundredths: u64,
    /// Fifteen-minute load average, in hundredths.
    pub load_average_15min_hundredths: u64,
    pub cpu_count: usize,
    /// One-minute load as a share of the CPU count, in tenths of a percent.
    pub load_percent_1min_tenths: u64,
}

/// Derived swap reading.
#[derive(Debug, Clone, Copy, PartialEq, Eq, Structural)]
pub struct SwapMetrics {
    pub total_kb: u64,
    pub used_kb: u64,
    pub free_kb: u64,
    /// Used share of total swap, in tenths of a percent.
    pub used_percent_tenths: u64,
}

/// Severity of a threshold event.
#[derive(Debug, Clone, Copy, PartialEq, Eq, Structural)]
pub enum Severity {
    Critical,
    High,
}

/// Which threshold rule fired.
#[derive(Debug, Clone, Copy, PartialEq, Eq, Structural)]
pub enum EventKind {
    MemoryCritical,
    MemoryWarning,
    LoadCritical,
    LoadWarning,
    SwapCritical,
    SwapWarning,
}

/// A threshold-triggered diagnostic annotation, derived from a single
/// reading and never revised.
#[derive(Debug)]
pub struct CriticalEvent {
    pub event_type: EventKind,
    pub severity: Severity,
    pub description: String,
    /// Seconds since the Unix epoch.
    pub timestamp: i64,
}

impl Clone for CriticalEvent {
    fn clone(&self) -> (r: Self)
        ensures
            r == *self,
    {
        CriticalEvent {
            event_type: self.event_type,
            severity: self.severity,
            description: self.description.clone(),
            timestamp: self.timestamp,
        }
    }
}

/// The mathematical value of a `CriticalEvent`: the description as the
/// character sequence it holds.
pub struct CriticalEventV {
    pub event_type: EventKind,
    pub severity: Severity,
    pub description: Seq<char>,
    pub timestamp: i64,
}

impl View for CriticalEvent {
    type V = CriticalEventV;

    open spec fn view(&self) -> CriticalEventV {
        CriticalEventV {
            event_type: self.event_type,
            severity: self.severity,
            description: self.description@,
            timestamp: self.timestamp,
        }
    }
}

/// The mathematical values of a sequence of events.
pub open spec fn events_view(es: Seq<CriticalEvent>) -> Seq<CriticalEventV> {
    es.map_values(|e: CriticalEvent| e@)
}

/// One point-in-time reading of every metric family, with its threshold
/// events.
#[derive(Debug)]
pub struct SystemMetrics {
    /// Seconds since the Unix epoch.
    pub timestamp: i64,
    pub memory: MemoryMetrics,
    pub cpu: CpuMetrics,
    pub swap: SwapMetrics,
    pub load: LoadMetrics,
    pub critical_events: Vec<CriticalEvent>,
}

/// The mathematical value of a `SystemMetrics`: every numeric family as it
/// stands, the events by their values.
pub struct SystemMetricsV {
    pub timestamp: i64,
    pub memory: MemoryMetrics,
    pub cpu: CpuMetrics,
    pub swap: SwapMetrics,
    pub load: LoadMetrics,
    pub critical_events: Seq<CriticalEventV>,
}

impl View for SystemMetrics {
    type V = SystemMetricsV;

    open spec fn view(&self) -> SystemMetricsV {
        SystemMetricsV {
            timestamp: self.timestamp,
            memory: self.memory,
            cpu: self.cpu,
            swap: self.swap,
            load: self.load,
            critical_events: events_view(self.critical_events@),
        }
    }
}

impl Clone for SystemMetrics {
    fn clone(&self) -> (r: Self)
        ensures
            r@ == self@,
    {
        let r = SystemMetrics {
            timestamp: self.timestamp,
            memory: self.memory,
            cpu: self.cpu,
            swap: self.swap,
            load: self.load,
            critical_events: self.critical_events.clone(),
        };
        proof {
            assert(r.critical_events@ =~= self.critical_events@);
            assert(r@ =~~= self@);
        }
        r
    }
}

/// `a - b`, floored at zero.
pub open spec fn sat_sub64(a: u64, b: u64) -> u64 {
    if a >= b {
        (a - b) as u64
    } else {
        0
    }
}

/// Clips a mathematical integer into `u64`.
pub open spec fn cap_u64(v: int) -> u64 {
    if v > u64::MAX {
        u64::MAX
    } else {
        v as u64
    }
}

/// `part` as a share of `whole`, in tenths of a percent, rounded down;
/// zero when `whole` is zero.
pub open spec fn percent_tenths_of(part: u64, whole: u64) -> u64 {
    if whole == 0 {
        0
    } else {
        cap_u64(part as int * 1000 / whole as int)
    }
}

/// Computes `part` as a share of `whole` in tenths of a percent.
pub fn percent_tenths(part: u64, whole: u64) -> (r: u64)
    ensures
        r == percent_tenths_of(part, whole),
{
    if whole == 0 {
        0
    } else {
        let v: u128 = (part as u128) * 1000 / (whole as u128);
        if v > u64::MAX as u128 {
            u64::MAX
        } else {
            v as u64
        }
    }
}

/// The one-minute load average (in hundredths) as a share of the CPU count,
/// in tenths of a percent; zero when the CPU count is zero.
pub open spec fn load_percent_tenths_of(load_hundredths: u64, cpu_count: usize) -> u64 {
    if cpu_count == 0 {
        0
    } else {
        cap_u64(load_hundredths as int * 10 / cpu_count as int)
    }
}

/// Computes the one-minute load share of the CPU count in tenths of a percent.
pub fn load_percent_tenths(load_hundredths: u64, cpu_count: usize) -> (r: u64)
    ensures
        r == load_percent_tenths_of(load_hundredths, cpu_count),
{
    if cpu_count == 0 {
        0
    } else {
        let v: u128 = (load_hundredths as u128) * 10 / (cpu_count as u128);
        if v > u64::MAX as u128 {
            u64::MAX
        } else {
            v as u64
        }
    }
}

/// The cumulative CPU counters retained between two readings.
#[derive(Debug, Clone, Copy, PartialEq, Eq, Structural)]
pub struct CpuSample {
    pub user: u64,
    pub system: u64,
    pub idle: u64,
    pub total: u64,
}

/// CPU usage in tenths of a percent: the active share of the counter deltas
/// since the previous sample; zero when there is no previous sample or the
/// total counters did not advance.
pub open spec fn cpu_usage_tenths_of(prev: Option<CpuSample>, cur: CpuSample) -> u64 {
    match prev {
        Option::None => 0,
        Option::Some(p) => {
            let du = sat_sub64(cur.user, p.user);
            let ds = sat_sub64(cur.system, p.system);
            let dt = sat_sub64(cur.total, p.total);
            if dt == 0 {
                0
            } else {
                cap_u64((du + ds) * 1000 / dt as int)
            }
        },
    }
}

/// Computes the CPU usage for `cur` given the previous sample.
pub fn cpu_usage_tenths(prev: Option<CpuSample>, cur: CpuSample) -> (r: u64)
    ensures
        r == cpu_usage_tenths_of(prev, cur),
{
    match prev {
        Option::None => 0,
        Option::Some(p) => {
            let du = cur.user.saturating_sub(p.user);
            let ds = cur.system.saturating_sub(p.system);
            let dt = cur.total.saturating_sub(p.total);
            if dt == 0 {
                0
            } else {
                let v: u128 = ((du as u128) + (ds as u128)) * 1000 / (dt as u128);
                if v > u64::MAX as u128 {
                    u64::MAX
                } else {
                    v as u64
                }
            }
        },
    }
}

/// CPU usage is always zero on the very first reading: no previous sample
/// exists, whatever the current counters hold.
pub proof fn lemma_first_reading_cpu_usage_zero(cur: CpuSample)
    ensures
        cpu_usage_tenths_of(Option::None, cur) == 0,
{
}

/// Raw memory counters, in KiB, as the host reports them.
#[derive(Debug, Clone, Copy, PartialEq, Eq, Structural)]
pub struct RawMemory {
    pub total_kb: u64,
    pub available_kb: u64,
    pub free_kb: u64,
    pub buffers_kb: u64,
    pub cached_kb: u64,
}

/// Raw cumulative CPU counters as the host reports them; `total` is the sum
/// of every column of the reading.
#[derive(Debug, Clone, Copy, PartialEq, Eq, Structural)]
pub struct RawCpu {
    pub user: u64,
    pub system: u64,
    pub idle: u64,
    pub iowait: u64,
    pub total: u64,
}

/// Raw load averages (in hundredths) and the CPU count.
#[derive(Debug, Clone, Copy, PartialEq, Eq, Structural)]
pub struct RawLoad {
    pub load1_hundredths: u64,
    pub load5_hundredths: u64,
    pub load15_hundredths: u64,
    pub cpu_count: usize,
}

/// Raw swap counters, in KiB.
#[derive(Debug, Clone, Copy, PartialEq, Eq, Structural)]
pub struct RawSwap {
    pub total_kb: u64,
    pub free_kb: u64,
}

/// The four independently fallible raw readings of one sampling cycle.
#[derive(Debug)]
pub struct RawReadings {
    pub memory: Result<RawMemory, MonitorError>,
    pub cpu: Result<RawCpu, MonitorError>,
    pub load: Result<RawLoad, MonitorError>,
    pub swap: Result<RawSwap, MonitorError>,
}

/// The derived memory reading for raw counters: used memory is total minus
/// available, floored at zero.
pub open spec fn spec_memory_metrics(raw: RawMemory) -> MemoryMetrics {
    MemoryMetrics {
        total_kb: raw.total_kb,
        available_kb: raw.available_kb,
        used_kb: sat_sub64(raw.total_kb, raw.available_kb),
        used_percent_tenths: percent_tenths_of(
            sat_sub64(raw.total_kb, raw.available_kb),
            raw.total_kb,
        ),
        free_kb: raw.free_kb,
        buffers_kb: raw.buffers_kb,
        cached_kb: raw.cached_kb,
    }
}

/// Derives the memory reading.
pub fn memory_metrics_from_raw(raw: RawMemory) -> (m: MemoryMetrics)
    ensures
        m == spec_memory_metrics(raw),
{
    let used = raw.total_kb.saturating_sub(raw.available_kb);
    MemoryMetrics {
        total_kb: raw.total_kb,
        available_kb: raw.available_kb,
        used_kb: used,
        used_percent_tenths: percent_tenths(used, raw.total_kb),
        free_kb: raw.free_kb,
        buffers_kb: raw.buffers_kb,
        cached_kb: raw.cached_kb,
    }
}

/// The derived CPU reading for raw counters and the previous sample.
pub open spec fn spec_cpu_metrics(prev: Option<CpuSample>, raw: RawCpu) -> CpuMetrics {
    CpuMetrics {
        user_time: raw.user,
        system_time: raw.system,
        idle_time: raw.idle,
        iowait_time: raw.iowait,
        total_time: raw.total,
        cpu_usage_percent_tenths: cpu_usage_tenths_of(prev, sample_of(raw)),
    }
}

/// The counter tuple retained for the next reading's delta.
pub open spec fn sample_of(raw: RawCpu) -> CpuSample {
    CpuSample { user: raw.user, system: raw.system, idle: raw.idle, total: raw.total }
}

/// Derives the CPU reading.
pub fn cpu_metrics_from_raw(prev: Option<CpuSample>, raw: RawCpu) -> (m: CpuMetrics)
    ensures
        m == spec_cpu_metrics(prev, raw),
{
    let cur = CpuSample { user: raw.user, system: raw.system, idle: raw.idle, total: raw.total };
    CpuMetrics {
        user_time: raw.user,
        system_time: raw.system,
        idle_time: raw.idle,
        iowait_time: raw.iowait,
        total_time: raw.total,
        cpu_usage_percent_tenths: cpu_usage_tenths(prev, cur),
    }
}

/// The derived load reading for raw counters.
pub open spec fn spec_load_metrics(raw: RawLoad) -> LoadMetrics {
    LoadMetrics {
        load_average_1min_hundredths: raw.load1_hundredths,
        load_average_5min_hundredths: raw.load5_hundredths,
        load_average_15min_hundredths: raw.load15_hundredths,
        cpu_count: raw.cpu_count,
        load_percent_1min_tenths: load_percent_tenths_of(raw.load1_hundredths, raw.cpu_count),
    }
}

/// Derives the load reading.
pub fn load_metrics_from_raw(raw: RawLoad) -> (m: LoadMetrics)
    ensures
        m == spec_load_metrics(raw),
{
    LoadMetrics {
        load_average_1min_hundredths: raw.load1_hundredths,
        load_average_5min_hundredths: raw.load5_hundredths,
        load_average_15min_hundredths: raw.load15_hundredths,
        cpu_count: raw.cpu_count,
        load_percent_1min_tenths: load_percent_tenths(raw.load1_hundredths, raw.cpu_count),
    }
}

/// The derived swap reading for raw counters: used swap is total minus free,
/// floored at zero.
pub open spec fn spec_swap_metrics(raw: RawSwap) -> SwapMetrics {
    SwapMetrics {
        total_kb: raw.total_kb,
        used_kb: sat_sub64(raw.total_kb, raw.free_kb),
        free_kb: raw.free_kb,
        used_percent_tenths: percent_tenths_of(sat_sub64(raw.total_kb, raw.free_kb), raw.total_kb),
    }
}

/// Derives the swap reading.
pub fn swap_metrics_from_raw(raw: RawSwap) -> (m: SwapMetrics)
    ensures
        m == spec_swap_metrics(raw),
{
    let used = raw.total_kb.saturating_sub(raw.free_kb);
    SwapMetrics {
        total_kb: raw.total_kb,
        used_kb: used,
        free_kb: raw.free_kb,
        used_percent_tenths: percent_tenths(used, raw.total_kb),
    }
}

} // verus!
