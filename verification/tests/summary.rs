use sysload_monitor::{
    generate_summary, CpuMetrics, CriticalEvent, EventKind, LoadMetrics, MemoryMetrics,
    OverallStatus, Severity, Snapshot, SwapMetrics, SystemMetrics,
};

fn event(severity: Severity) -> CriticalEvent {
    CriticalEvent {
        event_type: match severity {
            Severity::Critical => EventKind::MemoryCritical,
            Severity::High => EventKind::MemoryWarning,
        },
        severity,
        description: String::from("x"),
        timestamp: 0,
    }
}

fn snapshot_with(iteration: usize, events: Vec<CriticalEvent>) -> Snapshot {
    Snapshot {
        iteration,
        timestamp: 0,
        metrics: SystemMetrics {
            timestamp: 0,
            memory: MemoryMetrics {
                total_kb: 0,
                available_kb: 0,
                used_kb: 0,
                used_percent_tenths: 0,
                free_kb: 0,
                buffers_kb: 0,
                cached_kb: 0,
            },
            cpu: CpuMetrics {
                user_time: 0,
                system_time: 0,
                idle_time: 0,
                iowait_time: 0,
                total_time: 0,
                cpu_usage_percent_tenths: 0,
            },
            swap: SwapMetrics { total_kb: 0, used_kb: 0, free_kb: 0, used_percent_tenths: 0 },
            load: LoadMetrics {
                load_average_1min_hundredths: 0,
                load_average_5min_hundredths: 0,
                load_average_15min_hundredths: 0,
                cpu_count: 0,
                load_percent_1min_tenths: 0,
            },
            critical_events: events,
        },
    }
}

#[test]
fn no_events_is_stable() {
    let summary = generate_summary(&vec![snapshot_with(1, Vec::new()), snapshot_with(
        2,
        Vec::new(),
    )]);
    assert_eq!(summary.overall_status, OverallStatus::Stable);
    assert_eq!(summary.critical_issues, 0);
    assert_eq!(summary.warnings, 0);
}

#[test]
fn one_high_event_anywhere_is_warning() {
    let summary = generate_summary(&vec![snapshot_with(1, Vec::new()), snapshot_with(
        2,
        vec![event(Severity::High)],
    )]);
    assert_eq!(summary.overall_status, OverallStatus::Warning);
    assert_eq!(summary.critical_issues, 0);
    assert_eq!(summary.warnings, 1);
}

#[test]
fn one_critical_event_anywhere_is_critical() {
    let summary = generate_summary(&vec![
        snapshot_with(1, vec![event(Severity::High)]),
        snapshot_with(2, Vec::new()),
        snapshot_with(3, vec![event(Severity::Critical), event(Severity::High)]),
    ]);
    assert_eq!(summary.overall_status, OverallStatus::Critical);
    assert_eq!(summary.critical_issues, 1);
    assert_eq!(summary.warnings, 2);
}

#[test]
fn tallies_count_every_event() {
    let summary = generate_summary(&vec![
        snapshot_with(1, vec![event(Severity::Critical), event(Severity::Critical)]),
        snapshot_with(2, vec![event(Severity::High)]),
        snapshot_with(3, vec![event(Severity::Critical)]),
    ]);
    assert_eq!(summary.critical_issues, 3);
    assert_eq!(summary.warnings, 1);
    assert_eq!(summary.overall_status, OverallStatus::Critical);
}
