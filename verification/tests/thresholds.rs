use sysload_monitor::{
    detect_critical_events, EventKind, LoadMetrics, MemoryMetrics, Severity, SwapMetrics,
};

fn memory(tenths: u64) -> MemoryMetrics {
    MemoryMetrics {
        total_kb: 1000,
        available_kb: 500,
        used_kb: 500,
        used_percent_tenths: tenths,
        free_kb: 100,
        buffers_kb: 10,
        cached_kb: 10,
    }
}

fn load(percent_tenths: u64, avg_hundredths: u64) -> LoadMetrics {
    LoadMetrics {
        load_average_1min_hundredths: avg_hundredths,
        load_average_5min_hundredths: 0,
        load_average_15min_hundredths: 0,
        cpu_count: 4,
        load_percent_1min_tenths: percent_tenths,
    }
}

fn swap(total_kb: u64, tenths: u64) -> SwapMetrics {
    SwapMetrics { total_kb, used_kb: 0, free_kb: 0, used_percent_tenths: tenths }
}

#[test]
fn memory_at_critical_bound_is_not_critical() {
    // 85.0% is not strictly greater than the critical bound: only the high
    // threshold fires.
    let events = detect_critical_events(&memory(850), &load(0, 0), &swap(0, 0), 7);
    assert_eq!(events.len(), 1);
    assert_eq!(events[0].event_type, EventKind::MemoryWarning);
    assert_eq!(events[0].severity, Severity::High);
    assert_eq!(events[0].timestamp, 7);
}

#[test]
fn memory_just_above_critical_bound_is_exactly_one_critical() {
    let events = detect_critical_events(&memory(851), &load(0, 0), &swap(0, 0), 7);
    assert_eq!(events.len(), 1);
    assert_eq!(events[0].event_type, EventKind::MemoryCritical);
    assert_eq!(events[0].severity, Severity::Critical);
    assert_eq!(events[0].description, "Memory usage at 85.1%");
}

#[test]
fn memory_at_high_bound_is_quiet() {
    let events = detect_critical_events(&memory(700), &load(0, 0), &swap(0, 0), 0);
    assert!(events.is_empty());
}

#[test]
fn memory_above_high_bound_warns() {
    let events = detect_critical_events(&memory(701), &load(0, 0), &swap(0, 0), 0);
    assert_eq!(events.len(), 1);
    assert_eq!(events[0].event_type, EventKind::MemoryWarning);
    assert_eq!(events[0].description, "Memory usage at 70.1%");
}

#[test]
fn load_thresholds_fire_strictly() {
    assert!(detect_critical_events(&memory(0), &load(1500, 150), &swap(0, 0), 0).is_empty());
    let high = detect_critical_events(&memory(0), &load(1501, 150), &swap(0, 0), 0);
    assert_eq!(high.len(), 1);
    assert_eq!(high[0].event_type, EventKind::LoadWarning);
    assert_eq!(high[0].severity, Severity::High);
    let at_crit = detect_critical_events(&memory(0), &load(2500, 250), &swap(0, 0), 0);
    assert_eq!(at_crit.len(), 1);
    assert_eq!(at_crit[0].event_type, EventKind::LoadWarning);
    let crit = detect_critical_events(&memory(0), &load(2501, 250), &swap(0, 0), 0);
    assert_eq!(crit.len(), 1);
    assert_eq!(crit[0].event_type, EventKind::LoadCritical);
    assert_eq!(crit[0].severity, Severity::Critical);
}

#[test]
fn load_description_shows_percent_and_average() {
    let events = detect_critical_events(&memory(0), &load(2501, 625), &swap(0, 0), 0);
    assert_eq!(events[0].description, "Load at 250.1% (avg: 6.25)");
}

#[test]
fn swap_needs_nonzero_total() {
    // Way above both swap bounds, but no swap exists: nothing fires.
    let events = detect_critical_events(&memory(0), &load(0, 0), &swap(0, 999), 0);
    assert!(events.is_empty());
}

#[test]
fn swap_thresholds_fire_strictly() {
    assert!(detect_critical_events(&memory(0), &load(0, 0), &swap(100, 300), 0).is_empty());
    let high = detect_critical_events(&memory(0), &load(0, 0), &swap(100, 301), 0);
    assert_eq!(high.len(), 1);
    assert_eq!(high[0].event_type, EventKind::SwapWarning);
    assert_eq!(high[0].severity, Severity::High);
    let at_crit = detect_critical_events(&memory(0), &load(0, 0), &swap(100, 600), 0);
    assert_eq!(at_crit[0].event_type, EventKind::SwapWarning);
    let crit = detect_critical_events(&memory(0), &load(0, 0), &swap(100, 601), 0);
    assert_eq!(crit.len(), 1);
    assert_eq!(crit[0].event_type, EventKind::SwapCritical);
    assert_eq!(crit[0].description, "Swap usage at 60.1%");
}

#[test]
fn one_event_per_metric_in_order() {
    let events = detect_critical_events(&memory(900), &load(2600, 650), &swap(100, 700), 3);
    assert_eq!(events.len(), 3);
    assert_eq!(events[0].event_type, EventKind::MemoryCritical);
    assert_eq!(events[1].event_type, EventKind::LoadCritical);
    assert_eq!(events[2].event_type, EventKind::SwapCritical);
    assert!(events.iter().all(|e| e.timestamp == 3));
}
