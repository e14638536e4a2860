use sysload_monitor::{
    calculate_statistics, CpuMetrics, LoadMetrics, MemoryMetrics, Snapshot, SwapMetrics,
    SystemMetrics,
};

fn metrics(mem: u64, cpu: u64, load: u64, swap: u64, timestamp: i64) -> SystemMetrics {
    SystemMetrics {
        timestamp,
        memory: MemoryMetrics {
            total_kb: 0,
            available_kb: 0,
            used_kb: 0,
            used_percent_tenths: mem,
            free_kb: 0,
            buffers_kb: 0,
            cached_kb: 0,
        },
        cpu: CpuMetrics {
            user_time: 0,
            system_time: 0,
            idle_time: 0,
            iowait_time: 0,
            total_time: 0,
            cpu_usage_percent_tenths: cpu,
        },
        swap: SwapMetrics { total_kb: 0, used_kb: 0, free_kb: 0, used_percent_tenths: swap },
        load: LoadMetrics {
            load_average_1min_hundredths: 0,
            load_average_5min_hundredths: 0,
            load_average_15min_hundredths: 0,
            cpu_count: 1,
            load_percent_1min_tenths: load,
        },
        critical_events: Vec::new(),
    }
}

fn snapshot(iteration: usize, timestamp: i64, mem: u64, cpu: u64, load: u64, swap: u64) -> Snapshot {
    Snapshot { iteration, timestamp, metrics: metrics(mem, cpu, load, swap, timestamp) }
}

#[test]
fn empty_history_yields_all_zero() {
    let stats = calculate_statistics(&Vec::new());
    assert_eq!(stats.total_snapshots, 0);
    assert_eq!(stats.duration_seconds, 0);
    assert_eq!(stats.total_critical_events, 0);
    for rs in [stats.memory_stats, stats.cpu_stats, stats.load_stats, stats.swap_stats] {
        assert_eq!(rs.min, 0);
        assert_eq!(rs.max, 0);
        assert_eq!(rs.avg, 0);
        assert_eq!(rs.final_value, 0);
    }
}

#[test]
fn single_snapshot_collapses_to_its_values() {
    let stats = calculate_statistics(&vec![snapshot(1, 500, 421, 150, 803, 95)]);
    assert_eq!(stats.total_snapshots, 1);
    assert_eq!(stats.duration_seconds, 0);
    for (rs, v) in [
        (stats.memory_stats, 421),
        (stats.cpu_stats, 150),
        (stats.load_stats, 803),
        (stats.swap_stats, 95),
    ] {
        assert_eq!(rs.min, v);
        assert_eq!(rs.max, v);
        assert_eq!(rs.avg, v);
        assert_eq!(rs.final_value, v);
    }
}

#[test]
fn three_snapshots_min_max_avg_final() {
    let history = vec![
        snapshot(1, 100, 100, 10, 30, 5),
        snapshot(2, 130, 400, 20, 20, 10),
        snapshot(3, 160, 200, 60, 10, 30),
    ];
    let stats = calculate_statistics(&history);
    assert_eq!(stats.total_snapshots, 3);
    assert_eq!(stats.duration_seconds, 60);
    assert_eq!(stats.memory_stats.min, 100);
    assert_eq!(stats.memory_stats.max, 400);
    // 700 / 3 rounds down.
    assert_eq!(stats.memory_stats.avg, 233);
    assert_eq!(stats.memory_stats.final_value, 200);
    assert_eq!(stats.cpu_stats.min, 10);
    assert_eq!(stats.cpu_stats.max, 60);
    assert_eq!(stats.cpu_stats.avg, 30);
    assert_eq!(stats.cpu_stats.final_value, 60);
    assert_eq!(stats.load_stats.final_value, 10);
    assert_eq!(stats.swap_stats.avg, 15);
}

#[test]
fn duration_is_whole_seconds_between_first_and_last() {
    let history = vec![snapshot(1, 1000, 0, 0, 0, 0), snapshot(2, 1001, 0, 0, 0, 0), snapshot(
        3, 5000, 0, 0, 0, 0,
    )];
    let stats = calculate_statistics(&history);
    assert_eq!(stats.duration_seconds, 4000);
}

#[test]
fn a_clock_that_went_backwards_yields_a_negative_duration() {
    let history = vec![snapshot(1, 100, 0, 0, 0, 0), snapshot(2, 40, 0, 0, 0, 0)];
    let stats = calculate_statistics(&history);
    assert_eq!(stats.duration_seconds, -60);
}

#[test]
fn event_totals_are_counted_across_history() {
    let mut first = snapshot(1, 0, 900, 0, 0, 0);
    first.metrics.critical_events = sysload_monitor::detect_critical_events(
        &first.metrics.memory,
        &first.metrics.load,
        &first.metrics.swap,
        0,
    );
    let mut second = snapshot(2, 10, 750, 0, 0, 0);
    second.metrics.critical_events = sysload_monitor::detect_critical_events(
        &second.metrics.memory,
        &second.metrics.load,
        &second.metrics.swap,
        10,
    );
    let stats = calculate_statistics(&vec![first, second]);
    assert_eq!(stats.total_critical_events, 2);
}
