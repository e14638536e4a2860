use sysload_monitor::{
    compact_line, emergency_report, fixed2_hundredths, parse_u64, status_string, summary_text,
    Config, CpuMetrics, FinalReport, LoadMetrics, MemoryMetrics, OverallStatus, Snapshot,
    SwapMetrics, SystemMetrics,
};

fn config() -> Config {
    Config::with_defaults(String::from("snapshots_incremental.json"))
}

fn snapshot(iteration: usize, timestamp: i64) -> Snapshot {
    Snapshot {
        iteration,
        timestamp,
        metrics: SystemMetrics {
            timestamp,
            memory: MemoryMetrics {
                total_kb: 2048,
                available_kb: 1024,
                used_kb: 1024,
                used_percent_tenths: 500,
                free_kb: 512,
                buffers_kb: 0,
                cached_kb: 0,
            },
            cpu: CpuMetrics {
                user_time: 0,
                system_time: 0,
                idle_time: 0,
                iowait_time: 0,
                total_time: 0,
                cpu_usage_percent_tenths: 125,
            },
            swap: SwapMetrics { total_kb: 0, used_kb: 0, free_kb: 0, used_percent_tenths: 0 },
            load: LoadMetrics {
                load_average_1min_hundredths: 52,
                load_average_5min_hundredths: 48,
                load_average_15min_hundredths: 45,
                cpu_count: 4,
                load_percent_1min_tenths: 130,
            },
            critical_events: Vec::new(),
        },
    }
}

#[test]
fn emergency_save_of_five_snapshots_reports_five() {
    let history: Vec<Snapshot> = (1..=5).map(|i| snapshot(i, i as i64 * 10)).collect();
    let report = emergency_report(history, config()).expect("non-empty history must report");
    assert_eq!(report.statistics.total_snapshots, 5);
    assert_eq!(report.snapshots.len(), 5);
}

#[test]
fn emergency_save_of_an_empty_history_is_skipped() {
    assert!(emergency_report(Vec::new(), config()).is_none());
}

#[test]
fn both_shutdown_paths_agree_on_equal_histories() {
    let mut history: Vec<Snapshot> = (1..=5).map(|i| snapshot(i, i as i64 * 10)).collect();
    history[2].metrics.memory.used_percent_tenths = 900;
    history[2].metrics.critical_events = sysload_monitor::detect_critical_events(
        &history[2].metrics.memory,
        &history[2].metrics.load,
        &history[2].metrics.swap,
        30,
    );
    let normal = FinalReport::new(history.clone(), config());
    let emergency = emergency_report(history, config()).unwrap();
    assert_eq!(normal.statistics, emergency.statistics);
    assert_eq!(normal.summary, emergency.summary);
    assert_eq!(normal.summary.overall_status, OverallStatus::Critical);
    assert_eq!(normal.statistics.total_critical_events, 1);
}

#[test]
fn report_identity_derives_from_the_generation_stamp() {
    let report = FinalReport::new(vec![snapshot(1, 0)], config());
    assert!(report.report_id.starts_with("final_report_"));
}

#[test]
fn compact_line_shows_every_family() {
    let line = compact_line(&snapshot(1, 0));
    assert_eq!(line, "  MEM: 50.0% (1/2 MB) | LOAD: 0.52 (13%) | CPU: 12.5% | SWAP: 0.0%");
}

#[test]
fn compact_line_rounds_the_load_percent_half_up() {
    let mut s = snapshot(1, 0);
    s.metrics.load.load_percent_1min_tenths = 135;
    let line = compact_line(&s);
    assert!(line.contains("(14%)"));
}

#[test]
fn summary_text_of_an_empty_run() {
    let report = FinalReport::new(Vec::new(), config());
    let expected = "=== FINAL DIAGNOSTIC REPORT ===\n\
                    Status: STABLE\n\
                    Duration: 0 seconds (0 minutes)\n\
                    Total Snapshots: 0\n\
                    -- MEMORY:   min 0.0% | max 0.0% | avg 0.0% | final 0.0%\n\
                    -- CPU:      min 0.0% | max 0.0% | avg 0.0% | final 0.0%\n\
                    -- LOAD(%):  min 0.0% | max 0.0% | avg 0.0% | final 0.0%\n\
                    -- SWAP:     min 0.0% | max 0.0% | avg 0.0% | final 0.0%\n\
                    Critical events: 0 | Warnings: 0";
    assert_eq!(summary_text(&report), expected);
}

#[test]
fn summary_text_shows_statistics_and_minutes() {
    let history: Vec<Snapshot> = (1..=2).map(|i| snapshot(i, (i as i64 - 1) * 90)).collect();
    let report = FinalReport::new(history, config());
    let text = summary_text(&report);
    assert!(text.contains("Duration: 90 seconds (1 minutes)"));
    assert!(text.contains("Total Snapshots: 2"));
    assert!(text.contains("-- MEMORY:   min 50.0% | max 50.0% | avg 50.0% | final 50.0%"));
}

#[test]
fn status_words() {
    assert_eq!(status_string(OverallStatus::Stable), "STABLE");
    assert_eq!(status_string(OverallStatus::Warning), "WARNING");
    assert_eq!(status_string(OverallStatus::Critical), "CRITICAL");
}

#[test]
fn parse_u64_accepts_exactly_the_fitting_digit_strings() {
    assert_eq!(parse_u64(b"0"), Some(0));
    assert_eq!(parse_u64(b"12345"), Some(12345));
    assert_eq!(parse_u64(b"18446744073709551615"), Some(u64::MAX));
    assert_eq!(parse_u64(b"18446744073709551616"), None);
    assert_eq!(parse_u64(b""), None);
    assert_eq!(parse_u64(b"12a"), None);
    assert_eq!(parse_u64(b"-3"), None);
}

#[test]
fn fixed_point_tokens_combine_into_hundredths() {
    assert_eq!(fixed2_hundredths(0, 52), Some(52));
    assert_eq!(fixed2_hundredths(3, 5), Some(305));
    assert_eq!(fixed2_hundredths(1, 100), None);
    assert_eq!(fixed2_hundredths(u64::MAX, 0), None);
}
