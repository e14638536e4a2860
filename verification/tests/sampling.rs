use sysload_monitor::{
    next_sampler_state, sampler_cycle, should_save, MetricsSource, MonitorError, RawCpu, RawLoad,
    RawMemory, RawReadings, RawSwap, SamplerState, SnapshotStore,
};

fn raw_ok() -> RawReadings {
    RawReadings {
        memory: Ok(RawMemory {
            total_kb: 2000,
            available_kb: 500,
            free_kb: 400,
            buffers_kb: 50,
            cached_kb: 50,
        }),
        cpu: Ok(RawCpu { user: 100, system: 50, idle: 800, iowait: 10, total: 1000 }),
        load: Ok(RawLoad {
            load1_hundredths: 52,
            load5_hundredths: 40,
            load15_hundredths: 30,
            cpu_count: 4,
        }),
        swap: Ok(RawSwap { total_kb: 1000, free_kb: 900 }),
    }
}

#[test]
fn first_collection_has_zero_cpu_usage() {
    let mut source = MetricsSource::new();
    let m = source.collect_metrics(raw_ok(), 5).unwrap();
    assert_eq!(m.cpu.cpu_usage_percent_tenths, 0);
    assert_eq!(m.timestamp, 5);
}

#[test]
fn second_collection_uses_counter_deltas() {
    let mut source = MetricsSource::new();
    source.collect_metrics(raw_ok(), 0).unwrap();
    let mut raw = raw_ok();
    raw.cpu = Ok(RawCpu { user: 200, system: 100, idle: 1500, iowait: 10, total: 2000 });
    let m = source.collect_metrics(raw, 1).unwrap();
    // (100 + 50) / 1000 of the delta: 15.0%.
    assert_eq!(m.cpu.cpu_usage_percent_tenths, 150);
}

#[test]
fn derived_percentages_come_from_the_raw_counters() {
    let mut source = MetricsSource::new();
    let m = source.collect_metrics(raw_ok(), 0).unwrap();
    // used = 2000 - 500; 1500 * 1000 / 2000 = 750 tenths.
    assert_eq!(m.memory.used_kb, 1500);
    assert_eq!(m.memory.used_percent_tenths, 750);
    // 52 hundredths over 4 CPUs: 52 * 10 / 4 = 130 tenths.
    assert_eq!(m.load.load_percent_1min_tenths, 130);
    // swap used = 100; 100 * 1000 / 1000 = 100 tenths.
    assert_eq!(m.swap.used_percent_tenths, 100);
    // 75.0% memory is high but not critical.
    assert_eq!(m.critical_events.len(), 1);
}

#[test]
fn any_failed_sub_collection_fails_the_cycle() {
    let mut source = MetricsSource::new();
    let mut raw = raw_ok();
    raw.load = Err(MonitorError::ParseError(String::from("Invalid format")));
    let r = source.collect_metrics(raw, 0);
    assert!(r.is_err());
    assert_eq!(r.err().unwrap().message(), "Failed to parse system data: Invalid format");
}

#[test]
fn the_first_failure_wins() {
    let mut source = MetricsSource::new();
    let mut raw = raw_ok();
    raw.memory = Err(MonitorError::FileRead(String::from("memory gone")));
    raw.swap = Err(MonitorError::FileRead(String::from("swap gone")));
    let r = source.collect_metrics(raw, 0);
    assert_eq!(r.err().unwrap().message(), "Failed to read system file: memory gone");
}

#[test]
fn a_failed_cycle_does_not_advance_the_cpu_sample() {
    let mut source = MetricsSource::new();
    let mut raw = raw_ok();
    raw.memory = Err(MonitorError::FileRead(String::from("gone")));
    let _ = source.collect_metrics(raw, 0);
    // The next successful collection is still the "first": usage 0.
    let m = source.collect_metrics(raw_ok(), 1).unwrap();
    assert_eq!(m.cpu.cpu_usage_percent_tenths, 0);
}

#[test]
fn save_cadence_is_first_then_every_nth() {
    assert!(should_save(1, 3));
    assert!(!should_save(2, 3));
    assert!(should_save(3, 3));
    assert!(!should_save(4, 3));
    assert!(should_save(6, 3));
    assert!(should_save(1, 1));
    assert!(should_save(2, 1));
}

#[test]
fn cycles_number_snapshots_from_one() {
    let mut source = MetricsSource::new();
    let mut store = SnapshotStore::new();
    for k in 0..4 {
        let collected = source.collect_metrics(raw_ok(), k);
        let outcome = sampler_cycle(&mut store, collected, k, 1);
        assert!(outcome.appended);
    }
    let history = store.snapshot();
    assert_eq!(history.len(), 4);
    for (i, s) in history.iter().enumerate() {
        assert_eq!(s.iteration, i + 1);
        assert_eq!(s.timestamp, i as i64);
    }
}

#[test]
fn saves_hold_the_entire_history_not_a_delta() {
    let mut source = MetricsSource::new();
    let mut store = SnapshotStore::new();
    for k in 0..3 {
        let collected = source.collect_metrics(raw_ok(), k);
        sampler_cycle(&mut store, collected, k, 1);
    }
    let collected = source.collect_metrics(raw_ok(), 3);
    let outcome = sampler_cycle(&mut store, collected, 3, 1);
    let saved = outcome.to_save.expect("every iteration saves at cadence 1");
    let iterations: Vec<usize> = saved.iter().map(|s| s.iteration).collect();
    assert_eq!(iterations, vec![1, 2, 3, 4]);
}

#[test]
fn failed_cycles_are_skipped_without_advancing_history() {
    let mut store = SnapshotStore::new();
    let outcome = sampler_cycle(
        &mut store,
        Err(MonitorError::FileRead(String::from("gone"))),
        0,
        1,
    );
    assert!(!outcome.appended);
    assert!(outcome.to_save.is_none());
    assert_eq!(outcome.error.unwrap().message(), "Failed to read system file: gone");
    assert_eq!(store.len(), 0);
}

#[test]
fn save_cadence_applies_to_the_new_iteration() {
    let mut source = MetricsSource::new();
    let mut store = SnapshotStore::new();
    let first = sampler_cycle(&mut store, source.collect_metrics(raw_ok(), 0), 0, 2);
    assert!(first.to_save.is_some(), "iteration 1 always saves");
    let second = sampler_cycle(&mut store, source.collect_metrics(raw_ok(), 1), 1, 2);
    assert!(second.to_save.is_some(), "iteration 2 is a multiple of 2");
    let third = sampler_cycle(&mut store, source.collect_metrics(raw_ok(), 2), 2, 2);
    assert!(third.to_save.is_none(), "iteration 3 is off cadence");
}

#[test]
fn sampler_lifecycle_runs_until_the_flag_falls() {
    assert_eq!(next_sampler_state(SamplerState::Running, true), SamplerState::Running);
    assert_eq!(next_sampler_state(SamplerState::Running, false), SamplerState::Stopping);
    assert_eq!(next_sampler_state(SamplerState::Stopping, false), SamplerState::Stopped);
    assert_eq!(next_sampler_state(SamplerState::Stopped, false), SamplerState::Stopped);
}
