use sysload_monitor::{
    cpu_active_workers, cpu_burn_burst, cpu_total_cycles, leak_step, leak_total_bytes,
    spawn_cpu_stress, status_line, WorkerCounters, CYCLES_PER_BURST,
};

#[test]
fn counters_start_at_zero() {
    let c = WorkerCounters::new();
    assert_eq!(leak_total_bytes(&c), 0);
    assert_eq!(cpu_total_cycles(&c), 0);
    assert_eq!(cpu_active_workers(&c), 0);
}

#[test]
fn three_leak_iterations_of_one_mib_count_exactly() {
    let mut counters = WorkerCounters::new();
    let mut heap: Vec<Vec<u8>> = Vec::new();
    for _ in 0..3 {
        leak_step(&mut counters, &mut heap, 1024 * 1024, 4096);
    }
    assert_eq!(leak_total_bytes(&counters), 3 * 1024 * 1024);
    assert_eq!(heap.len(), 3, "every chunk is retained");
    assert!(heap.iter().all(|c| c.len() == 1024 * 1024));
}

#[test]
fn leaked_chunks_touch_every_page_and_the_trailing_byte() {
    let mut counters = WorkerCounters::new();
    let mut heap: Vec<Vec<u8>> = Vec::new();
    leak_step(&mut counters, &mut heap, 10000, 4096);
    let chunk = &heap[0];
    assert_eq!(chunk[0], 1);
    assert_eq!(chunk[4096], 1);
    assert_eq!(chunk[8192], 1);
    assert_eq!(chunk[1], 0);
    assert_eq!(chunk[4095], 0);
    // 9999 is not a page boundary, so the trailing bump lands on a zero.
    assert_eq!(chunk[9999], 1);
}

#[test]
fn a_burst_burns_the_fixed_cycle_count() {
    assert_eq!(cpu_burn_burst(), CYCLES_PER_BURST);
    assert_eq!(CYCLES_PER_BURST, 400_000_000);
}

#[test]
fn a_cpu_worker_counts_its_bursts_and_deregisters() {
    let mut counters = WorkerCounters::new();
    spawn_cpu_stress(&mut counters, 1);
    assert_eq!(cpu_total_cycles(&counters), CYCLES_PER_BURST);
    assert_eq!(cpu_active_workers(&counters), 0);
    assert_eq!(leak_total_bytes(&counters), 0);
}

#[test]
fn status_line_formats_counters() {
    let c = WorkerCounters {
        leak_total_bytes: 2 * 1024 * 1024 * 1024,
        cpu_total_cycles: 1_500_000_000,
        cpu_active_workers: 2,
    };
    assert_eq!(status_line(&c), "[STATUS] leak: 2.00 GB | cpu workers: 2 | burned: 1.5 B cycles");
}

#[test]
fn status_line_abbreviates_thousands_and_millions() {
    let mut c = WorkerCounters::new();
    c.cpu_total_cycles = 1_250;
    assert_eq!(status_line(&c), "[STATUS] leak: 0.00 GB | cpu workers: 0 | burned: 1.3 K cycles");
    c.cpu_total_cycles = 2_449_999;
    assert_eq!(status_line(&c), "[STATUS] leak: 0.00 GB | cpu workers: 0 | burned: 2.4 M cycles");
    c.cpu_total_cycles = 999;
    assert_eq!(status_line(&c), "[STATUS] leak: 0.00 GB | cpu workers: 0 | burned: 999 cycles");
}
