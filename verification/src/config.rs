//! Run configuration: load-generation sizes and cadences, sampling cadence,
//! and persistence options.

use vstd::prelude::*;

verus! {

/// Configuration of one diagnostic run.
///
/// `disk_stress` is accepted but has no effect on the core lifecycle; it is
/// kept as a reserved option.
#[derive(Debug, Clone)]
pub struct Config {
    /// Size of each leaked chunk, in MiB.
    pub leak_size_mb: usize,
    /// Seconds the memory worker sleeps between chunks.
    pub leak_interval_sec: u64,
    /// Seconds between two sampling cycles.
    pub monitor_interval_sec: u64,
    /// Number of CPU-burn workers; zero disables CPU stress.
    pub cpu_workers: usize,
    /// Reserved; not wired into the core lifecycle.
    pub disk_stress: bool,
    /// Path of the incrementally overwritten snapshot file.
    pub snapshot_file: String,
    /// A snapshot is persisted when its iteration is 1 or a multiple of this.
    pub save_every_n_snapshots: usize,
}

impl Config {
    /// The default configuration: 50 MiB leaked every 10 s, sampling every
    /// 60 s, two CPU workers, every snapshot persisted.
    pub fn with_defaults(snapshot_file: String) -> (c: Config)
        ensures
            c.leak_size_mb == 50,
            c.leak_interval_sec == 10,
            c.monitor_interval_sec == 60,
            c.cpu_workers == 2,
            !c.disk_stress,
            c.snapshot_file == snapshot_file,
            c.save_every_n_snapshots == 1,
    {
        Config {
            leak_size_mb: 50,
            leak_interval_sec: 10,
            monitor_interval_sec: 60,
            cpu_workers: 2,
            disk_stress: false,
            snapshot_file,
            save_every_n_snapshots: 1,
        }
    }
}

} // verus!
