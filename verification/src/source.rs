//! The metrics source: turns one cycle's raw readings into a full
//! `SystemMetrics`, retaining the CPU counter tuple between calls.
//!
//! The four sub-collections are independently fallible; if any failed, the
//! whole collection fails and no partial reading is returned.  The previous
//! CPU sample is owned by this one sampling stream and is replaced exactly
//! when the CPU sub-collection succeeds.

use vstd::prelude::*;

use crate::error::MonitorError;
use crate::events::{detect_critical_events, expected_events};
use crate::metrics::{
    cpu_metrics_from_raw, load_metrics_from_raw, memory_metrics_from_raw, sample_of,
    spec_cpu_metrics, spec_load_metrics, spec_memory_metrics, spec_swap_metrics,
    swap_metrics_from_raw, CpuSample, RawCpu, RawLoad, RawMemory, RawReadings, RawSwap,
    SystemMetrics, SystemMetricsV,
};

verus! {

/// The reading one successful cycle yields: every family derived from its
/// raw counters, the events from the derived families, everything stamped
/// `now`.
pub open spec fn spec_collected_metrics(
    prev: Option<CpuSample>,
    mem: RawMemory,
    cpu: RawCpu,
    load: RawLoad,
    swap: RawSwap,
    now: i64,
) -> SystemMetricsV {
    SystemMetricsV {
        timestamp: now,
        memory: spec_memory_metrics(mem),
        cpu: spec_cpu_metrics(prev, cpu),
        swap: spec_swap_metrics(swap),
        load: spec_load_metrics(load),
        critical_events: expected_events(
            spec_memory_metrics(mem),
            spec_load_metrics(load),
            spec_swap_metrics(swap),
            now,
        ),
    }
}

/// The first failed sub-collection, in collection order: memory, CPU, load,
/// swap.  Meaningful only when one of them failed.
pub open spec fn first_error(raw: RawReadings) -> MonitorError {
    if raw.memory is Err {
        raw.memory->Err_0
    } else if raw.cpu is Err {
        raw.cpu->Err_0
    } else if raw.load is Err {
        raw.load->Err_0
    } else {
        raw.swap->Err_0
    }
}

/// Whether every sub-collection of one cycle succeeded.
pub open spec fn all_readings_ok(raw: RawReadings) -> bool {
    raw.memory is Ok && raw.cpu is Ok && raw.load is Ok && raw.swap is Ok
}

/// One stream of metric collection.  The previous CPU counter tuple is the
/// only cross-call state; it exists so that CPU usage can be derived from
/// counter deltas.
pub struct MetricsSource {
    /// The counter tuple of the last successful CPU sub-collection; `None`
    /// before the first one.
    pub prev_cpu: Option<CpuSample>,
}

impl MetricsSource {
    /// A fresh stream: no previous sample, so the first reading's CPU usage
    /// is zero.
    pub fn new() -> (s: MetricsSource)
        ensures
            s.prev_cpu is None,
    {
        MetricsSource { prev_cpu: Option::None }
    }

    /// Turns one cycle's raw readings into a `SystemMetrics` stamped `now`.
    ///
    /// Fails with the first sub-collection's error if any failed, returning
    /// no partial reading.  The retained CPU sample is replaced exactly when
    /// the memory and CPU sub-collections both succeeded (the CPU
    /// sub-collection runs second, so an earlier failure leaves it unread).
    pub fn collect_metrics(&mut self, raw: RawReadings, now: i64) -> (r: Result<
        SystemMetrics,
        MonitorError,
    >)
        ensures
            r is Ok <==> all_readings_ok(raw),
            r is Err ==> r->Err_0 == first_error(raw),
            final(self).prev_cpu == if raw.memory is Ok && raw.cpu is Ok {
                Option::Some(sample_of(raw.cpu->Ok_0))
            } else {
                old(self).prev_cpu
            },
            r matches Ok(m) ==> m@ == spec_collected_metrics(
                old(self).prev_cpu,
                raw.memory->Ok_0,
                raw.cpu->Ok_0,
                raw.load->Ok_0,
                raw.swap->Ok_0,
                now,
            ),
    {
        let raw_memory = match raw.memory {
            Result::Ok(v) => v,
            Result::Err(e) => {
                return Result::Err(e);
            },
        };
        let raw_cpu = match raw.cpu {
            Result::Ok(v) => v,
            Result::Err(e) => {
                return Result::Err(e);
            },
        };
        let prev = self.prev_cpu;
        self.prev_cpu = Option::Some(
            CpuSample {
                user: raw_cpu.user,
                system: raw_cpu.system,
                idle: raw_cpu.idle,
                total: raw_cpu.total,
            },
        );
        let raw_load = match raw.load {
            Result::Ok(v) => v,
            Result::Err(e) => {
                return Result::Err(e);
            },
        };
        let raw_swap = match raw.swap {
            Result::Ok(v) => v,
            Result::Err(e) => {
                return Result::Err(e);
            },
        };

        let memory = memory_metrics_from_raw(raw_memory);
        let cpu = cpu_metrics_from_raw(prev, raw_cpu);
        let load = load_metrics_from_raw(raw_load);
        let swap = swap_metrics_from_raw(raw_swap);
        let critical_events = detect_critical_events(&memory, &load, &swap, now);

        let m = SystemMetrics { timestamp: now, memory, cpu, swap, load, critical_events };
        proof {
            assert(m@ =~~= spec_collected_metrics(
                prev,
                raw_memory,
                raw_cpu,
                raw_load,
                raw_swap,
                now,
            ));
        }
        Result::Ok(m)
    }
}

} // verus!
