//! Threshold rules: deriving critical events from a single reading.
//!
//! Each of the three watched metrics (memory used %, one-minute load as a %
//! of the CPU count, swap used %) has a high and a critical bound, both
//! strict.  At most one event fires per metric per reading, the critical
//! check taking precedence; swap is only evaluated when total swap is
//! non-zero.

use vstd::prelude::*;

use crate::metrics::{
    events_view, CriticalEvent, CriticalEventV, EventKind, LoadMetrics, MemoryMetrics, Severity,
    SwapMetrics, LOAD_CRITICAL_TENTHS, LOAD_HIGH_TENTHS, MEMORY_CRITICAL_TENTHS,
    MEMORY_HIGH_TENTHS, SWAP_CRITICAL_TENTHS, SWAP_HIGH_TENTHS,
};
use crate::render::{hundredths_string, hundredths_text, tenths_string, tenths_text};

verus! {

/// The description text of a memory event.
pub open spec fn memory_description(tenths: u64) -> Seq<char> {
    "Memory usage at "@ + tenths_text(tenths as nat) + "%"@
}

/// The description text of a load event.
pub open spec fn load_description(percent_tenths: u64, avg_hundredths: u64) -> Seq<char> {
    "Load at "@ + tenths_text(percent_tenths as nat) + "% (avg: "@ + hundredths_text(
        avg_hundredths as nat,
    ) + ")"@
}

/// The description text of a swap event.
pub open spec fn swap_description(tenths: u64) -> Seq<char> {
    "Swap usage at "@ + tenths_text(tenths as nat) + "%"@
}

/// The events the memory thresholds call for: one critical event strictly
/// above the critical bound, else one high event strictly above the high
/// bound, else none.
pub open spec fn expected_memory_events(m: MemoryMetrics, now: i64) -> Seq<CriticalEventV> {
    if m.used_percent_tenths > MEMORY_CRITICAL_TENTHS {
        seq![
            CriticalEventV {
                event_type: EventKind::MemoryCritical,
                severity: Severity::Critical,
                description: memory_description(m.used_percent_tenths),
                timestamp: now,
            },
        ]
    } else if m.used_percent_tenths > MEMORY_HIGH_TENTHS {
        seq![
            CriticalEventV {
                event_type: EventKind::MemoryWarning,
                severity: Severity::High,
                description: memory_description(m.used_percent_tenths),
                timestamp: now,
            },
        ]
    } else {
        Seq::empty()
    }
}

/// The events the load thresholds call for.
pub open spec fn expected_load_events(l: LoadMetrics, now: i64) -> Seq<CriticalEventV> {
    if l.load_percent_1min_tenths > LOAD_CRITICAL_TENTHS {
        seq![
            CriticalEventV {
                event_type: EventKind::LoadCritical,
                severity: Severity::Critical,
                description: load_description(
                    l.load_percent_1min_tenths,
                    l.load_average_1min_hundredths,
                ),
                timestamp: now,
            },
        ]
    } else if l.load_percent_1min_tenths > LOAD_HIGH_TENTHS {
        seq![
            CriticalEventV {
                event_type: EventKind::LoadWarning,
                severity: Severity::High,
                description: load_description(
                    l.load_percent_1min_tenths,
                    l.load_average_1min_hundredths,
                ),
                timestamp: now,
            },
        ]
    } else {
        Seq::empty()
    }
}

/// The events the swap thresholds call for; none when there is no swap.
pub open spec fn expected_swap_events(s: SwapMetrics, now: i64) -> Seq<CriticalEventV> {
    if s.total_kb > 0 && s.used_percent_tenths > SWAP_CRITICAL_TENTHS {
        seq![
            CriticalEventV {
                event_type: EventKind::SwapCritical,
                severity: Severity::Critical,
                description: swap_description(s.used_percent_tenths),
                timestamp: now,
            },
        ]
    } else if s.total_kb > 0 && s.used_percent_tenths > SWAP_HIGH_TENTHS {
        seq![
            CriticalEventV {
                event_type: EventKind::SwapWarning,
                severity: Severity::High,
                description: swap_description(s.used_percent_tenths),
                timestamp: now,
            },
        ]
    } else {
        Seq::empty()
    }
}

/// Every event one reading calls for, in metric order: memory, load, swap,
/// all stamped `now`.
pub open spec fn expected_events(
    m: MemoryMetrics,
    l: LoadMetrics,
    s: SwapMetrics,
    now: i64,
) -> Seq<CriticalEventV> {
    expected_memory_events(m, now) + expected_load_events(l, now) + expected_swap_events(s, now)
}

/// Derives the critical events of one reading, all stamped `now`.
pub fn detect_critical_events(
    memory: &MemoryMetrics,
    load: &LoadMetrics,
    swap: &SwapMetrics,
    now: i64,
) -> (events: Vec<CriticalEvent>)
    ensures
        events_view(events@) == expected_events(*memory, *load, *swap, now),
{
    let mut events: Vec<CriticalEvent> = Vec::new();

    if memory.used_percent_tenths > MEMORY_CRITICAL_TENTHS {
        let d = memory_description_string(memory);
        events.push(CriticalEvent {
            event_type: EventKind::MemoryCritical,
            severity: Severity::Critical,
            description: d,
            timestamp: now,
        });
    } else if memory.used_percent_tenths > MEMORY_HIGH_TENTHS {
        let d = memory_description_string(memory);
        events.push(CriticalEvent {
            event_type: EventKind::MemoryWarning,
            severity: Severity::High,
            description: d,
            timestamp: now,
        });
    }
    assert(events_view(events@) =~~= expected_memory_events(*memory, now));

    if load.load_percent_1min_tenths > LOAD_CRITICAL_TENTHS {
        let d = load_description_string(load);
        events.push(CriticalEvent {
            event_type: EventKind::LoadCritical,
            severity: Severity::Critical,
            description: d,
            timestamp: now,
        });
    } else if load.load_percent_1min_tenths > LOAD_HIGH_TENTHS {
        let d = load_description_string(load);
        events.push(CriticalEvent {
            event_type: EventKind::LoadWarning,
            severity: Severity::High,
            description: d,
            timestamp: now,
        });
    }
    assert(events_view(events@) =~~= expected_memory_events(*memory, now) + expected_load_events(
        *load,
        now,
    ));

    if swap.total_kb > 0 && swap.used_percent_tenths > SWAP_CRITICAL_TENTHS {
        let d = swap_description_string(swap);
        events.push(CriticalEvent {
            event_type: EventKind::SwapCritical,
            severity: Severity::Critical,
            description: d,
            timestamp: now,
        });
    } else if swap.total_kb > 0 && swap.used_percent_tenths > SWAP_HIGH_TENTHS {
        let d = swap_description_string(swap);
        events.push(CriticalEvent {
            event_type: EventKind::SwapWarning,
            severity: Severity::High,
            description: d,
            timestamp: now,
        });
    }
    assert(events_view(events@) =~~= expected_events(*memory, *load, *swap, now));

    events
}

/// Builds the memory event description.
fn memory_description_string(memory: &MemoryMetrics) -> (d: String)
    ensures
        d@ == memory_description(memory.used_percent_tenths),
{
    let mut d = String::new();
    d.append("Memory usage at ");
    let t = tenths_string(memory.used_percent_tenths);
    d.append(t.as_str());
    d.append("%");
    d
}

/// Builds the load event description.
fn load_description_string(load: &LoadMetrics) -> (d: String)
    ensures
        d@ == load_description(load.load_percent_1min_tenths, load.load_average_1min_hundredths),
{
    let mut d = String::new();
    d.append("Load at ");
    let t = tenths_string(load.load_percent_1min_tenths);
    d.append(t.as_str());
    d.append("% (avg: ");
    let h = hundredths_string(load.load_average_1min_hundredths);
    d.append(h.as_str());
    d.append(")");
    d
}

/// Builds the swap event description.
fn swap_description_string(swap: &SwapMetrics) -> (d: String)
    ensures
        d@ == swap_description(swap.used_percent_tenths),
{
    let mut d = String::new();
    d.append("Swap usage at ");
    let t = tenths_string(swap.used_percent_tenths);
    d.append(t.as_str());
    d.append("%");
    d
}

/// The critical bounds are strict: a metric sitting exactly on its critical
/// bound raises no critical event, and one strictly above it raises exactly
/// one event for that metric, a critical one (so no high event fires there
/// too).
pub proof fn lemma_critical_bounds_strict(m: MemoryMetrics, l: LoadMetrics, s: SwapMetrics, now: i64)
    ensures
        m.used_percent_tenths <= MEMORY_CRITICAL_TENTHS ==> forall|i: int|
            0 <= i < expected_memory_events(m, now).len()
                ==> (#[trigger] expected_memory_events(m, now)[i]).severity != Severity::Critical,
        m.used_percent_tenths > MEMORY_CRITICAL_TENTHS ==> expected_memory_events(m, now)
            =~= seq![
            CriticalEventV {
                event_type: EventKind::MemoryCritical,
                severity: Severity::Critical,
                description: memory_description(m.used_percent_tenths),
                timestamp: now,
            },
        ],
        l.load_percent_1min_tenths <= LOAD_CRITICAL_TENTHS ==> forall|i: int|
            0 <= i < expected_load_events(l, now).len()
                ==> (#[trigger] expected_load_events(l, now)[i]).severity != Severity::Critical,
        s.used_percent_tenths <= SWAP_CRITICAL_TENTHS ==> forall|i: int|
            0 <= i < expected_swap_events(s, now).len()
                ==> (#[trigger] expected_swap_events(s, now)[i]).severity != Severity::Critical,
        expected_memory_events(m, now).len() <= 1,
        expected_load_events(l, now).len() <= 1,
        expected_swap_events(s, now).len() <= 1,
{
}

/// Swap thresholds are only evaluated when there is swap at all.
pub proof fn lemma_no_swap_no_events(s: SwapMetrics, now: i64)
    requires
        s.total_kb == 0,
    ensures
        expected_swap_events(s, now) =~= Seq::<CriticalEventV>::empty(),
{
}

} // verus!
