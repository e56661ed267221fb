//! Allocation counters, spans, rings and history ownership.

use voip_bridge::memory_profile::{
    allocation_scope, AllocationEvent, AllocationScope, EventRing, Profiler, WasmAllocationSnapshot,
    ALLOCATION_EVENT_CAPACITY, LARGE_ALLOCATION_THRESHOLD_BYTES, MAX_PROFILED_SPAN_CALLSITES,
};

fn event(bytes: u64) -> AllocationEvent {
    AllocationEvent {
        sequence: 0,
        allocation_index: 0,
        scope: AllocationScope::Other,
        span_slot: None,
        allocation_bytes: bytes,
        linear_growth_bytes: 0,
        linear_bytes_after: 0,
        heap_live_bytes_after: 0,
        history_events: 0,
        history_conversations: 0,
    }
}

#[test]
fn scopes_and_buckets_are_one_to_one() {
    for i in 0..7 {
        assert_eq!(allocation_scope(i).bucket(), i);
    }
    assert_eq!(allocation_scope(7), AllocationScope::Other);
}

#[test]
fn live_bytes_are_what_was_allocated_less_what_was_freed() {
    let mut p = Profiler::new();
    p.record_alloc(100, 0);
    p.record_alloc(50, 0);
    p.record_dealloc(100);
    p.record_realloc(50, 70, 0);
    let h = p.heap();
    assert_eq!(h.live_bytes, 70);
    assert_eq!(h.live_bytes, h.allocated_bytes - h.freed_bytes);
    assert_eq!(h.peak_live_bytes, 150);
    assert_eq!((h.allocations, h.deallocations, h.reallocations), (3, 2, 1));
    assert_eq!(h.largest_allocation_bytes, 100);
}

#[test]
fn an_allocation_counts_in_its_scope() {
    let mut p = Profiler::new();
    let previous = p.enter_scope(AllocationScope::HistoryDecode);
    assert_eq!(previous, AllocationScope::Other);
    p.record_alloc(10, 65_536);
    let b = p.bucket(AllocationScope::HistoryDecode);
    assert_eq!((b.allocated_bytes, b.allocations), (10, 1));
    assert_eq!((b.linear_growth_bytes, b.linear_growth_events), (65_536, 1));
    assert_eq!(p.bucket(AllocationScope::Other).allocations, 0);
    let grown = p.memory_grow_events();
    assert_eq!(grown.len(), 1);
    assert_eq!(grown[0].sequence, 1);
    assert_eq!(grown[0].scope, AllocationScope::HistoryDecode);
    assert_eq!(grown[0].linear_bytes_after, 65_536);
}

#[test]
fn a_large_allocation_is_kept_as_an_event() {
    let mut p = Profiler::new();
    p.record_alloc(LARGE_ALLOCATION_THRESHOLD_BYTES - 1, 0);
    assert!(p.large_allocation_events().is_empty());
    p.record_alloc(LARGE_ALLOCATION_THRESHOLD_BYTES, 0);
    let large = p.large_allocation_events();
    assert_eq!(large.len(), 1);
    assert_eq!(large[0].allocation_bytes, LARGE_ALLOCATION_THRESHOLD_BYTES);
}

#[test]
fn a_ring_keeps_the_last_events_and_counts_the_rest() {
    let mut ring = EventRing::new();
    let n = ALLOCATION_EVENT_CAPACITY as u64 + 3;
    for i in 0..n {
        ring.record(event(i));
    }
    assert_eq!(ring.total(), n);
    assert_eq!(ring.dropped(), 3);
    let kept = ring.snapshots();
    assert_eq!(kept.len(), ALLOCATION_EVENT_CAPACITY);
    assert_eq!(kept[0].allocation_bytes, 3);
    assert_eq!(kept[0].sequence, 4);
    assert_eq!(kept.last().unwrap().sequence, n);
    ring.reset();
    assert_eq!((ring.total(), ring.dropped()), (0, 0));
    assert!(ring.snapshots().is_empty());
}

#[test]
fn a_callsite_has_one_slot() {
    let mut p = Profiler::new();
    assert_eq!(p.register_callsite(77), Some(0));
    assert_eq!(p.register_callsite(78), Some(1));
    assert_eq!(p.register_callsite(77), Some(0));
    for i in 2..MAX_PROFILED_SPAN_CALLSITES {
        assert_eq!(p.register_callsite(1000 + i as u64), Some(i));
    }
    assert_eq!(p.register_callsite(5), None);
    assert_eq!(p.register_callsite(78), Some(1));
}

#[test]
fn a_span_is_left_wherever_it_is() {
    let mut p = Profiler::new();
    let a = p.new_span(1);
    let b = p.new_span(2);
    assert_ne!(a, b);
    p.enter(a);
    p.enter(b);
    assert_eq!(p.current_span().unwrap().slot, 1);
    p.record_alloc(10, 0);
    p.exit(a);
    assert_eq!(p.current_span().unwrap().raw_id, b);
    p.exit(b);
    assert_eq!(p.current_span(), None);
    let totals = p.core_span_snapshots();
    assert_eq!(totals.len(), 1);
    assert_eq!((totals[0].slot, totals[0].totals.allocated_bytes), (1, 10));
}

#[test]
fn a_span_of_an_unregistered_callsite_counts_nowhere() {
    let mut p = Profiler::new();
    for i in 0..MAX_PROFILED_SPAN_CALLSITES {
        p.register_callsite(i as u64);
    }
    let id = p.new_span(9999);
    assert_ne!(id, 0);
    p.enter(id);
    assert_eq!(p.current_span(), None);
}

#[test]
fn a_core_task_gives_the_scope_back() {
    let mut p = Profiler::new();
    p.enter_scope(AllocationScope::HistoryCallback);
    p.enter_core_task();
    p.enter_core_task();
    p.record_alloc(1, 0);
    p.exit_core_task();
    p.record_alloc(1, 0);
    p.exit_core_task();
    p.record_alloc(1, 0);
    p.exit_core_task();
    assert_eq!(p.bucket(AllocationScope::CoreTask).allocations, 2);
    assert_eq!(p.bucket(AllocationScope::HistoryCallback).allocations, 1);
}

#[test]
fn history_events_move_from_the_queue_to_the_delivery() {
    let mut p = Profiler::new();
    p.record_history_event_enqueued(100);
    p.record_history_event_enqueued(40);
    p.record_history_event_dequeued(100);
    let h = p.history();
    assert_eq!((h.queued_events, h.queued_compressed_bytes), (1, 40));
    assert_eq!((h.active_events, h.active_compressed_bytes), (1, 100));
    assert_eq!((h.retained_events, h.retained_compressed_bytes), (2, 140));
    p.record_history_event_completed(100);
    p.record_history_event_cancelled(40);
    let h = p.history();
    assert_eq!((h.queued_events, h.active_events, h.retained_events), (0, 0, 0));
    assert_eq!(h.peak_retained_compressed_bytes, 140);
    assert_eq!(h.peak_queued_events, 2);
    p.record_history_sync(5, 50);
    p.record_history_conversation();
    p.record_history_batch();
    p.record_history_skipped(3);
    let h = p.history();
    assert_eq!((h.events, h.compressed_bytes, h.decompressed_bytes), (1, 5, 50));
    assert_eq!((h.conversations, h.batches, h.skipped_conversations), (1, 1, 3));
}

#[test]
fn a_new_profile_forgets_peaks_but_not_totals() {
    let mut p = Profiler::new();
    p.record_alloc(LARGE_ALLOCATION_THRESHOLD_BYTES, 65_536);
    p.record_dealloc(LARGE_ALLOCATION_THRESHOLD_BYTES);
    p.begin_profile(65_536);
    let h = p.heap();
    assert_eq!((h.live_bytes, h.peak_live_bytes, h.largest_allocation_bytes), (0, 0, 0));
    assert_eq!(h.allocated_bytes, LARGE_ALLOCATION_THRESHOLD_BYTES);
    assert_eq!(p.dropped().0, 0);
    assert!(p.memory_grow_events().is_empty() && p.large_allocation_events().is_empty());
}

#[test]
fn a_snapshot_shows_the_profile_beside_the_linear_memory() {
    let mut p = Profiler::new();
    let slot = p.register_callsite(77).unwrap();
    let span = p.new_span(77);
    p.enter(span);
    p.enter_scope(AllocationScope::HistoryDecode);
    p.record_alloc(LARGE_ALLOCATION_THRESHOLD_BYTES, 131_072);
    p.record_alloc(10, 131_072);
    p.record_dealloc(10);
    p.record_history_sync(5, 50);
    let s = p.snapshot(196_608);
    assert!(s.enabled);
    assert_eq!(s.linear_bytes, 196_608);
    assert_eq!(s.heap_live_bytes, LARGE_ALLOCATION_THRESHOLD_BYTES);
    assert_eq!(s.heap_peak_live_bytes, LARGE_ALLOCATION_THRESHOLD_BYTES + 10);
    assert_eq!(s.allocated_bytes, LARGE_ALLOCATION_THRESHOLD_BYTES + 10);
    assert_eq!((s.freed_bytes, s.allocations, s.deallocations, s.reallocations), (10, 2, 1, 0));
    assert_eq!(s.largest_allocation_bytes, LARGE_ALLOCATION_THRESHOLD_BYTES);
    assert_eq!(s.history_decode.allocations, 2);
    assert_eq!(s.other.allocations, 0);
    assert_eq!((s.history_sync.events, s.history_sync.decompressed_bytes), (1, 50));
    assert_eq!(s.core_spans.len(), 1);
    assert_eq!((s.core_spans[0].slot, s.core_spans[0].totals.allocations), (slot, 2));
    assert_eq!(s.large_allocation_events.len(), 1);
    assert_eq!(s.large_allocation_threshold_bytes, LARGE_ALLOCATION_THRESHOLD_BYTES);
    assert_eq!((s.dropped_core_span_callsites, s.dropped_large_allocation_events), (0, 0));
}

#[test]
fn a_module_that_counts_nothing_shows_its_linear_memory() {
    let s = WasmAllocationSnapshot::disabled(65_536);
    assert!(!s.enabled);
    assert_eq!((s.linear_bytes, s.heap_live_bytes, s.allocations), (65_536, 0, 0));
    assert_eq!(s.large_allocation_threshold_bytes, 0);
    assert!(s.core_spans.is_empty() && s.memory_grow_events.is_empty());
}
