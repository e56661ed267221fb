//! What each event of a measurement counts, and what it leaves alone.

use vstd::prelude::*;

use crate::memory_profile::{
    counter_add, counter_sub, first_index, larger, last_entry, last_of, span_id, span_slot,
    span_totals, ActiveSpan, AllocationBucketSnapshot, AllocationEvent, AllocationScope,
    EventRingView, HeapCounters, HistorySyncAllocationSnapshot, ProfilerView,
    WasmAllocationSnapshot,
    ALLOCATION_EVENT_CAPACITY, BUCKET_COUNT, LARGE_ALLOCATION_THRESHOLD_BYTES,
    MAX_PROFILED_SPAN_CALLSITES,
};

verus! {

/// Whether a counter moved up by so much, around its end.
pub open spec fn up(before: u64, after: u64, by: int) -> bool {
    (after as int - before as int - by) % 0x1_0000_0000_0000_0000 == 0
}

/// Whether a counter moved down by so much, around its end.
pub open spec fn down(before: u64, after: u64, by: int) -> bool {
    (before as int - after as int - by) % 0x1_0000_0000_0000_0000 == 0
}

/// Whether a peak is the higher of what it was and what is there now.
pub open spec fn peaks(before: u64, now: u64, after: u64) -> bool {
    after >= before && after >= now && (after == before || after == now)
}

/// Counters count around their end, and undo each other.
pub proof fn counters_count_around_their_end(a: u64, b: u64)
    ensures
        up(a, counter_add(a, b), b as int),
        down(a, counter_sub(a, b), b as int),
        counter_sub(counter_add(a, b), b) == a,
        peaks(a, b, larger(a, b)),
{
}

/// Each scope has a bucket of its own.
pub proof fn each_scope_has_its_bucket(a: AllocationScope, b: AllocationScope)
    ensures
        a.index() == b.index() ==> a == b,
        0 <= a.index() < 7,
        AllocationScope::Other.index() == 0,
        AllocationScope::CoreTask.index() == 1,
        AllocationScope::HistoryDecode.index() == 2,
        AllocationScope::HistorySerialize.index() == 3,
        AllocationScope::HistoryEnvelope.index() == 4,
        AllocationScope::HistoryCallback.index() == 5,
        AllocationScope::Diagnostics.index() == 6,
        BUCKET_COUNT == 7,
{
}

/// The sizes of the profile: callsites, events, and what is large.
pub proof fn the_profile_has_its_sizes()
    ensures
        MAX_PROFILED_SPAN_CALLSITES == 256,
        ALLOCATION_EVENT_CAPACITY == 64,
        LARGE_ALLOCATION_THRESHOLD_BYTES == 1024 * 1024,
{
}

/// An allocation is counted with its size and no growth, a growth with its size
/// and no allocation.
pub proof fn an_allocation_is_no_growth(b: AllocationBucketSnapshot, n: u64)
    ensures
        up(b.allocated_bytes, b.counted(n).allocated_bytes, n as int),
        up(b.allocations, b.counted(n).allocations, 1),
        peaks(b.largest_allocation_bytes, n, b.counted(n).largest_allocation_bytes),
        b.counted(n).linear_growth_bytes == b.linear_growth_bytes,
        b.counted(n).linear_growth_events == b.linear_growth_events,
        up(b.linear_growth_bytes, b.grown(n).linear_growth_bytes, n as int),
        up(b.linear_growth_events, b.grown(n).linear_growth_events, 1),
        b.grown(n).allocated_bytes == b.allocated_bytes,
        b.grown(n).allocations == b.allocations,
        b.grown(n).largest_allocation_bytes == b.largest_allocation_bytes,
{
}

/// The heap counts what is asked for and what is given back, and what lives is
/// the difference.
pub proof fn the_heap_counts_both_ways(h: HeapCounters, size: u64)
    ensures
        ({
            let a = h.allocated(size);
            &&& up(h.live_bytes, a.live_bytes, size as int)
            &&& peaks(h.peak_live_bytes, a.live_bytes, a.peak_live_bytes)
            &&& up(h.allocated_bytes, a.allocated_bytes, size as int)
            &&& up(h.allocations, a.allocations, 1)
            &&& peaks(h.largest_allocation_bytes, size, a.largest_allocation_bytes)
            &&& a.freed_bytes == h.freed_bytes && a.deallocations == h.deallocations
            &&& a.reallocations == h.reallocations && a.observed_linear_bytes
                == h.observed_linear_bytes
        }),
        ({
            let f = h.freed(size);
            &&& down(h.live_bytes, f.live_bytes, size as int)
            &&& up(h.freed_bytes, f.freed_bytes, size as int)
            &&& up(h.deallocations, f.deallocations, 1)
            &&& f.peak_live_bytes == h.peak_live_bytes && f.allocated_bytes == h.allocated_bytes
            &&& f.allocations == h.allocations && f.largest_allocation_bytes
                == h.largest_allocation_bytes
            &&& f.reallocations == h.reallocations && f.observed_linear_bytes
                == h.observed_linear_bytes
        }),
{
}

/// A ring keeps the newest event last under the next number, with everything
/// that it said, and lets the oldest go once it is full.
pub proof fn a_ring_keeps_the_newest(r: EventRingView, e: AllocationEvent)
    requires
        r.wf(),
        r.total < u64::MAX,
    ensures
        ({
            let after = r.recorded(e);
            let newest = after.kept.last();
            &&& after.total == r.total + 1
            &&& after.kept.len() > 0
            &&& newest.sequence == after.total
            &&& newest.allocation_index == e.allocation_index && newest.scope == e.scope
            &&& newest.span_slot == e.span_slot && newest.allocation_bytes == e.allocation_bytes
            &&& newest.linear_growth_bytes == e.linear_growth_bytes
            &&& newest.linear_bytes_after == e.linear_bytes_after
            &&& newest.heap_live_bytes_after == e.heap_live_bytes_after
            &&& newest.history_events == e.history_events && newest.history_conversations
                == e.history_conversations
            &&& r.kept.len() < 64 ==> after.kept.drop_last() == r.kept
            &&& r.kept.len() == 64 ==> after.kept.len() == 64 && after.kept.drop_last()
                == r.kept.skip(1)
        }),
{
    let total = (r.total + 1) as u64;
    let all = r.kept.push(AllocationEvent { sequence: total, ..e });
    let after = r.recorded(e);
    if r.kept.len() < 64 {
        assert(after.kept == all);
        assert(after.kept.drop_last() =~= r.kept);
    } else {
        assert(after.kept == all.skip(1));
        assert(after.kept.drop_last() =~= r.kept.skip(1));
    }
}

/// What was recorded is kept or dropped.
pub proof fn an_event_is_kept_or_dropped(r: EventRingView)
    ensures
        r.dropped() + r.kept.len() == r.total,
{
}

/// A snapshot shows each counter, each scope and each list under its own name.
pub proof fn a_snapshot_shows_each_counter(
    s: WasmAllocationSnapshot,
    p: ProfilerView,
    linear: u64,
)
    requires
        s.shows(p, linear),
    ensures
        s.enabled && s.linear_bytes == linear,
        s.heap_live_bytes == p.heap.live_bytes && s.heap_peak_live_bytes == p.heap.peak_live_bytes,
        s.allocated_bytes == p.heap.allocated_bytes && s.freed_bytes == p.heap.freed_bytes,
        s.allocations == p.heap.allocations && s.deallocations == p.heap.deallocations,
        s.reallocations == p.heap.reallocations && s.largest_allocation_bytes
            == p.heap.largest_allocation_bytes,
        s.other == p.buckets[0] && s.core_task == p.buckets[1] && s.history_decode == p.buckets[2],
        s.history_serialize == p.buckets[3] && s.history_envelope == p.buckets[4],
        s.history_callback == p.buckets[5] && s.diagnostics == p.buckets[6],
        s.history_sync == p.history,
        s.core_spans@ == span_totals(p.spans, p.callsites.len() as int),
        s.memory_grow_events@ == p.grow_events.kept,
        s.large_allocation_events@ == p.large_events.kept,
        s.large_allocation_threshold_bytes == 1024 * 1024,
        s.dropped_core_span_callsites == p.dropped_callsites,
        s.dropped_memory_grow_events == p.grow_events.total - p.grow_events.kept.len(),
        s.dropped_large_allocation_events == p.large_events.total - p.large_events.kept.len(),
{
}

/// The last of some items are the items behind those that are left out.
pub proof fn the_last_are_behind_the_rest<T>(s: Seq<T>, n: int)
    requires
        n >= 0,
    ensures
        last_of(s, n).len() <= n,
        s.len() <= n ==> last_of(s, n) == s,
        s.len() > n ==> last_of(s, n).len() == n && last_of(s, n) == s.skip(s.len() - n),
{
}

/// What a sync counts: itself and its bytes on both sides, and nothing of the
/// queue.
pub proof fn a_sync_counts_its_bytes(h: HistorySyncAllocationSnapshot, c: u64, d: u64)
    ensures
        ({
            let a = h.synced(c, d);
            &&& up(h.events, a.events, 1)
            &&& up(h.compressed_bytes, a.compressed_bytes, c as int)
            &&& up(h.decompressed_bytes, a.decompressed_bytes, d as int)
            &&& peaks(h.largest_compressed_bytes, c, a.largest_compressed_bytes)
            &&& peaks(h.largest_decompressed_bytes, d, a.largest_decompressed_bytes)
            &&& a.conversations == h.conversations && a.batches == h.batches
            &&& a.skipped_conversations == h.skipped_conversations
            &&& holds_the_same(h, a)
        }),
{
}

/// Whether two states hold the same events in the same places.
pub open spec fn holds_the_same(
    a: HistorySyncAllocationSnapshot,
    b: HistorySyncAllocationSnapshot,
) -> bool {
    &&& a.queued_events == b.queued_events
    &&& a.queued_compressed_bytes == b.queued_compressed_bytes
    &&& a.active_events == b.active_events
    &&& a.active_compressed_bytes == b.active_compressed_bytes
    &&& a.retained_events == b.retained_events
    &&& a.retained_compressed_bytes == b.retained_compressed_bytes
}

/// Whether two states have counted the same syncs.
pub open spec fn counted_the_same(
    a: HistorySyncAllocationSnapshot,
    b: HistorySyncAllocationSnapshot,
) -> bool {
    &&& a.events == b.events
    &&& a.compressed_bytes == b.compressed_bytes
    &&& a.decompressed_bytes == b.decompressed_bytes
    &&& a.conversations == b.conversations
    &&& a.batches == b.batches
    &&& a.skipped_conversations == b.skipped_conversations
    &&& a.largest_compressed_bytes == b.largest_compressed_bytes
    &&& a.largest_decompressed_bytes == b.largest_decompressed_bytes
}

/// An event that joins the queue is queued and retained; one that is taken off
/// it becomes active; one that is done is neither active nor retained; one that
/// is dropped is neither queued nor retained.
pub proof fn an_event_moves_from_place_to_place(h: HistorySyncAllocationSnapshot, c: u64)
    ensures
        ({
            let a = h.enqueued(c);
            &&& up(h.queued_events, a.queued_events, 1)
            &&& up(h.queued_compressed_bytes, a.queued_compressed_bytes, c as int)
            &&& up(h.retained_events, a.retained_events, 1)
            &&& up(h.retained_compressed_bytes, a.retained_compressed_bytes, c as int)
            &&& a.active_events == h.active_events && a.active_compressed_bytes
                == h.active_compressed_bytes
            &&& peaks(h.peak_queued_events, a.queued_events, a.peak_queued_events)
            &&& peaks(
                h.peak_queued_compressed_bytes,
                a.queued_compressed_bytes,
                a.peak_queued_compressed_bytes,
            )
            &&& peaks(h.peak_retained_events, a.retained_events, a.peak_retained_events)
            &&& peaks(
                h.peak_retained_compressed_bytes,
                a.retained_compressed_bytes,
                a.peak_retained_compressed_bytes,
            )
            &&& a.peak_active_events == h.peak_active_events && a.peak_active_compressed_bytes
                == h.peak_active_compressed_bytes
            &&& counted_the_same(h, a)
        }),
        ({
            let a = h.dequeued(c);
            &&& down(h.queued_events, a.queued_events, 1)
            &&& down(h.queued_compressed_bytes, a.queued_compressed_bytes, c as int)
            &&& up(h.active_events, a.active_events, 1)
            &&& up(h.active_compressed_bytes, a.active_compressed_bytes, c as int)
            &&& a.retained_events == h.retained_events && a.retained_compressed_bytes
                == h.retained_compressed_bytes
            &&& peaks(h.peak_active_events, a.active_events, a.peak_active_events)
            &&& peaks(
                h.peak_active_compressed_bytes,
                a.active_compressed_bytes,
                a.peak_active_compressed_bytes,
            )
            &&& a.peak_queued_events == h.peak_queued_events && a.peak_queued_compressed_bytes
                == h.peak_queued_compressed_bytes
            &&& a.peak_retained_events == h.peak_retained_events
                && a.peak_retained_compressed_bytes == h.peak_retained_compressed_bytes
            &&& counted_the_same(h, a)
        }),
        ({
            let a = h.completed(c);
            &&& down(h.active_events, a.active_events, 1)
            &&& down(h.active_compressed_bytes, a.active_compressed_bytes, c as int)
            &&& down(h.retained_events, a.retained_events, 1)
            &&& down(h.retained_compressed_bytes, a.retained_compressed_bytes, c as int)
            &&& a.queued_events == h.queued_events && a.queued_compressed_bytes
                == h.queued_compressed_bytes
            &&& same_peaks(h, a)
            &&& counted_the_same(h, a)
        }),
        ({
            let a = h.cancelled(c);
            &&& down(h.queued_events, a.queued_events, 1)
            &&& down(h.queued_compressed_bytes, a.queued_compressed_bytes, c as int)
            &&& down(h.retained_events, a.retained_events, 1)
            &&& down(h.retained_compressed_bytes, a.retained_compressed_bytes, c as int)
            &&& a.active_events == h.active_events && a.active_compressed_bytes
                == h.active_compressed_bytes
            &&& same_peaks(h, a)
            &&& counted_the_same(h, a)
        }),
{
}

/// Whether two states have the same peaks.
pub open spec fn same_peaks(
    a: HistorySyncAllocationSnapshot,
    b: HistorySyncAllocationSnapshot,
) -> bool {
    &&& a.peak_queued_events == b.peak_queued_events
    &&& a.peak_queued_compressed_bytes == b.peak_queued_compressed_bytes
    &&& a.peak_active_events == b.peak_active_events
    &&& a.peak_active_compressed_bytes == b.peak_active_compressed_bytes
    &&& a.peak_retained_events == b.peak_retained_events
    &&& a.peak_retained_compressed_bytes == b.peak_retained_compressed_bytes
}

/// Peaks that start again start at what is held, and nothing else changes.
pub proof fn peaks_start_again_at_what_is_held(h: HistorySyncAllocationSnapshot)
    ensures
        ({
            let a = h.repeaked();
            &&& holds_the_same(h, a)
            &&& counted_the_same(h, a)
            &&& a.peak_queued_events == h.queued_events
            &&& a.peak_queued_compressed_bytes == h.queued_compressed_bytes
            &&& a.peak_active_events == h.active_events
            &&& a.peak_active_compressed_bytes == h.active_compressed_bytes
            &&& a.peak_retained_events == h.retained_events
            &&& a.peak_retained_compressed_bytes == h.retained_compressed_bytes
        }),
{
}

/// The profiler's own allocations are charged to no span, any other to the
/// innermost.
pub proof fn the_innermost_span_is_charged(p: ProfilerView)
    ensures
        p.scope == AllocationScope::Diagnostics ==> p.charged_slot() is None,
        p.active.len() == 0 ==> p.charged_slot() is None,
        p.scope != AllocationScope::Diagnostics && p.active.len() > 0 ==> p.charged_slot() == Some(
            p.active[p.active.len() - 1].slot,
        ),
{
}

/// An allocation is charged to its own scope and to the innermost span, and to
/// nothing else; memory that grew is an event, and so is a large request.
pub proof fn an_allocation_is_charged_where_it_was_made(
    p: ProfilerView,
    size: u64,
    linear: u64,
    scope: AllocationScope,
    slot: int,
)
    requires
        p.buckets.len() == 7,
        p.spans.len() == 256,
        0 <= slot < 256,
        p.charged_slot() matches Some(s) ==> s < 256,
    ensures
        ({
            let after = p.allocated(size, linear);
            let grew = linear > p.heap.observed_linear_bytes;
            &&& up(p.heap.live_bytes, after.heap.live_bytes, size as int)
            &&& up(p.heap.allocations, after.heap.allocations, 1)
            &&& peaks(p.heap.observed_linear_bytes, linear, after.heap.observed_linear_bytes)
            &&& scope != p.scope ==> after.buckets[scope.index()] == p.buckets[scope.index()]
            &&& up(
                p.buckets[p.scope.index()].allocated_bytes,
                after.buckets[p.scope.index()].allocated_bytes,
                size as int,
            )
            &&& up(
                p.buckets[p.scope.index()].allocations,
                after.buckets[p.scope.index()].allocations,
                1,
            )
            &&& grew ==> up(
                p.buckets[p.scope.index()].linear_growth_bytes,
                after.buckets[p.scope.index()].linear_growth_bytes,
                linear - p.heap.observed_linear_bytes,
            )
            &&& !grew ==> after.buckets[p.scope.index()].linear_growth_bytes
                == p.buckets[p.scope.index()].linear_growth_bytes
            &&& p.charged_slot() != Some(slot as usize) ==> after.spans[slot] == p.spans[slot]
            &&& p.charged_slot() == Some(slot as usize) ==> up(
                p.spans[slot].allocated_bytes,
                after.spans[slot].allocated_bytes,
                size as int,
            )
            &&& !grew ==> after.grow_events == p.grow_events
            &&& size < 1024 * 1024 ==> after.large_events == p.large_events
            &&& after.history == p.history && after.callsites == p.callsites && after.active
                == p.active && after.scope == p.scope
        }),
{
    each_scope_has_its_bucket(scope, p.scope);
}

/// Memory that grew and a large request are told with their size, their scope
/// and their span.
pub proof fn an_event_tells_where_it_came_from(p: ProfilerView, size: u64, linear: u64)
    requires
        p.grow_events.wf(),
        p.large_events.wf(),
        p.grow_events.total < u64::MAX,
        p.large_events.total < u64::MAX,
    ensures
        ({
            let after = p.allocated(size, linear);
            let grew = linear > p.heap.observed_linear_bytes;
            &&& grew ==> {
                let e = after.grow_events.kept.last();
                &&& after.grow_events.total == p.grow_events.total + 1
                &&& e.allocation_bytes == size
                &&& e.linear_growth_bytes == linear - p.heap.observed_linear_bytes
                &&& e.linear_bytes_after == linear
                &&& e.scope == p.scope
                &&& e.span_slot == p.charged_slot()
                &&& e.heap_live_bytes_after == after.heap.live_bytes
                &&& e.allocation_index == after.heap.allocations
                &&& e.history_events == p.history.events
                &&& e.history_conversations == p.history.conversations
            }
            &&& size >= 1024 * 1024 ==> {
                let e = after.large_events.kept.last();
                &&& after.large_events.total == p.large_events.total + 1
                &&& e.allocation_bytes == size
                &&& e.linear_bytes_after == linear
                &&& e.scope == p.scope
                &&& e.span_slot == p.charged_slot()
                &&& !grew ==> e.linear_growth_bytes == 0
            }
        }),
{
    let heap = p.heap.allocated(size);
    let growth: u64 = if linear > heap.observed_linear_bytes {
        (linear - heap.observed_linear_bytes) as u64
    } else {
        0
    };
    let event = AllocationEvent {
        sequence: 0,
        allocation_index: heap.allocations,
        scope: p.scope,
        span_slot: p.charged_slot(),
        allocation_bytes: size,
        linear_growth_bytes: growth,
        linear_bytes_after: linear,
        heap_live_bytes_after: heap.live_bytes,
        history_events: p.history.events,
        history_conversations: p.history.conversations,
    };
    a_ring_keeps_the_newest(p.grow_events, event);
    a_ring_keeps_the_newest(p.large_events, event);
}

/// The first place of a callsite is one of its places, and none lies before it;
/// the innermost entry of a span is one of its entries, and none lies behind.
pub proof fn first_is_first_and_innermost_is_last(
    s: Seq<u64>,
    v: u64,
    active: Seq<ActiveSpan>,
    raw_id: u64,
)
    ensures
        match first_index(s, v) {
            Some(i) => 0 <= i < s.len() && s[i] == v && forall|j: int|
                0 <= j < i ==> #[trigger] s[j] != v,
            None => forall|j: int| 0 <= j < s.len() ==> #[trigger] s[j] != v,
        },
        match last_entry(active, raw_id) {
            Some(i) => 0 <= i < active.len() && active[i].raw_id == raw_id && forall|j: int|
                i < j < active.len() ==> (#[trigger] active[j]).raw_id != raw_id,
            None => forall|j: int|
                0 <= j < active.len() ==> (#[trigger] active[j]).raw_id != raw_id,
        },
    decreases s.len() + active.len(),
{
    if s.len() > 0 {
        let front = s.drop_last();
        first_is_first_and_innermost_is_last(front, v, active, raw_id);
        match first_index(front, v) {
            Some(i) => {
                assert(front[i] == s[i]);
                assert forall|j: int| 0 <= j < i implies #[trigger] s[j] != v by {
                    assert(front[j] == s[j]);
                }
            },
            None => {
                assert forall|j: int| 0 <= j < front.len() implies #[trigger] s[j] != v by {
                    assert(front[j] == s[j]);
                }
            },
        }
    } else if active.len() > 0 {
        let front = active.drop_last();
        first_is_first_and_innermost_is_last(s, v, front, raw_id);
        if active.last().raw_id != raw_id {
            assert forall|j: int|
                0 <= j < active.len() && (match last_entry(front, raw_id) {
                    Some(i) => i < j,
                    None => true,
                }) implies (#[trigger] active[j]).raw_id != raw_id by {
                if j < front.len() {
                    assert(front[j] == active[j]);
                }
            }
        }
    }
}

/// A callsite gets the next place while there is one; one too many is counted
/// and gets none.
pub proof fn a_new_callsite_gets_the_next_place(p: ProfilerView, callsite: u64)
    requires
        first_index(p.callsites, callsite) is None,
    ensures
        p.callsites.len() < 256 ==> p.registered(callsite).1 == Some(p.callsites.len() as int)
            && p.registered(callsite).0.callsites == p.callsites.push(callsite) && p.registered(
            callsite,
        ).0.dropped_callsites == p.dropped_callsites,
        p.callsites.len() == 256 ==> p.registered(callsite).1 is None && p.registered(
            callsite,
        ).0.callsites == p.callsites && up(
            p.dropped_callsites,
            p.registered(callsite).0.dropped_callsites,
            1,
        ),
{
}

/// Leaving a span takes its innermost entry out and no other; leaving one that
/// was not entered changes nothing.
pub proof fn leaving_takes_the_innermost_out(p: ProfilerView, raw_id: u64)
    ensures
        match last_entry(p.active, raw_id) {
            Some(i) => p.exited(raw_id).active == p.active.remove(i),
            None => p.exited(raw_id) == p,
        },
        p.exited(raw_id).scope == p.scope,
        p.exited(raw_id).heap == p.heap,
        p.exited(raw_id).buckets == p.buckets,
{
}

/// Only the outermost core task takes the scope and gives it back; the others
/// count.
pub proof fn only_the_outermost_task_takes_the_scope(p: ProfilerView)
    ensures
        p.core_task_depth == 0 ==> p.core_entered().scope == AllocationScope::CoreTask
            && p.core_entered().core_task_previous == p.scope && p.core_entered().core_task_depth
            == 1,
        0 < p.core_task_depth < u32::MAX ==> p.core_entered().scope == p.scope
            && p.core_entered().core_task_depth == p.core_task_depth + 1
            && p.core_entered().core_task_previous == p.core_task_previous,
        p.core_task_depth == u32::MAX ==> p.core_entered().core_task_depth == u32::MAX,
        p.core_task_depth == 0 ==> p.core_exited() == p,
        p.core_task_depth == 1 ==> p.core_exited().scope == p.core_task_previous
            && p.core_exited().core_task_depth == 0,
        p.core_task_depth > 1 ==> p.core_exited().scope == p.scope
            && p.core_exited().core_task_depth == p.core_task_depth - 1,
{
}

/// A new measurement starts its peaks, its largest values, its callsites and
/// its events again, and goes on counting.
pub proof fn a_new_measurement_keeps_its_totals(p: ProfilerView, linear: u64, i: int)
    ensures
        ({
            let b = p.begun(linear);
            &&& b.heap.live_bytes == p.heap.live_bytes && b.heap.peak_live_bytes
                == p.heap.live_bytes
            &&& b.heap.largest_allocation_bytes == 0 && b.heap.observed_linear_bytes == linear
            &&& b.heap.allocated_bytes == p.heap.allocated_bytes && b.heap.freed_bytes
                == p.heap.freed_bytes
            &&& b.heap.allocations == p.heap.allocations && b.heap.deallocations
                == p.heap.deallocations
            &&& b.heap.reallocations == p.heap.reallocations
            &&& b.buckets.len() == p.buckets.len() && b.spans.len() == p.spans.len()
            &&& 0 <= i < p.buckets.len() ==> {
                &&& b.buckets[i].largest_allocation_bytes == 0
                &&& b.buckets[i].allocated_bytes == p.buckets[i].allocated_bytes
                &&& b.buckets[i].allocations == p.buckets[i].allocations
                &&& b.buckets[i].linear_growth_bytes == p.buckets[i].linear_growth_bytes
                &&& b.buckets[i].linear_growth_events == p.buckets[i].linear_growth_events
            }
            &&& 0 <= i < p.spans.len() ==> b.spans[i] == AllocationBucketSnapshot::zero()
            &&& b.grow_events.total == 0 && b.grow_events.kept.len() == 0
            &&& b.large_events.total == 0 && b.large_events.kept.len() == 0
            &&& holds_the_same(p.history, b.history) && counted_the_same(p.history, b.history)
            &&& b.history.peak_queued_events == p.history.queued_events
            &&& b.callsites == p.callsites && b.active == p.active && b.scope == p.scope
        }),
{
}

/// Nothing counted is zero everywhere, and the first span is number one.
pub proof fn a_fresh_profile_has_counted_nothing(i: int)
    ensures
        ({
            let p = ProfilerView::fresh();
            let z = AllocationBucketSnapshot::zero();
            &&& z.allocated_bytes == 0 && z.allocations == 0 && z.largest_allocation_bytes == 0
                && z.linear_growth_bytes == 0 && z.linear_growth_events == 0
            &&& p.heap.live_bytes == 0 && p.heap.peak_live_bytes == 0 && p.heap.allocated_bytes
                == 0 && p.heap.freed_bytes == 0 && p.heap.allocations == 0
                && p.heap.deallocations == 0 && p.heap.reallocations == 0
                && p.heap.largest_allocation_bytes == 0 && p.heap.observed_linear_bytes == 0
            &&& p.buckets.len() == 7 && p.spans.len() == 256
            &&& 0 <= i < 7 ==> p.buckets[i] == z
            &&& 0 <= i < 256 ==> p.spans[i] == z
            &&& p.callsites.len() == 0 && p.active.len() == 0 && p.dropped_callsites == 0
            &&& p.next_span_instance == 1
            &&& p.scope == AllocationScope::Other && p.core_task_depth == 0
            &&& p.history.events == 0 && p.history.queued_events == 0 && p.history.active_events
                == 0 && p.history.retained_events == 0 && p.history.peak_queued_events == 0
                && p.history.peak_active_events == 0 && p.history.peak_retained_events == 0
            &&& p.history.balanced() && p.history.peaks_cover()
        }),
{
}

/// No span has the number zero, and one without a callsite names none once its
/// number is above zero.
pub proof fn no_span_is_number_zero(instance: u64, slot: Option<int>)
    requires
        slot matches Some(s) ==> 0 <= s < 256,
    ensures
        span_id(instance, slot) != 0,
        0 < instance < 0x80_0000_0000_0000 ==> span_slot(span_id(instance, None)) is None,
{
    if 0 < instance && instance < 0x80_0000_0000_0000 {
        assert((instance << 9u64) | 0u64 != 0 && ((instance << 9u64) | 0u64) & 0x1ffu64 == 0)
            by (bit_vector)
            requires
                0 < instance,
                instance < 0x80_0000_0000_0000u64,
        ;
    }
}

/// A callsite is told of with its totals as soon as it allocated something, and
/// not before.
pub proof fn a_callsite_is_told_of_once_it_allocates(
    spans: Seq<AllocationBucketSnapshot>,
    n: int,
)
    requires
        0 < n <= spans.len(),
        n <= usize::MAX,
    ensures
        ({
            let t = spans[n - 1];
            let before = span_totals(spans, n - 1);
            let after = span_totals(spans, n);
            if t.allocated_bytes == 0 && t.allocations == 0 && t.linear_growth_bytes == 0 {
                after == before
            } else {
                &&& after.len() == before.len() + 1
                &&& after.drop_last() == before
                &&& after.last().slot == n - 1
                &&& after.last().totals == t
            }
        }),
{
    let after = span_totals(spans, n);
    let before = span_totals(spans, n - 1);
    if after.len() > before.len() {
        assert(after.drop_last() =~= before);
    }
}

} // verus!
