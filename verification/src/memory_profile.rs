//! Heap attribution for diagnostics.
//!
//! The committed size of linear memory tells how many pages there are, but
//! not how much requested heap is still live or which phase caused allocator
//! churn. The profiler keeps counters per scope and per tracing callsite, two
//! bounded rings of notable allocations, and the ownership of history-sync
//! events between queue and delivery.

use vstd::prelude::*;

verus! {

/// Allocation scope active when an allocator call was made. These are
/// boundaries of this bridge, not names of protocol operations.
#[derive(Debug, Clone, Copy, PartialEq, Eq, Structural)]
pub enum AllocationScope {
    /// Everything else.
    Other,
    /// A task of the core.
    CoreTask,
    /// Decoding history.
    HistoryDecode,
    /// Serializing history.
    HistorySerialize,
    /// Building a history envelope.
    HistoryEnvelope,
    /// Delivering history.
    HistoryCallback,
    /// The profiler's own snapshots.
    Diagnostics,
}

/// How many scopes there are.
pub const BUCKET_COUNT: usize = 7;

/// How many tracing callsites are told apart.
pub const MAX_PROFILED_SPAN_CALLSITES: usize = 256;

/// How many events a ring keeps.
pub const ALLOCATION_EVENT_CAPACITY: usize = 64;

/// From this size on an allocation is an event of its own.
pub const LARGE_ALLOCATION_THRESHOLD_BYTES: u64 = 0x10_0000;

/// The bits of a span id that name its callsite.
pub const SPAN_SLOT_MASK: u64 = 0x1ff;

impl AllocationScope {
    /// The scope's bucket.
    pub open spec fn index(self) -> int {
        match self {
            AllocationScope::Other => 0,
            AllocationScope::CoreTask => 1,
            AllocationScope::HistoryDecode => 2,
            AllocationScope::HistorySerialize => 3,
            AllocationScope::HistoryEnvelope => 4,
            AllocationScope::HistoryCallback => 5,
            AllocationScope::Diagnostics => 6,
        }
    }

    /// The scope's bucket.
    pub fn bucket(self) -> (i: usize)
        ensures
            i == self.index(),
            i < BUCKET_COUNT,
    {
        match self {
            AllocationScope::Other => 0,
            AllocationScope::CoreTask => 1,
            AllocationScope::HistoryDecode => 2,
            AllocationScope::HistorySerialize => 3,
            AllocationScope::HistoryEnvelope => 4,
            AllocationScope::HistoryCallback => 5,
            AllocationScope::Diagnostics => 6,
        }
    }
}

/// The scope of a bucket; a number that is none is the catch-all.
pub fn allocation_scope(bucket: usize) -> (s: AllocationScope)
    ensures
        bucket < BUCKET_COUNT ==> s.index() == bucket,
        bucket >= BUCKET_COUNT ==> s == AllocationScope::Other,
{
    match bucket {
        1 => AllocationScope::CoreTask,
        2 => AllocationScope::HistoryDecode,
        3 => AllocationScope::HistorySerialize,
        4 => AllocationScope::HistoryEnvelope,
        5 => AllocationScope::HistoryCallback,
        6 => AllocationScope::Diagnostics,
        _ => AllocationScope::Other,
    }
}

/// A counter's sum: counters start again after their last value.
pub open spec fn counter_add(a: u64, b: u64) -> u64 {
    if a + b > u64::MAX {
        (a + b - 0x1_0000_0000_0000_0000) as u64
    } else {
        (a + b) as u64
    }
}

/// A counter's difference.
pub open spec fn counter_sub(a: u64, b: u64) -> u64 {
    if a < b {
        (a - b + 0x1_0000_0000_0000_0000) as u64
    } else {
        (a - b) as u64
    }
}

/// The larger of two values.
pub open spec fn larger(a: u64, b: u64) -> u64 {
    if b > a {
        b
    } else {
        a
    }
}

fn max_of(a: u64, b: u64) -> (m: u64)
    ensures
        m == larger(a, b),
{
    if b > a {
        b
    } else {
        a
    }
}

fn plus(a: u64, b: u64) -> (s: u64)
    ensures
        s == counter_add(a, b),
{
    a.wrapping_add(b)
}

fn minus(a: u64, b: u64) -> (s: u64)
    ensures
        s == counter_sub(a, b),
{
    a.wrapping_sub(b)
}

/// Allocation totals of one scope or one callsite.
#[derive(Debug, Clone, Copy, PartialEq, Eq, Structural)]
pub struct AllocationBucketSnapshot {
    /// Bytes requested.
    pub allocated_bytes: u64,
    /// Allocator calls.
    pub allocations: u64,
    /// The largest request.
    pub largest_allocation_bytes: u64,
    /// Pages committed by allocator calls in this scope, in bytes.
    pub linear_growth_bytes: u64,
    /// How often pages were committed.
    pub linear_growth_events: u64,
}

impl AllocationBucketSnapshot {
    /// Nothing counted.
    pub open spec fn zero() -> AllocationBucketSnapshot {
        AllocationBucketSnapshot {
            allocated_bytes: 0,
            allocations: 0,
            largest_allocation_bytes: 0,
            linear_growth_bytes: 0,
            linear_growth_events: 0,
        }
    }

    /// One allocation more.
    pub open spec fn counted(self, size: u64) -> AllocationBucketSnapshot {
        AllocationBucketSnapshot {
            allocated_bytes: counter_add(self.allocated_bytes, size),
            allocations: counter_add(self.allocations, 1),
            largest_allocation_bytes: larger(self.largest_allocation_bytes, size),
            ..self
        }
    }

    /// One growth more.
    pub open spec fn grown(self, growth: u64) -> AllocationBucketSnapshot {
        AllocationBucketSnapshot {
            linear_growth_bytes: counter_add(self.linear_growth_bytes, growth),
            linear_growth_events: counter_add(self.linear_growth_events, 1),
            ..self
        }
    }

    fn empty() -> (b: Self)
        ensures
            b == AllocationBucketSnapshot::zero(),
    {
        AllocationBucketSnapshot {
            allocated_bytes: 0,
            allocations: 0,
            largest_allocation_bytes: 0,
            linear_growth_bytes: 0,
            linear_growth_events: 0,
        }
    }

    fn count(self, size: u64) -> (b: Self)
        ensures
            b == self.counted(size),
    {
        AllocationBucketSnapshot {
            allocated_bytes: plus(self.allocated_bytes, size),
            allocations: plus(self.allocations, 1),
            largest_allocation_bytes: max_of(self.largest_allocation_bytes, size),
            ..self
        }
    }

    fn grow(self, growth: u64) -> (b: Self)
        ensures
            b == self.grown(growth),
    {
        AllocationBucketSnapshot {
            linear_growth_bytes: plus(self.linear_growth_bytes, growth),
            linear_growth_events: plus(self.linear_growth_events, 1),
            ..self
        }
    }
}

/// One allocator call worth keeping. The history counters are a progress
/// marker that needs no clock.
#[derive(Debug, Clone, Copy, PartialEq, Eq, Structural)]
pub struct AllocationEvent {
    /// Its number among the events of its ring, from 1.
    pub sequence: u64,
    /// Its number among all allocations.
    pub allocation_index: u64,
    /// The scope it was made in.
    pub scope: AllocationScope,
    /// The callsite it was made under, if any.
    pub span_slot: Option<usize>,
    /// Bytes requested.
    pub allocation_bytes: u64,
    /// Bytes committed for it.
    pub linear_growth_bytes: u64,
    /// Bytes committed after it.
    pub linear_bytes_after: u64,
    /// Bytes live after it.
    pub heap_live_bytes_after: u64,
    /// History events seen so far.
    pub history_events: u64,
    /// History conversations seen so far.
    pub history_conversations: u64,
}

/// A bounded ring of events: it counts all, and keeps the last ones.
#[derive(Debug)]
pub struct EventRing {
    total: u64,
    slots: Vec<Option<AllocationEvent>>,
}

/// The values that an [`EventRing`] holds.
#[verifier::ext_equal]
pub struct EventRingView {
    /// How many events were recorded.
    pub total: u64,
    /// The last of them, oldest first.
    pub kept: Seq<AllocationEvent>,
}

/// The last `n` items.
pub open spec fn last_of<T>(s: Seq<T>, n: int) -> Seq<T> {
    if s.len() <= n {
        s
    } else {
        s.skip(s.len() - n)
    }
}

impl EventRingView {
    /// A ring without events.
    pub open spec fn empty() -> EventRingView {
        EventRingView { total: 0, kept: Seq::empty() }
    }

    /// One event more, under the next number.
    pub open spec fn recorded(self, event: AllocationEvent) -> EventRingView {
        let total = (self.total + 1) as u64;
        EventRingView {
            total,
            kept: last_of(
                self.kept.push(AllocationEvent { sequence: total, ..event }),
                ALLOCATION_EVENT_CAPACITY as int,
            ),
        }
    }

    /// How many events were recorded and are no longer kept.
    pub open spec fn dropped(self) -> int {
        self.total - self.kept.len()
    }

    /// As many events are kept as there were, up to the capacity, and they
    /// carry the last numbers in order.
    pub open spec fn wf(self) -> bool {
        &&& self.kept.len() == if self.total < ALLOCATION_EVENT_CAPACITY {
            self.total as int
        } else {
            ALLOCATION_EVENT_CAPACITY as int
        }
        &&& forall|i: int|
            0 <= i < self.kept.len() ==> (#[trigger] self.kept[i]).sequence == self.total
                - self.kept.len() + i + 1
    }
}

impl View for EventRing {
    type V = EventRingView;

    closed spec fn view(&self) -> EventRingView {
        let n = if self.total < ALLOCATION_EVENT_CAPACITY {
            self.total as int
        } else {
            ALLOCATION_EVENT_CAPACITY as int
        };
        EventRingView {
            total: self.total,
            kept: Seq::new(
                n as nat,
                |i: int| self.slots@[(self.total - n + i) % ALLOCATION_EVENT_CAPACITY as int]->0,
            ),
        }
    }
}

impl EventRing {
    /// Every kept event sits in the slot of its number.
    pub closed spec fn wf(&self) -> bool {
        &&& self.slots@.len() == ALLOCATION_EVENT_CAPACITY
        &&& forall|q: int|
            0 <= q < self.total && self.total - q <= ALLOCATION_EVENT_CAPACITY ==> (
            #[trigger] self.slots@[q % ALLOCATION_EVENT_CAPACITY as int]) is Some
                && self.slots@[q % ALLOCATION_EVENT_CAPACITY as int]->0.sequence == q + 1
        &&& self@.wf()
    }

    /// A ring without events.
    pub fn new() -> (r: Self)
        ensures
            r.wf(),
            r@ == EventRingView::empty(),
    {
        let mut slots: Vec<Option<AllocationEvent>> = Vec::with_capacity(ALLOCATION_EVENT_CAPACITY);
        let mut i: usize = 0;
        while i < ALLOCATION_EVENT_CAPACITY
            invariant
                i <= ALLOCATION_EVENT_CAPACITY,
                slots@.len() == i,
            decreases ALLOCATION_EVENT_CAPACITY - i,
        {
            slots.push(None);
            i += 1;
        }
        let r = EventRing { total: 0, slots };
        assert(r@.kept =~= Seq::empty());
        r
    }

    /// Forgets every event.
    pub fn reset(&mut self)
        requires
            old(self).wf(),
        ensures
            final(self).wf(),
            final(self)@ == EventRingView::empty(),
    {
        self.total = 0;
        assert(self@.kept =~= Seq::empty());
    }

    /// How many events were recorded.
    pub fn total(&self) -> (n: u64)
        ensures
            n == self@.total,
    {
        self.total
    }

    /// Records one event under the next number; the oldest makes room.
    pub fn record(&mut self, event: AllocationEvent)
        requires
            old(self).wf(),
            old(self)@.total < u64::MAX,
        ensures
            final(self).wf(),
            final(self)@ == old(self)@.recorded(event),
    {
        let ghost before = *self;
        let at: usize = (self.total % ALLOCATION_EVENT_CAPACITY as u64) as usize;
        let sequence: u64 = self.total + 1;
        self.slots.set(at, Some(AllocationEvent { sequence, ..event }));
        self.total = sequence;
        proof {
            let cap = ALLOCATION_EVENT_CAPACITY as int;
            assert forall|q: int| 0 <= q < self.total && self.total - q <= cap implies (
            #[trigger] self.slots@[q % cap]) is Some && self.slots@[q % cap]->0.sequence == q
                + 1 by {
                if q < before.total {
                    assert(q % cap != before.total as int % cap) by {
                        ring_slots_differ(q, before.total as int);
                    }
                    assert(before.slots@[q % cap] is Some);
                }
            }
            let n = before@.kept.len() as int;
            let m = if self.total < cap {
                self.total as int
            } else {
                cap
            };
            assert(self@.kept =~= before@.recorded(event).kept) by {
                assert forall|i: int| 0 <= i < m implies self@.kept[i] == before@.recorded(
                    event,
                ).kept[i] by {
                    let q = self.total - m + i;
                    if q < before.total {
                        ring_slots_differ(q, before.total as int);
                        assert(before.slots@[q % cap] == self.slots@[q % cap]);
                        let j = q - (before.total - n);
                        assert(before@.kept[j] == before.slots@[q % cap]->0);
                    }
                }
            }
            assert forall|i: int| 0 <= i < self@.kept.len() implies (
            #[trigger] self@.kept[i]).sequence == self@.total - self@.kept.len() + i + 1 by {
                let q = self.total - m + i;
                assert(self.slots@[q % cap]->0.sequence == q + 1);
            }
        }
    }

    /// The kept events, oldest first.
    pub fn snapshots(&self) -> (out: Vec<AllocationEvent>)
        requires
            self.wf(),
        ensures
            out@ == self@.kept,
    {
        let total: u64 = self.total;
        let first: u64 = if total < ALLOCATION_EVENT_CAPACITY as u64 {
            0
        } else {
            total - ALLOCATION_EVENT_CAPACITY as u64
        };
        let mut out: Vec<AllocationEvent> = Vec::new();
        let mut q: u64 = first;
        while q < total
            invariant
                self.wf(),
                total == self.total,
                first <= q <= total,
                first == total - self@.kept.len(),
                out@ == self@.kept.take(q - first),
            decreases total - q,
        {
            let at: usize = (q % ALLOCATION_EVENT_CAPACITY as u64) as usize;
            assert(self.slots@[q as int % ALLOCATION_EVENT_CAPACITY as int] is Some);
            match self.slots[at] {
                Some(event) => {
                    out.push(event);
                },
                None => {},
            }
            assert(out@ =~= self@.kept.take(q + 1 - first));
            q += 1;
        }
        assert(out@ =~= self@.kept);
        out
    }

    /// How many events were recorded and are no longer kept.
    pub fn dropped(&self) -> (n: u64)
        requires
            self.wf(),
        ensures
            n == self@.dropped(),
    {
        if self.total < ALLOCATION_EVENT_CAPACITY as u64 {
            0
        } else {
            self.total - ALLOCATION_EVENT_CAPACITY as u64
        }
    }
}

/// Two event numbers less than a capacity apart have different slots.
proof fn ring_slots_differ(a: int, b: int)
    requires
        0 <= a < b,
        b - a < ALLOCATION_EVENT_CAPACITY,
    ensures
        a % ALLOCATION_EVENT_CAPACITY as int != b % ALLOCATION_EVENT_CAPACITY as int,
{
}

/// Who owns history-sync events: the ordered queue, the delivery, or both
/// together, with the peaks since profiling began.
#[derive(Debug, Clone, Copy, PartialEq, Eq, Structural)]
pub struct HistorySyncAllocationSnapshot {
    /// Events decoded.
    pub events: u64,
    /// Their compressed bytes.
    pub compressed_bytes: u64,
    /// Their decompressed bytes.
    pub decompressed_bytes: u64,
    /// Conversations delivered.
    pub conversations: u64,
    /// Batches delivered.
    pub batches: u64,
    /// Conversations skipped.
    pub skipped_conversations: u64,
    /// The largest compressed event.
    pub largest_compressed_bytes: u64,
    /// The largest decompressed event.
    pub largest_decompressed_bytes: u64,
    /// Compressed events waiting in the ordered queue.
    pub queued_events: u64,
    /// Their bytes.
    pub queued_compressed_bytes: u64,
    /// The most there were.
    pub peak_queued_events: u64,
    /// The most bytes there were.
    pub peak_queued_compressed_bytes: u64,
    /// Dequeued events still being decoded or delivered.
    pub active_events: u64,
    /// Their bytes.
    pub active_compressed_bytes: u64,
    /// The most there were.
    pub peak_active_events: u64,
    /// The most bytes there were.
    pub peak_active_compressed_bytes: u64,
    /// Queue plus active ownership.
    pub retained_events: u64,
    /// Their bytes.
    pub retained_compressed_bytes: u64,
    /// The most there were.
    pub peak_retained_events: u64,
    /// The most bytes there were.
    pub peak_retained_compressed_bytes: u64,
}

impl HistorySyncAllocationSnapshot {
    /// Nothing seen.
    pub open spec fn zero() -> HistorySyncAllocationSnapshot {
        HistorySyncAllocationSnapshot {
            events: 0,
            compressed_bytes: 0,
            decompressed_bytes: 0,
            conversations: 0,
            batches: 0,
            skipped_conversations: 0,
            largest_compressed_bytes: 0,
            largest_decompressed_bytes: 0,
            queued_events: 0,
            queued_compressed_bytes: 0,
            peak_queued_events: 0,
            peak_queued_compressed_bytes: 0,
            active_events: 0,
            active_compressed_bytes: 0,
            peak_active_events: 0,
            peak_active_compressed_bytes: 0,
            retained_events: 0,
            retained_compressed_bytes: 0,
            peak_retained_events: 0,
            peak_retained_compressed_bytes: 0,
        }
    }

    /// Retention is exactly what the queue and the delivery own together.
    pub open spec fn balanced(self) -> bool {
        &&& self.retained_events == counter_add(self.queued_events, self.active_events)
        &&& self.retained_compressed_bytes == counter_add(
            self.queued_compressed_bytes,
            self.active_compressed_bytes,
        )
    }

    /// No current value exceeds its peak.
    pub open spec fn peaks_cover(self) -> bool {
        &&& self.queued_events <= self.peak_queued_events
        &&& self.queued_compressed_bytes <= self.peak_queued_compressed_bytes
        &&& self.active_events <= self.peak_active_events
        &&& self.active_compressed_bytes <= self.peak_active_compressed_bytes
        &&& self.retained_events <= self.peak_retained_events
        &&& self.retained_compressed_bytes <= self.peak_retained_compressed_bytes
    }

    /// One event was decoded.
    pub open spec fn synced(self, compressed: u64, decompressed: u64) -> Self {
        HistorySyncAllocationSnapshot {
            events: counter_add(self.events, 1),
            compressed_bytes: counter_add(self.compressed_bytes, compressed),
            decompressed_bytes: counter_add(self.decompressed_bytes, decompressed),
            largest_compressed_bytes: larger(self.largest_compressed_bytes, compressed),
            largest_decompressed_bytes: larger(self.largest_decompressed_bytes, decompressed),
            ..self
        }
    }

    /// One event joined the queue.
    pub open spec fn enqueued(self, compressed: u64) -> Self {
        let queued_events = counter_add(self.queued_events, 1);
        let queued_bytes = counter_add(self.queued_compressed_bytes, compressed);
        let retained_events = counter_add(self.retained_events, 1);
        let retained_bytes = counter_add(self.retained_compressed_bytes, compressed);
        HistorySyncAllocationSnapshot {
            queued_events,
            queued_compressed_bytes: queued_bytes,
            retained_events,
            retained_compressed_bytes: retained_bytes,
            peak_queued_events: larger(self.peak_queued_events, queued_events),
            peak_queued_compressed_bytes: larger(self.peak_queued_compressed_bytes, queued_bytes),
            peak_retained_events: larger(self.peak_retained_events, retained_events),
            peak_retained_compressed_bytes: larger(
                self.peak_retained_compressed_bytes,
                retained_bytes,
            ),
            ..self
        }
    }

    /// One event moved from the queue to the delivery.
    pub open spec fn dequeued(self, compressed: u64) -> Self {
        let active_events = counter_add(self.active_events, 1);
        let active_bytes = counter_add(self.active_compressed_bytes, compressed);
        HistorySyncAllocationSnapshot {
            queued_events: counter_sub(self.queued_events, 1),
            queued_compressed_bytes: counter_sub(self.queued_compressed_bytes, compressed),
            active_events,
            active_compressed_bytes: active_bytes,
            peak_active_events: larger(self.peak_active_events, active_events),
            peak_active_compressed_bytes: larger(self.peak_active_compressed_bytes, active_bytes),
            ..self
        }
    }

    /// One event was delivered.
    pub open spec fn completed(self, compressed: u64) -> Self {
        HistorySyncAllocationSnapshot {
            active_events: counter_sub(self.active_events, 1),
            active_compressed_bytes: counter_sub(self.active_compressed_bytes, compressed),
            retained_events: counter_sub(self.retained_events, 1),
            retained_compressed_bytes: counter_sub(self.retained_compressed_bytes, compressed),
            ..self
        }
    }

    /// One event left the queue without being delivered.
    pub open spec fn cancelled(self, compressed: u64) -> Self {
        HistorySyncAllocationSnapshot {
            queued_events: counter_sub(self.queued_events, 1),
            queued_compressed_bytes: counter_sub(self.queued_compressed_bytes, compressed),
            retained_events: counter_sub(self.retained_events, 1),
            retained_compressed_bytes: counter_sub(self.retained_compressed_bytes, compressed),
            ..self
        }
    }

    /// The peaks start again at what is held now.
    pub open spec fn repeaked(self) -> Self {
        HistorySyncAllocationSnapshot {
            peak_queued_events: self.queued_events,
            peak_queued_compressed_bytes: self.queued_compressed_bytes,
            peak_active_events: self.active_events,
            peak_active_compressed_bytes: self.active_compressed_bytes,
            peak_retained_events: self.retained_events,
            peak_retained_compressed_bytes: self.retained_compressed_bytes,
            ..self
        }
    }
}

/// Every move of an event between queue, delivery and host keeps retention
/// balanced, whatever its size and in whatever order the moves come.
pub proof fn history_moves_stay_balanced(h: HistorySyncAllocationSnapshot, compressed: u64)
    requires
        h.balanced(),
    ensures
        h.enqueued(compressed).balanced(),
        h.dequeued(compressed).balanced(),
        h.completed(compressed).balanced(),
        h.cancelled(compressed).balanced(),
        h.repeaked().balanced(),
{
}

/// Peaks cover the current values as long as no event leaves that never came.
pub proof fn history_peaks_cover(h: HistorySyncAllocationSnapshot, compressed: u64)
    requires
        h.peaks_cover(),
    ensures
        h.enqueued(compressed).peaks_cover(),
        h.repeaked().peaks_cover(),
        h.queued_events > 0 && h.queued_compressed_bytes >= compressed ==> h.dequeued(
            compressed,
        ).peaks_cover(),
        h.active_events > 0 && h.active_compressed_bytes >= compressed && h.retained_events > 0
            && h.retained_compressed_bytes >= compressed ==> h.completed(compressed).peaks_cover(),
        h.queued_events > 0 && h.queued_compressed_bytes >= compressed && h.retained_events > 0
            && h.retained_compressed_bytes >= compressed ==> h.cancelled(compressed).peaks_cover(),
{
}

/// An event that is queued, delivered and completed leaves nothing behind but
/// the peaks; so does one that is queued and cancelled.
pub proof fn history_events_leave_nothing(h: HistorySyncAllocationSnapshot, compressed: u64)
    ensures
        ({
            let after = h.enqueued(compressed).dequeued(compressed).completed(compressed);
            &&& after.queued_events == h.queued_events
            &&& after.queued_compressed_bytes == h.queued_compressed_bytes
            &&& after.active_events == h.active_events
            &&& after.active_compressed_bytes == h.active_compressed_bytes
            &&& after.retained_events == h.retained_events
            &&& after.retained_compressed_bytes == h.retained_compressed_bytes
        }),
        ({
            let after = h.enqueued(compressed).cancelled(compressed);
            &&& after.queued_events == h.queued_events
            &&& after.queued_compressed_bytes == h.queued_compressed_bytes
            &&& after.retained_events == h.retained_events
            &&& after.retained_compressed_bytes == h.retained_compressed_bytes
        }),
{
}

/// A span that is entered: its id, and its callsite.
#[derive(Debug, Clone, Copy, PartialEq, Eq, Structural)]
pub struct ActiveSpan {
    /// The span's id.
    pub raw_id: u64,
    /// The callsite it came from.
    pub slot: usize,
}

/// Totals of one callsite that allocated something.
#[derive(Debug, Clone, Copy, PartialEq, Eq, Structural)]
pub struct SpanTotals {
    /// The callsite.
    pub slot: usize,
    /// What it allocated.
    pub totals: AllocationBucketSnapshot,
}

/// Heap counters over the whole module.
#[derive(Debug, Clone, Copy, PartialEq, Eq, Structural)]
pub struct HeapCounters {
    /// Requested bytes currently alive.
    pub live_bytes: u64,
    /// The most that were alive since profiling began.
    pub peak_live_bytes: u64,
    /// Bytes requested.
    pub allocated_bytes: u64,
    /// Bytes released.
    pub freed_bytes: u64,
    /// Allocations.
    pub allocations: u64,
    /// Deallocations.
    pub deallocations: u64,
    /// Reallocations.
    pub reallocations: u64,
    /// The largest request since profiling began.
    pub largest_allocation_bytes: u64,
    /// Committed bytes as last seen.
    pub observed_linear_bytes: u64,
}

impl HeapCounters {
    /// Nothing counted.
    pub open spec fn zero() -> HeapCounters {
        HeapCounters {
            live_bytes: 0,
            peak_live_bytes: 0,
            allocated_bytes: 0,
            freed_bytes: 0,
            allocations: 0,
            deallocations: 0,
            reallocations: 0,
            largest_allocation_bytes: 0,
            observed_linear_bytes: 0,
        }
    }

    /// One allocation more.
    pub open spec fn allocated(self, size: u64) -> HeapCounters {
        let live_bytes = counter_add(self.live_bytes, size);
        HeapCounters {
            live_bytes,
            peak_live_bytes: larger(self.peak_live_bytes, live_bytes),
            largest_allocation_bytes: larger(self.largest_allocation_bytes, size),
            allocated_bytes: counter_add(self.allocated_bytes, size),
            allocations: counter_add(self.allocations, 1),
            ..self
        }
    }

    /// One deallocation more.
    pub open spec fn freed(self, size: u64) -> HeapCounters {
        HeapCounters {
            live_bytes: counter_sub(self.live_bytes, size),
            freed_bytes: counter_add(self.freed_bytes, size),
            deallocations: counter_add(self.deallocations, 1),
            ..self
        }
    }
}

/// What is live is what was allocated and not freed, whatever was allocated
/// and freed in between.
pub proof fn live_is_allocated_less_freed(h: HeapCounters, size: u64)
    requires
        h.live_bytes == counter_sub(h.allocated_bytes, h.freed_bytes),
    ensures
        h.allocated(size).live_bytes == counter_sub(
            h.allocated(size).allocated_bytes,
            h.allocated(size).freed_bytes,
        ),
        h.freed(size).live_bytes == counter_sub(
            h.freed(size).allocated_bytes,
            h.freed(size).freed_bytes,
        ),
{
}

/// The profiler's state.
#[derive(Debug)]
pub struct Profiler {
    heap: HeapCounters,
    buckets: Vec<AllocationBucketSnapshot>,
    spans: Vec<AllocationBucketSnapshot>,
    grow_events: EventRing,
    large_events: EventRing,
    history: HistorySyncAllocationSnapshot,
    callsites: Vec<u64>,
    dropped_callsites: u64,
    next_span_instance: u64,
    active: Vec<ActiveSpan>,
    scope: AllocationScope,
    core_task_depth: u32,
    core_task_previous: AllocationScope,
}

/// The values that a [`Profiler`] holds.
#[verifier::ext_equal]
pub struct ProfilerView {
    /// Heap counters.
    pub heap: HeapCounters,
    /// Totals per scope.
    pub buckets: Seq<AllocationBucketSnapshot>,
    /// Totals per callsite.
    pub spans: Seq<AllocationBucketSnapshot>,
    /// Allocations that committed pages.
    pub grow_events: EventRingView,
    /// Large allocations.
    pub large_events: EventRingView,
    /// History-sync ownership.
    pub history: HistorySyncAllocationSnapshot,
    /// Callsites known, by their identity.
    pub callsites: Seq<u64>,
    /// Registrations refused for want of room.
    pub dropped_callsites: u64,
    /// The number of the next span.
    pub next_span_instance: u64,
    /// Spans entered, innermost last.
    pub active: Seq<ActiveSpan>,
    /// The scope allocations go to.
    pub scope: AllocationScope,
    /// How many core tasks are on the stack.
    pub core_task_depth: u32,
    /// The scope outside the outermost of them.
    pub core_task_previous: AllocationScope,
}

impl View for Profiler {
    type V = ProfilerView;

    closed spec fn view(&self) -> ProfilerView {
        ProfilerView {
            heap: self.heap,
            buckets: self.buckets@,
            spans: self.spans@,
            grow_events: self.grow_events@,
            large_events: self.large_events@,
            history: self.history,
            callsites: self.callsites@,
            dropped_callsites: self.dropped_callsites,
            next_span_instance: self.next_span_instance,
            active: self.active@,
            scope: self.scope,
            core_task_depth: self.core_task_depth,
            core_task_previous: self.core_task_previous,
        }
    }
}

/// The first place of an item.
pub open spec fn first_index(s: Seq<u64>, v: u64) -> Option<int>
    decreases s.len(),
{
    if s.len() == 0 {
        None
    } else {
        match first_index(s.drop_last(), v) {
            Some(i) => Some(i),
            None => if s.last() == v {
                Some(s.len() - 1)
            } else {
                None
            },
        }
    }
}

/// The innermost place of a span.
pub open spec fn last_entry(s: Seq<ActiveSpan>, raw_id: u64) -> Option<int>
    decreases s.len(),
{
    if s.len() == 0 {
        None
    } else if s.last().raw_id == raw_id {
        Some(s.len() - 1)
    } else {
        last_entry(s.drop_last(), raw_id)
    }
}

/// The id of a span: its number, with its callsite in the low bits. A span
/// without a callsite carries 0 there, and no id is 0.
pub open spec fn span_id(instance: u64, slot: Option<int>) -> u64 {
    let code: u64 = match slot {
        Some(slot) => (slot + 1) as u64,
        None => 0,
    };
    let raw = (instance << 9u64) | code;
    if raw == 0 {
        1
    } else {
        raw
    }
}

/// The callsite that a span id names.
pub open spec fn span_slot(raw_id: u64) -> Option<int> {
    if raw_id & SPAN_SLOT_MASK == 0 {
        None
    } else {
        Some((raw_id & SPAN_SLOT_MASK) - 1)
    }
}

/// A span id names the callsite it was made for.
pub proof fn span_id_names_its_callsite(instance: u64, slot: int)
    requires
        0 <= slot < MAX_PROFILED_SPAN_CALLSITES,
    ensures
        span_slot(span_id(instance, Some(slot))) == Some(slot),
{
    let code = (slot + 1) as u64;
    assert(((instance << 9u64) | code) & 0x1ffu64 == code) by (bit_vector)
        requires
            code <= 256u64,
    ;
    assert((instance << 9u64) | code != 0) by (bit_vector)
        requires
            0u64 < code,
    ;
}

impl ProfilerView {
    /// A fresh profiler.
    pub open spec fn fresh() -> ProfilerView {
        ProfilerView {
            heap: HeapCounters::zero(),
            buckets: Seq::new(BUCKET_COUNT as nat, |i: int| AllocationBucketSnapshot::zero()),
            spans: Seq::new(
                MAX_PROFILED_SPAN_CALLSITES as nat,
                |i: int| AllocationBucketSnapshot::zero(),
            ),
            grow_events: EventRingView::empty(),
            large_events: EventRingView::empty(),
            history: HistorySyncAllocationSnapshot::zero(),
            callsites: Seq::empty(),
            dropped_callsites: 0,
            next_span_instance: 1,
            active: Seq::empty(),
            scope: AllocationScope::Other,
            core_task_depth: 0,
            core_task_previous: AllocationScope::Other,
        }
    }

    /// The callsite that allocations are charged to: the innermost span's,
    /// except for the profiler's own.
    pub open spec fn charged_slot(self) -> Option<usize> {
        if self.scope == AllocationScope::Diagnostics || self.active.len() == 0 {
            None
        } else {
            Some(self.active.last().slot)
        }
    }

    /// The state after an allocation of `size` bytes, with `linear` bytes
    /// committed behind it. The scope and the callsite are charged; pages that
    /// were committed are an event of their own, and so is a large request.
    pub open spec fn allocated(self, size: u64, linear: u64) -> ProfilerView {
        let slot = self.charged_slot();
        let bucket = self.scope.index();
        let heap = self.heap.allocated(size);
        let growth: u64 = if linear > heap.observed_linear_bytes {
            (linear - heap.observed_linear_bytes) as u64
        } else {
            0
        };
        let event = AllocationEvent {
            sequence: 0,
            allocation_index: heap.allocations,
            scope: self.scope,
            span_slot: slot,
            allocation_bytes: size,
            linear_growth_bytes: growth,
            linear_bytes_after: linear,
            heap_live_bytes_after: heap.live_bytes,
            history_events: self.history.events,
            history_conversations: self.history.conversations,
        };
        let charge = |b: AllocationBucketSnapshot|
            if growth > 0 {
                b.counted(size).grown(growth)
            } else {
                b.counted(size)
            };
        ProfilerView {
            heap: HeapCounters {
                observed_linear_bytes: larger(heap.observed_linear_bytes, linear),
                ..heap
            },
            buckets: self.buckets.update(bucket, charge(self.buckets[bucket])),
            spans: match slot {
                Some(slot) => self.spans.update(slot as int, charge(self.spans[slot as int])),
                None => self.spans,
            },
            grow_events: if growth > 0 {
                self.grow_events.recorded(event)
            } else {
                self.grow_events
            },
            large_events: if size >= LARGE_ALLOCATION_THRESHOLD_BYTES {
                self.large_events.recorded(event)
            } else {
                self.large_events
            },
            ..self
        }
    }

    /// Registering a callsite: one known keeps its slot, a new one takes the
    /// next while there is room.
    pub open spec fn registered(self, callsite: u64) -> (ProfilerView, Option<int>) {
        match first_index(self.callsites, callsite) {
            Some(slot) => (self, Some(slot)),
            None => if self.callsites.len() == MAX_PROFILED_SPAN_CALLSITES {
                (
                    ProfilerView {
                        dropped_callsites: counter_add(self.dropped_callsites, 1),
                        ..self
                    },
                    None,
                )
            } else {
                (
                    ProfilerView { callsites: self.callsites.push(callsite), ..self },
                    Some(self.callsites.len() as int),
                )
            },
        }
    }

    /// The state after a span was left: the innermost of that id goes.
    pub open spec fn exited(self, raw_id: u64) -> ProfilerView {
        match last_entry(self.active, raw_id) {
            Some(i) => ProfilerView { active: self.active.remove(i), ..self },
            None => self,
        }
    }

    /// The state after a core task was entered: the outermost one takes the
    /// scope.
    pub open spec fn core_entered(self) -> ProfilerView {
        let depth: u32 = if self.core_task_depth == u32::MAX {
            u32::MAX
        } else {
            (self.core_task_depth + 1) as u32
        };
        if self.core_task_depth == 0 {
            ProfilerView {
                core_task_depth: depth,
                core_task_previous: self.scope,
                scope: AllocationScope::CoreTask,
                ..self
            }
        } else {
            ProfilerView { core_task_depth: depth, ..self }
        }
    }

    /// The state after a core task was left: the outermost one gives the
    /// scope back.
    pub open spec fn core_exited(self) -> ProfilerView {
        if self.core_task_depth == 0 {
            self
        } else if self.core_task_depth == 1 {
            ProfilerView { core_task_depth: 0, scope: self.core_task_previous, ..self }
        } else {
            ProfilerView { core_task_depth: (self.core_task_depth - 1) as u32, ..self }
        }
    }

    /// A new measurement: peaks, largest values, callsite totals and events
    /// start again; running totals go on.
    pub open spec fn begun(self, linear: u64) -> ProfilerView {
        ProfilerView {
            heap: HeapCounters {
                peak_live_bytes: self.heap.live_bytes,
                largest_allocation_bytes: 0,
                observed_linear_bytes: linear,
                ..self.heap
            },
            buckets: self.buckets.map_values(
                |b: AllocationBucketSnapshot|
                    AllocationBucketSnapshot { largest_allocation_bytes: 0, ..b },
            ),
            spans: self.spans.map_values(
                |b: AllocationBucketSnapshot| AllocationBucketSnapshot::zero(),
            ),
            grow_events: EventRingView::empty(),
            large_events: EventRingView::empty(),
            history: self.history.repeaked(),
            ..self
        }
    }
}

/// The callsites that allocated something, with their totals, in order.
pub open spec fn span_totals(spans: Seq<AllocationBucketSnapshot>, n: int) -> Seq<SpanTotals>
    decreases n,
{
    if n <= 0 {
        Seq::empty()
    } else {
        let before = span_totals(spans, n - 1);
        let totals = spans[n - 1];
        if totals.allocated_bytes == 0 && totals.allocations == 0 && totals.linear_growth_bytes
            == 0 {
            before
        } else {
            before.push(SpanTotals { slot: (n - 1) as usize, totals })
        }
    }
}

impl Profiler {
    /// Buckets and callsite totals have their places, the rings are sound, and
    /// every entered span names a callsite place.
    pub closed spec fn wf(&self) -> bool {
        &&& self.buckets@.len() == BUCKET_COUNT
        &&& self.spans@.len() == MAX_PROFILED_SPAN_CALLSITES
        &&& self.grow_events.wf()
        &&& self.large_events.wf()
        &&& self.callsites@.len() <= MAX_PROFILED_SPAN_CALLSITES
        &&& forall|i: int|
            0 <= i < self.active@.len() ==> (#[trigger] self.active@[i]).slot
                < MAX_PROFILED_SPAN_CALLSITES
    }

    /// A fresh profiler.
    pub fn new() -> (p: Self)
        ensures
            p.wf(),
            p@ == ProfilerView::fresh(),
    {
        let buckets = vec![AllocationBucketSnapshot::empty(); BUCKET_COUNT];
        let spans = vec![AllocationBucketSnapshot::empty(); MAX_PROFILED_SPAN_CALLSITES];
        let p = Profiler {
            heap: HeapCounters {
                live_bytes: 0,
                peak_live_bytes: 0,
                allocated_bytes: 0,
                freed_bytes: 0,
                allocations: 0,
                deallocations: 0,
                reallocations: 0,
                largest_allocation_bytes: 0,
                observed_linear_bytes: 0,
            },
            buckets,
            spans,
            grow_events: EventRing::new(),
            large_events: EventRing::new(),
            history: HistorySyncAllocationSnapshot {
                events: 0,
                compressed_bytes: 0,
                decompressed_bytes: 0,
                conversations: 0,
                batches: 0,
                skipped_conversations: 0,
                largest_compressed_bytes: 0,
                largest_decompressed_bytes: 0,
                queued_events: 0,
                queued_compressed_bytes: 0,
                peak_queued_events: 0,
                peak_queued_compressed_bytes: 0,
                active_events: 0,
                active_compressed_bytes: 0,
                peak_active_events: 0,
                peak_active_compressed_bytes: 0,
                retained_events: 0,
                retained_compressed_bytes: 0,
                peak_retained_events: 0,
                peak_retained_compressed_bytes: 0,
            },
            callsites: Vec::new(),
            dropped_callsites: 0,
            next_span_instance: 1,
            active: Vec::new(),
            scope: AllocationScope::Other,
            core_task_depth: 0,
            core_task_previous: AllocationScope::Other,
        };
        assert(p@.buckets =~= ProfilerView::fresh().buckets);
        assert(p@.spans =~= ProfilerView::fresh().spans);
        assert(p@.callsites =~= Seq::empty());
        assert(p@.active =~= Seq::empty());
        p
    }

    fn charge(&mut self, slot: Option<usize>, size: u64, growth: u64)
        requires
            old(self).wf(),
            slot matches Some(s) ==> s < MAX_PROFILED_SPAN_CALLSITES,
        ensures
            final(self).wf(),
            ({
                let charge = |b: AllocationBucketSnapshot|
                    if growth > 0 {
                        b.counted(size).grown(growth)
                    } else {
                        b.counted(size)
                    };
                let bucket = old(self)@.scope.index();
                final(self)@ == (ProfilerView {
                    buckets: old(self)@.buckets.update(bucket, charge(old(self)@.buckets[bucket])),
                    spans: match slot {
                        Some(slot) => old(self)@.spans.update(
                            slot as int,
                            charge(old(self)@.spans[slot as int]),
                        ),
                        None => old(self)@.spans,
                    },
                    ..old(self)@
                })
            }),
    {
        let bucket: usize = self.scope.bucket();
        let mut totals = self.buckets[bucket].count(size);
        if growth > 0 {
            totals = totals.grow(growth);
        }
        self.buckets.set(bucket, totals);
        match slot {
            Some(slot) => {
                let mut totals = self.spans[slot].count(size);
                if growth > 0 {
                    totals = totals.grow(growth);
                }
                self.spans.set(slot, totals);
            },
            None => {},
        }
    }

    /// Records an allocation of `size` bytes; `linear` bytes are committed
    /// once it was made, so that pages committed for it are charged to it.
    pub fn record_alloc(&mut self, size: u64, linear: u64)
        requires
            old(self).wf(),
            old(self)@.grow_events.total < u64::MAX,
            old(self)@.large_events.total < u64::MAX,
        ensures
            final(self).wf(),
            final(self)@ == old(self)@.allocated(size, linear),
    {
        let live: u64 = plus(self.heap.live_bytes, size);
        let previous: u64 = self.heap.observed_linear_bytes;
        let growth: u64 = if linear > previous {
            linear - previous
        } else {
            0
        };
        self.heap = HeapCounters {
            live_bytes: live,
            peak_live_bytes: max_of(self.heap.peak_live_bytes, live),
            largest_allocation_bytes: max_of(self.heap.largest_allocation_bytes, size),
            allocated_bytes: plus(self.heap.allocated_bytes, size),
            allocations: plus(self.heap.allocations, 1),
            observed_linear_bytes: max_of(previous, linear),
            ..self.heap
        };
        let span_slot: Option<usize> = if self.scope == AllocationScope::Diagnostics {
            None
        } else if self.active.len() == 0 {
            None
        } else {
            Some(self.active[self.active.len() - 1].slot)
        };
        self.charge(span_slot, size, growth);
        let event = AllocationEvent {
            sequence: 0,
            allocation_index: self.heap.allocations,
            scope: self.scope,
            span_slot,
            allocation_bytes: size,
            linear_growth_bytes: growth,
            linear_bytes_after: linear,
            heap_live_bytes_after: live,
            history_events: self.history.events,
            history_conversations: self.history.conversations,
        };
        if growth > 0 {
            self.grow_events.record(event);
        }
        if size >= LARGE_ALLOCATION_THRESHOLD_BYTES {
            self.large_events.record(event);
        }
    }

    /// Records a deallocation of `size` bytes.
    pub fn record_dealloc(&mut self, size: u64)
        requires
            old(self).wf(),
        ensures
            final(self).wf(),
            final(self)@ == (ProfilerView { heap: old(self)@.heap.freed(size), ..old(self)@ }),
    {
        self.heap = HeapCounters {
            live_bytes: minus(self.heap.live_bytes, size),
            freed_bytes: plus(self.heap.freed_bytes, size),
            deallocations: plus(self.heap.deallocations, 1),
            ..self.heap
        };
    }

    /// Records a reallocation: the old block is freed, the new one allocated.
    pub fn record_realloc(&mut self, old_size: u64, new_size: u64, linear: u64)
        requires
            old(self).wf(),
            old(self)@.grow_events.total < u64::MAX,
            old(self)@.large_events.total < u64::MAX,
        ensures
            final(self).wf(),
            ({
                let after = ProfilerView {
                    heap: old(self)@.heap.freed(old_size),
                    ..old(self)@
                }.allocated(new_size, linear);
                final(self)@ == (ProfilerView {
                    heap: HeapCounters {
                        reallocations: counter_add(after.heap.reallocations, 1),
                        ..after.heap
                    },
                    ..after
                })
            }),
    {
        self.record_dealloc(old_size);
        self.record_alloc(new_size, linear);
        self.heap.reallocations = plus(self.heap.reallocations, 1);
    }

    /// The slot of a callsite, which takes the next one when it is new. None
    /// is left once all are taken.
    pub fn register_callsite(&mut self, callsite: u64) -> (slot: Option<usize>)
        requires
            old(self).wf(),
        ensures
            final(self).wf(),
            final(self)@ == old(self)@.registered(callsite).0,
            match slot {
                Some(s) => old(self)@.registered(callsite).1 == Some(s as int) && s
                    < MAX_PROFILED_SPAN_CALLSITES,
                None => old(self)@.registered(callsite).1 is None,
            },
    {
        let mut i: usize = 0;
        assert(self.callsites@.take(0) =~= Seq::empty());
        while i < self.callsites.len()
            invariant
                self.wf(),
                *self == *old(self),
                i <= self.callsites@.len(),
                first_index(self.callsites@.take(i as int), callsite) is None,
            decreases self.callsites.len() - i,
        {
            let ghost upto = self.callsites@.take(i + 1);
            assert(upto.drop_last() =~= self.callsites@.take(i as int));
            if self.callsites[i] == callsite {
                proof {
                    assert(first_index(upto, callsite) == Some(i as int));
                    first_index_stays(self.callsites@, callsite, i + 1);
                }
                return Some(i);
            }
            i += 1;
        }
        assert(self.callsites@.take(i as int) =~= self.callsites@);
        if self.callsites.len() == MAX_PROFILED_SPAN_CALLSITES {
            self.dropped_callsites = plus(self.dropped_callsites, 1);
            return None;
        }
        let slot: usize = self.callsites.len();
        self.callsites.push(callsite);
        Some(slot)
    }

    /// The id of a new span from a callsite.
    pub fn new_span(&mut self, callsite: u64) -> (raw_id: u64)
        requires
            old(self).wf(),
        ensures
            final(self).wf(),
            ({
                let (after, slot) = old(self)@.registered(callsite);
                &&& final(self)@ == (ProfilerView {
                    next_span_instance: counter_add(after.next_span_instance, 1),
                    ..after
                })
                &&& raw_id == span_id(after.next_span_instance, slot)
            }),
    {
        let code: u64 = match self.register_callsite(callsite) {
            Some(slot) => slot as u64 + 1,
            None => 0,
        };
        let instance: u64 = self.next_span_instance;
        self.next_span_instance = plus(instance, 1);
        let raw: u64 = (instance << 9u64) | code;
        if raw == 0 {
            1
        } else {
            raw
        }
    }

    /// Enters a span. One without a callsite is not tracked.
    pub fn enter(&mut self, raw_id: u64)
        requires
            old(self).wf(),
            (raw_id & SPAN_SLOT_MASK) <= MAX_PROFILED_SPAN_CALLSITES,
        ensures
            final(self).wf(),
            final(self)@ == (match span_slot(raw_id) {
                None => old(self)@,
                Some(slot) => ProfilerView {
                    active: old(self)@.active.push(ActiveSpan { raw_id, slot: slot as usize }),
                    ..old(self)@
                },
            }),
    {
        let code: u64 = raw_id & SPAN_SLOT_MASK;
        if code == 0 {
            return;
        }
        self.active.push(ActiveSpan { raw_id, slot: (code - 1) as usize });
    }

    /// Leaves a span: the innermost entry of that id goes, wherever it is.
    pub fn exit(&mut self, raw_id: u64)
        requires
            old(self).wf(),
        ensures
            final(self).wf(),
            final(self)@ == old(self)@.exited(raw_id),
    {
        let mut i: usize = self.active.len();
        assert(self.active@.take(i as int) =~= self.active@);
        while i > 0
            invariant
                self.wf(),
                *self == *old(self),
                i <= self.active@.len(),
                last_entry(self.active@, raw_id) == last_entry(
                    self.active@.take(i as int),
                    raw_id,
                ),
            decreases i,
        {
            assert(self.active@.take(i as int).drop_last() =~= self.active@.take(i - 1));
            if self.active[i - 1].raw_id == raw_id {
                self.active.remove(i - 1);
                assert(self.active@ =~= old(self)@.active.remove(i - 1));
                return;
            }
            i -= 1;
        }
    }

    /// The innermost span: its id, and its callsite.
    pub fn current_span(&self) -> (span: Option<ActiveSpan>)
        ensures
            span == if self@.active.len() == 0 {
                None
            } else {
                Some(self@.active.last())
            },
    {
        if self.active.len() == 0 {
            None
        } else {
            Some(self.active[self.active.len() - 1])
        }
    }

    /// Enters a scope, and says which one it replaces.
    pub fn enter_scope(&mut self, scope: AllocationScope) -> (previous: AllocationScope)
        requires
            old(self).wf(),
        ensures
            final(self).wf(),
            previous == old(self)@.scope,
            final(self)@ == (ProfilerView { scope, ..old(self)@ }),
    {
        let previous = self.scope;
        self.scope = scope;
        previous
    }

    /// Enters a core task.
    pub fn enter_core_task(&mut self)
        requires
            old(self).wf(),
        ensures
            final(self).wf(),
            final(self)@ == old(self)@.core_entered(),
    {
        if self.core_task_depth == 0 {
            self.core_task_previous = self.scope;
            self.scope = AllocationScope::CoreTask;
        }
        if self.core_task_depth < 0xffff_ffff {
            self.core_task_depth = self.core_task_depth + 1;
        }
    }

    /// Leaves a core task.
    pub fn exit_core_task(&mut self)
        requires
            old(self).wf(),
        ensures
            final(self).wf(),
            final(self)@ == old(self)@.core_exited(),
    {
        if self.core_task_depth == 0 {
            return;
        }
        self.core_task_depth = self.core_task_depth - 1;
        if self.core_task_depth == 0 {
            self.scope = self.core_task_previous;
        }
    }

    /// Records one decoded history event.
    pub fn record_history_sync(&mut self, compressed: u64, decompressed: u64)
        requires
            old(self).wf(),
        ensures
            final(self).wf(),
            final(self)@ == (ProfilerView {
                history: old(self)@.history.synced(compressed, decompressed),
                ..old(self)@
            }),
    {
        self.history = HistorySyncAllocationSnapshot {
            events: plus(self.history.events, 1),
            compressed_bytes: plus(self.history.compressed_bytes, compressed),
            decompressed_bytes: plus(self.history.decompressed_bytes, decompressed),
            largest_compressed_bytes: max_of(self.history.largest_compressed_bytes, compressed),
            largest_decompressed_bytes: max_of(
                self.history.largest_decompressed_bytes,
                decompressed,
            ),
            ..self.history
        };
    }

    /// Records one delivered conversation.
    pub fn record_history_conversation(&mut self)
        requires
            old(self).wf(),
        ensures
            final(self).wf(),
            final(self)@ == (ProfilerView {
                history: HistorySyncAllocationSnapshot {
                    conversations: counter_add(old(self)@.history.conversations, 1),
                    ..old(self)@.history
                },
                ..old(self)@
            }),
    {
        self.history.conversations = plus(self.history.conversations, 1);
    }

    /// Records one delivered batch.
    pub fn record_history_batch(&mut self)
        requires
            old(self).wf(),
        ensures
            final(self).wf(),
            final(self)@ == (ProfilerView {
                history: HistorySyncAllocationSnapshot {
                    batches: counter_add(old(self)@.history.batches, 1),
                    ..old(self)@.history
                },
                ..old(self)@
            }),
    {
        self.history.batches = plus(self.history.batches, 1);
    }

    /// Records skipped conversations.
    pub fn record_history_skipped(&mut self, count: u64)
        requires
            old(self).wf(),
        ensures
            final(self).wf(),
            final(self)@ == (ProfilerView {
                history: HistorySyncAllocationSnapshot {
                    skipped_conversations: counter_add(
                        old(self)@.history.skipped_conversations,
                        count,
                    ),
                    ..old(self)@.history
                },
                ..old(self)@
            }),
    {
        self.history.skipped_conversations = plus(self.history.skipped_conversations, count);
    }

    /// Records an event that joined the queue.
    pub fn record_history_event_enqueued(&mut self, compressed: u64)
        requires
            old(self).wf(),
        ensures
            final(self).wf(),
            final(self)@ == (ProfilerView {
                history: old(self)@.history.enqueued(compressed),
                ..old(self)@
            }),
    {
        let h = self.history;
        let queued_events: u64 = plus(h.queued_events, 1);
        let queued_bytes: u64 = plus(h.queued_compressed_bytes, compressed);
        let retained_events: u64 = plus(h.retained_events, 1);
        let retained_bytes: u64 = plus(h.retained_compressed_bytes, compressed);
        self.history = HistorySyncAllocationSnapshot {
            queued_events,
            queued_compressed_bytes: queued_bytes,
            retained_events,
            retained_compressed_bytes: retained_bytes,
            peak_queued_events: max_of(h.peak_queued_events, queued_events),
            peak_queued_compressed_bytes: max_of(h.peak_queued_compressed_bytes, queued_bytes),
            peak_retained_events: max_of(h.peak_retained_events, retained_events),
            peak_retained_compressed_bytes: max_of(
                h.peak_retained_compressed_bytes,
                retained_bytes,
            ),
            ..h
        };
    }

    /// Records an event that moved from the queue to the delivery.
    pub fn record_history_event_dequeued(&mut self, compressed: u64)
        requires
            old(self).wf(),
        ensures
            final(self).wf(),
            final(self)@ == (ProfilerView {
                history: old(self)@.history.dequeued(compressed),
                ..old(self)@
            }),
    {
        let h = self.history;
        let active_events: u64 = plus(h.active_events, 1);
        let active_bytes: u64 = plus(h.active_compressed_bytes, compressed);
        self.history = HistorySyncAllocationSnapshot {
            queued_events: minus(h.queued_events, 1),
            queued_compressed_bytes: minus(h.queued_compressed_bytes, compressed),
            active_events,
            active_compressed_bytes: active_bytes,
            peak_active_events: max_of(h.peak_active_events, active_events),
            peak_active_compressed_bytes: max_of(h.peak_active_compressed_bytes, active_bytes),
            ..h
        };
    }

    /// Records an event that was delivered.
    pub fn record_history_event_completed(&mut self, compressed: u64)
        requires
            old(self).wf(),
        ensures
            final(self).wf(),
            final(self)@ == (ProfilerView {
                history: old(self)@.history.completed(compressed),
                ..old(self)@
            }),
    {
        let h = self.history;
        self.history = HistorySyncAllocationSnapshot {
            active_events: minus(h.active_events, 1),
            active_compressed_bytes: minus(h.active_compressed_bytes, compressed),
            retained_events: minus(h.retained_events, 1),
            retained_compressed_bytes: minus(h.retained_compressed_bytes, compressed),
            ..h
        };
    }

    /// Records an event that left the queue undelivered.
    pub fn record_history_event_cancelled(&mut self, compressed: u64)
        requires
            old(self).wf(),
        ensures
            final(self).wf(),
            final(self)@ == (ProfilerView {
                history: old(self)@.history.cancelled(compressed),
                ..old(self)@
            }),
    {
        let h = self.history;
        self.history = HistorySyncAllocationSnapshot {
            queued_events: minus(h.queued_events, 1),
            queued_compressed_bytes: minus(h.queued_compressed_bytes, compressed),
            retained_events: minus(h.retained_events, 1),
            retained_compressed_bytes: minus(h.retained_compressed_bytes, compressed),
            ..h
        };
    }

    /// Begins a new measurement with `linear` bytes committed.
    pub fn begin_profile(&mut self, linear: u64)
        requires
            old(self).wf(),
        ensures
            final(self).wf(),
            final(self)@ == old(self)@.begun(linear),
    {
        self.heap.peak_live_bytes = self.heap.live_bytes;
        self.heap.largest_allocation_bytes = 0;
        self.heap.observed_linear_bytes = linear;
        let mut i: usize = 0;
        while i < BUCKET_COUNT
            invariant
                i <= BUCKET_COUNT,
                self.buckets@.len() == BUCKET_COUNT,
                old(self)@.buckets.len() == BUCKET_COUNT,
                self@ == (ProfilerView {
                    heap: self@.heap,
                    buckets: self@.buckets,
                    ..old(self)@
                }),
                self.heap == old(self)@.begun(linear).heap,
                self.spans == old(self).spans,
                self.grow_events == old(self).grow_events,
                self.large_events == old(self).large_events,
                self.callsites == old(self).callsites,
                self.active == old(self).active,
                old(self).wf(),
                forall|j: int|
                    0 <= j < i ==> self.buckets@[j] == (AllocationBucketSnapshot {
                        largest_allocation_bytes: 0,
                        ..old(self)@.buckets[j]
                    }),
                forall|j: int| i <= j < BUCKET_COUNT ==> self.buckets@[j] == old(self)@.buckets[j],
            decreases BUCKET_COUNT - i,
        {
            let mut b = self.buckets[i];
            b.largest_allocation_bytes = 0;
            self.buckets.set(i, b);
            i += 1;
        }
        self.spans = vec![AllocationBucketSnapshot::empty(); MAX_PROFILED_SPAN_CALLSITES];
        self.grow_events.reset();
        self.large_events.reset();
        let h = self.history;
        self.history = HistorySyncAllocationSnapshot {
            peak_queued_events: h.queued_events,
            peak_queued_compressed_bytes: h.queued_compressed_bytes,
            peak_active_events: h.active_events,
            peak_active_compressed_bytes: h.active_compressed_bytes,
            peak_retained_events: h.retained_events,
            peak_retained_compressed_bytes: h.retained_compressed_bytes,
            ..h
        };
        assert(self@.buckets =~= old(self)@.begun(linear).buckets);
        assert(self@.spans =~= old(self)@.begun(linear).spans);
    }

    /// Heap counters, for a snapshot.
    pub fn heap(&self) -> (h: HeapCounters)
        ensures
            h == self@.heap,
    {
        self.heap
    }

    /// History counters, for a snapshot.
    pub fn history(&self) -> (h: HistorySyncAllocationSnapshot)
        ensures
            h == self@.history,
    {
        self.history
    }

    /// A scope's totals, for a snapshot.
    pub fn bucket(&self, scope: AllocationScope) -> (b: AllocationBucketSnapshot)
        requires
            self.wf(),
        ensures
            b == self@.buckets[scope.index()],
    {
        self.buckets[scope.bucket()]
    }

    /// The callsites that allocated something, for a snapshot.
    pub fn core_span_snapshots(&self) -> (out: Vec<SpanTotals>)
        requires
            self.wf(),
        ensures
            out@ == span_totals(self@.spans, self@.callsites.len() as int),
    {
        let mut out: Vec<SpanTotals> = Vec::new();
        let mut i: usize = 0;
        while i < self.callsites.len()
            invariant
                self.wf(),
                i <= self.callsites@.len(),
                out@ == span_totals(self@.spans, i as int),
            decreases self.callsites.len() - i,
        {
            let totals = self.spans[i];
            if !(totals.allocated_bytes == 0 && totals.allocations == 0
                && totals.linear_growth_bytes == 0) {
                out.push(SpanTotals { slot: i, totals });
            }
            i += 1;
        }
        out
    }

    /// Allocations that committed pages, oldest first, for a snapshot.
    pub fn memory_grow_events(&self) -> (out: Vec<AllocationEvent>)
        requires
            self.wf(),
        ensures
            out@ == self@.grow_events.kept,
    {
        self.grow_events.snapshots()
    }

    /// Large allocations, oldest first, for a snapshot.
    pub fn large_allocation_events(&self) -> (out: Vec<AllocationEvent>)
        requires
            self.wf(),
        ensures
            out@ == self@.large_events.kept,
    {
        self.large_events.snapshots()
    }

    /// Refused registrations, and events no longer kept: page growth, then
    /// large allocations.
    pub fn dropped(&self) -> (n: (u64, u64, u64))
        requires
            self.wf(),
        ensures
            n.0 == self@.dropped_callsites,
            n.1 == self@.grow_events.dropped(),
            n.2 == self@.large_events.dropped(),
    {
        (self.dropped_callsites, self.grow_events.dropped(), self.large_events.dropped())
    }

    /// The profile as a host sees it, with the linear memory committed now.
    pub fn snapshot(&self, linear: u64) -> (s: WasmAllocationSnapshot)
        requires
            self.wf(),
        ensures
            s.shows(self@, linear),
    {
        let heap = self.heap();
        let (dropped_callsites, dropped_grows, dropped_large) = self.dropped();
        WasmAllocationSnapshot {
            enabled: true,
            linear_bytes: linear,
            heap_live_bytes: heap.live_bytes,
            heap_peak_live_bytes: heap.peak_live_bytes,
            allocated_bytes: heap.allocated_bytes,
            freed_bytes: heap.freed_bytes,
            allocations: heap.allocations,
            deallocations: heap.deallocations,
            reallocations: heap.reallocations,
            largest_allocation_bytes: heap.largest_allocation_bytes,
            other: self.bucket(AllocationScope::Other),
            core_task: self.bucket(AllocationScope::CoreTask),
            history_decode: self.bucket(AllocationScope::HistoryDecode),
            history_serialize: self.bucket(AllocationScope::HistorySerialize),
            history_envelope: self.bucket(AllocationScope::HistoryEnvelope),
            history_callback: self.bucket(AllocationScope::HistoryCallback),
            diagnostics: self.bucket(AllocationScope::Diagnostics),
            history_sync: self.history(),
            core_spans: self.core_span_snapshots(),
            memory_grow_events: self.memory_grow_events(),
            large_allocation_events: self.large_allocation_events(),
            large_allocation_threshold_bytes: LARGE_ALLOCATION_THRESHOLD_BYTES,
            dropped_core_span_callsites: dropped_callsites,
            dropped_memory_grow_events: dropped_grows,
            dropped_large_allocation_events: dropped_large,
        }
    }
}

/// What a host sees of a profile.
#[derive(Debug)]
pub struct WasmAllocationSnapshot {
    /// Whether allocations were counted at all.
    pub enabled: bool,
    /// Committed linear memory.
    pub linear_bytes: u64,
    /// Requested bytes currently alive.
    pub heap_live_bytes: u64,
    /// The most that were alive since profiling began.
    pub heap_peak_live_bytes: u64,
    /// Bytes requested.
    pub allocated_bytes: u64,
    /// Bytes released.
    pub freed_bytes: u64,
    /// Allocations.
    pub allocations: u64,
    /// Deallocations.
    pub deallocations: u64,
    /// Reallocations.
    pub reallocations: u64,
    /// The largest request since profiling began.
    pub largest_allocation_bytes: u64,
    /// Allocations outside every other scope.
    pub other: AllocationBucketSnapshot,
    /// Allocations of core tasks.
    pub core_task: AllocationBucketSnapshot,
    /// Allocations of history decoding.
    pub history_decode: AllocationBucketSnapshot,
    /// Allocations of history serialization.
    pub history_serialize: AllocationBucketSnapshot,
    /// Allocations of history envelopes.
    pub history_envelope: AllocationBucketSnapshot,
    /// Allocations of history callbacks.
    pub history_callback: AllocationBucketSnapshot,
    /// Allocations of the snapshots themselves.
    pub diagnostics: AllocationBucketSnapshot,
    /// History-sync ownership.
    pub history_sync: HistorySyncAllocationSnapshot,
    /// The callsites that allocated something.
    pub core_spans: Vec<SpanTotals>,
    /// Allocations that committed pages, oldest first.
    pub memory_grow_events: Vec<AllocationEvent>,
    /// Large allocations, oldest first.
    pub large_allocation_events: Vec<AllocationEvent>,
    /// From which size on an allocation is a large one.
    pub large_allocation_threshold_bytes: u64,
    /// Registrations refused for want of room.
    pub dropped_core_span_callsites: u64,
    /// Allocations that committed pages and are no longer kept.
    pub dropped_memory_grow_events: u64,
    /// Large allocations that are no longer kept.
    pub dropped_large_allocation_events: u64,
}

impl WasmAllocationSnapshot {
    /// Whether this shows a profile, and the linear memory beside it.
    pub open spec fn shows(&self, p: ProfilerView, linear: u64) -> bool {
        &&& self.enabled
        &&& self.linear_bytes == linear
        &&& self.heap_live_bytes == p.heap.live_bytes
        &&& self.heap_peak_live_bytes == p.heap.peak_live_bytes
        &&& self.allocated_bytes == p.heap.allocated_bytes
        &&& self.freed_bytes == p.heap.freed_bytes
        &&& self.allocations == p.heap.allocations
        &&& self.deallocations == p.heap.deallocations
        &&& self.reallocations == p.heap.reallocations
        &&& self.largest_allocation_bytes == p.heap.largest_allocation_bytes
        &&& self.other == p.buckets[AllocationScope::Other.index()]
        &&& self.core_task == p.buckets[AllocationScope::CoreTask.index()]
        &&& self.history_decode == p.buckets[AllocationScope::HistoryDecode.index()]
        &&& self.history_serialize == p.buckets[AllocationScope::HistorySerialize.index()]
        &&& self.history_envelope == p.buckets[AllocationScope::HistoryEnvelope.index()]
        &&& self.history_callback == p.buckets[AllocationScope::HistoryCallback.index()]
        &&& self.diagnostics == p.buckets[AllocationScope::Diagnostics.index()]
        &&& self.history_sync == p.history
        &&& self.core_spans@ == span_totals(p.spans, p.callsites.len() as int)
        &&& self.memory_grow_events@ == p.grow_events.kept
        &&& self.large_allocation_events@ == p.large_events.kept
        &&& self.large_allocation_threshold_bytes == LARGE_ALLOCATION_THRESHOLD_BYTES
        &&& self.dropped_core_span_callsites == p.dropped_callsites
        &&& self.dropped_memory_grow_events == p.grow_events.dropped()
        &&& self.dropped_large_allocation_events == p.large_events.dropped()
    }

    /// The snapshot of a module that counts no allocation: the linear memory,
    /// and nothing else.
    pub fn disabled(linear: u64) -> (s: Self)
        ensures
            !s.enabled,
            s.large_allocation_threshold_bytes == 0,
            (WasmAllocationSnapshot {
                enabled: true,
                large_allocation_threshold_bytes: LARGE_ALLOCATION_THRESHOLD_BYTES,
                ..s
            }).shows(ProfilerView::fresh(), linear),
    {
        let shown = Profiler::new().snapshot(linear);
        WasmAllocationSnapshot { enabled: false, large_allocation_threshold_bytes: 0, ..shown }
    }
}

/// What was found in a beginning is found in the whole.
proof fn first_index_stays(s: Seq<u64>, v: u64, n: int)
    requires
        0 <= n <= s.len(),
        first_index(s.take(n), v) is Some,
    ensures
        first_index(s, v) == first_index(s.take(n), v),
    decreases s.len() - n,
{
    if n < s.len() {
        assert(s.take(n + 1).drop_last() =~= s.take(n));
        first_index_stays(s, v, n + 1);
    } else {
        assert(s.take(n) =~= s);
    }
}

/// Leaving the span that was just entered undoes entering it.
pub proof fn exit_undoes_enter(p: ProfilerView, raw_id: u64, slot: usize)
    ensures
        (ProfilerView {
            active: p.active.push((ActiveSpan { raw_id, slot })),
            ..p
        }).exited(raw_id) == p,
{
    let active = p.active.push(ActiveSpan { raw_id, slot });
    assert(last_entry(active, raw_id) == Some(active.len() - 1));
    assert(active.remove(active.len() - 1) =~= p.active);
}

/// A core task that is entered and left gives the scope back, however deep it
/// is nested.
pub proof fn core_task_restores_the_scope(p: ProfilerView)
    requires
        p.core_task_depth < u32::MAX,
    ensures
        p.core_entered().core_exited().scope == p.scope,
        p.core_entered().core_exited().core_task_depth == p.core_task_depth,
        p.core_entered().scope == if p.core_task_depth == 0 {
            AllocationScope::CoreTask
        } else {
            p.scope
        },
{
}

/// Registering a callsite again gives the slot it has, and changes nothing.
pub proof fn registering_twice_gives_one_slot(p: ProfilerView, callsite: u64)
    requires
        p.registered(callsite).1 is Some,
    ensures
        p.registered(callsite).0.registered(callsite) == (
            p.registered(callsite).0,
            p.registered(callsite).1,
        ),
{
    if first_index(p.callsites, callsite) is None {
        let after = p.callsites.push(callsite);
        assert(after.drop_last() =~= p.callsites);
        assert(first_index(after, callsite) == Some(after.len() - 1));
    }
}

} // verus!
