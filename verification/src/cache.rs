//! The frame cache: a sliding window of frames, loaded at and ahead of the
//! current time slot, ordered from the newest slot at the front to the
//! oldest at the back.

use crate::clock::TOTAL_CYCLE_MS;
use std::collections::VecDeque;
use vstd::arithmetic::div_mod::{lemma_add_mod_noop, lemma_mod_twice, lemma_small_mod};
use vstd::prelude::*;

verus! {

/// Frames kept loaded at or ahead of the playhead.
pub const PRE_BUFFERED_IMAGES: usize = 10;

/// A frame and the time slot it belongs to.
#[derive(Debug)]
pub struct CacheEntry {
    /// The time slot of the frame.
    pub slot: u32,
    /// The frame's pixels.
    pub frame: Vec<u8>,
}

/// The slot that follows `slot` at a distance of `step_ms`, wrapping at the
/// end of the cycle.
pub open spec fn successor(slot: int, step_ms: int) -> int {
    (slot + step_ms) % (TOTAL_CYCLE_MS as int)
}

/// The distance between two slots of the cycle, the shorter way round.
pub open spec fn cyclic_distance(a: int, b: int) -> int {
    let apart = if a >= b {
        a - b
    } else {
        b - a
    };
    if apart <= TOTAL_CYCLE_MS - apart {
        apart
    } else {
        TOTAL_CYCLE_MS - apart
    }
}

/// A slot is stale for a target once it lies a step or more away from it.
pub open spec fn stale(slot: int, target: int, step_ms: int) -> bool {
    cyclic_distance(slot, target) >= step_ms
}

/// What is left of `entries` once stale entries have been taken from the
/// back, one at a time, until the back entry is not stale.
pub open spec fn evicted(entries: Seq<CacheEntry>, target: int, step_ms: int) -> Seq<CacheEntry>
    decreases entries.len(),
{
    if entries.len() > 0 && stale(entries.last().slot as int, target, step_ms) {
        evicted(entries.drop_last(), target, step_ms)
    } else {
        entries
    }
}

/// Every slot lies inside the cycle, and each entry's slot is the successor
/// of the slot of the entry behind it.
pub open spec fn chained(entries: Seq<CacheEntry>, step_ms: int) -> bool {
    &&& forall|i: int| 0 <= i < entries.len() ==> (#[trigger] entries[i]).slot < TOTAL_CYCLE_MS
    &&& forall|i: int|
        0 <= i < entries.len() - 1 ==> (#[trigger] entries[i]).slot == successor(
            entries[i + 1].slot as int,
            step_ms,
        )
}

/// The slot whose frame has to be loaded next to fill a window of
/// `capacity` entries: none when the window is full, the target itself
/// when the window is empty, else the successor of the front slot.
pub open spec fn wanted(entries: Seq<CacheEntry>, capacity: int, target: int, step_ms: int)
    -> Option<int> {
    if entries.len() >= capacity {
        None
    } else if entries.len() == 0 {
        Some(target)
    } else {
        Some(successor(entries[0].slot as int, step_ms))
    }
}

/// Whether a frame for `slot` may be put at the front: there is room, the
/// slot lies inside the cycle, and it continues the chain.
pub open spec fn admissible(entries: Seq<CacheEntry>, capacity: int, slot: int, step_ms: int)
    -> bool {
    &&& entries.len() < capacity
    &&& slot < TOTAL_CYCLE_MS
    &&& entries.len() > 0 ==> slot == successor(entries[0].slot as int, step_ms)
}

/// No two entries hold the same slot.
pub open spec fn distinct_slots(entries: Seq<CacheEntry>) -> bool {
    forall|i: int, j: int|
        0 <= i < j < entries.len() ==> (#[trigger] entries[i]).slot != (#[trigger] entries[j]).slot
}

/// A bounded window of frames keyed by time slot.
#[derive(Debug)]
pub struct FrameCache {
    step_ms: u32,
    capacity: usize,
    entries: VecDeque<CacheEntry>,
}

impl View for FrameCache {
    type V = Seq<CacheEntry>;

    /// The entries, front first.
    closed spec fn view(&self) -> Seq<CacheEntry> {
        self.entries@
    }
}

impl FrameCache {
    /// The distance between neighbouring slots.
    pub closed spec fn step(&self) -> u32 {
        self.step_ms
    }

    /// The largest number of entries the cache holds.
    pub closed spec fn limit(&self) -> usize {
        self.capacity
    }

    /// The cache holds no more entries than its limit, and they form a
    /// chain.
    pub open spec fn wf(&self) -> bool {
        &&& self@.len() <= self.limit()
        &&& chained(self@, self.step() as int)
    }

    /// An empty cache for slots `step_ms` apart that holds up to `capacity`
    /// frames.
    pub fn new(step_ms: u32, capacity: usize) -> (cache: FrameCache)
        ensures
            cache@ == Seq::<CacheEntry>::empty(),
            cache.step() == step_ms,
            cache.limit() == capacity,
            cache.wf(),
    {
        FrameCache { step_ms, capacity, entries: VecDeque::new() }
    }

    /// The distance between neighbouring slots.
    pub fn step_ms(&self) -> (step_ms: u32)
        ensures
            step_ms == self.step(),
    {
        self.step_ms
    }

    /// The largest number of entries the cache holds.
    pub fn capacity(&self) -> (capacity: usize)
        ensures
            capacity == self.limit(),
    {
        self.capacity
    }

    /// The number of entries held.
    pub fn len(&self) -> (len: usize)
        ensures
            len == self@.len(),
    {
        self.entries.len()
    }

    /// Whether the cache holds no entry.
    pub fn is_empty(&self) -> (empty: bool)
        ensures
            empty == (self@.len() == 0),
    {
        self.entries.len() == 0
    }

    /// The slot of the entry at `index`, counted from the front.
    pub fn slot_at(&self, index: usize) -> (slot: u32)
        requires
            index < self@.len(),
        ensures
            slot == self@[index as int].slot,
    {
        self.entries[index].slot
    }

    /// The frame of the entry at `index`, counted from the front.
    pub fn frame_at(&self, index: usize) -> (frame: &Vec<u8>)
        requires
            index < self@.len(),
        ensures
            *frame == self@[index as int].frame,
    {
        &self.entries[index].frame
    }

    /// Whether every frame held has the given length.
    pub fn frames_have_len(&self, len: usize) -> (all: bool)
        ensures
            all == (forall|i: int| 0 <= i < self@.len() ==> (#[trigger] self@[i]).frame@.len() == len),
    {
        let mut i: usize = 0;
        while i < self.entries.len()
            invariant
                i <= self@.len(),
                forall|k: int| 0 <= k < i ==> (#[trigger] self@[k]).frame@.len() == len,
            decreases self@.len() - i,
        {
            if self.entries[i].frame.len() != len {
                assert(self@[i as int].frame@.len() != len);
                return false;
            }
            i += 1;
        }
        true
    }

    /// The frame on display: that of the back entry.
    pub fn current_frame(&self) -> (frame: &Vec<u8>)
        requires
            self@.len() > 0,
        ensures
            *frame == self@.last().frame,
    {
        &self.entries[self.entries.len() - 1].frame
    }

    /// The slot of the frame on display.
    pub fn shown_slot(&self) -> (slot: u32)
        requires
            self@.len() > 0,
        ensures
            slot == self@.last().slot,
    {
        self.entries[self.entries.len() - 1].slot
    }

    /// Moves the window to `target_slot`: takes stale entries from the back
    /// and says which slot's frame is to be loaded next, if the window is
    /// not full. Loads nothing itself; the frame asked for comes in through
    /// `insert`. A second call with the same target changes nothing.
    pub fn advance(&mut self, target_slot: u32) -> (next: Option<u32>)
        requires
            old(self).wf(),
            old(self).step() > 0,
            target_slot < TOTAL_CYCLE_MS,
        ensures
            final(self)@ == evicted(old(self)@, target_slot as int, old(self).step() as int),
            final(self).step() == old(self).step(),
            final(self).limit() == old(self).limit(),
            final(self).wf(),
            final(self)@.len() > 0 ==> !stale(
                final(self)@.last().slot as int,
                target_slot as int,
                final(self).step() as int,
            ),
            match next {
                Some(slot) => wanted(
                    final(self)@,
                    final(self).limit() as int,
                    target_slot as int,
                    final(self).step() as int,
                ) == Some(slot as int),
                None => wanted(
                    final(self)@,
                    final(self).limit() as int,
                    target_slot as int,
                    final(self).step() as int,
                ) is None,
            },
    {
        let step_ms = self.step_ms;
        while self.entries.len() > 0 && is_stale(
            self.entries[self.entries.len() - 1].slot,
            target_slot,
            step_ms,
        )
            invariant
                step_ms == self.step_ms,
                step_ms > 0,
                target_slot < TOTAL_CYCLE_MS,
                self.step_ms == old(self).step_ms,
                self.capacity == old(self).capacity,
                self.wf(),
                evicted(self@, target_slot as int, step_ms as int) == evicted(
                    old(self)@,
                    target_slot as int,
                    step_ms as int,
                ),
            decreases self.entries.len(),
        {
            let _ = self.entries.pop_back();
        }
        let held = self.entries.len();
        if held >= self.capacity {
            None
        } else if held == 0 {
            Some(target_slot)
        } else {
            Some(next_slot(self.entries[0].slot, step_ms))
        }
    }

    /// Puts a frame for `slot` at the front, if it is the one that the
    /// window lacks; else leaves the cache as it is and returns `false`.
    pub fn insert(&mut self, slot: u32, frame: Vec<u8>) -> (accepted: bool)
        requires
            old(self).wf(),
        ensures
            accepted == admissible(
                old(self)@,
                old(self).limit() as int,
                slot as int,
                old(self).step() as int,
            ),
            accepted ==> final(self)@ == seq![CacheEntry { slot, frame }] + old(self)@,
            !accepted ==> final(self)@ == old(self)@,
            final(self).step() == old(self).step(),
            final(self).limit() == old(self).limit(),
            final(self).wf(),
    {
        let held = self.entries.len();
        if held >= self.capacity || slot >= TOTAL_CYCLE_MS {
            return false;
        }
        if held > 0 && slot != next_slot(self.entries[0].slot, self.step_ms) {
            return false;
        }
        self.entries.push_front(CacheEntry { slot, frame });
        true
    }
}

/// Eviction takes entries from the back only: what it keeps is the front
/// part of what was there.
pub proof fn lemma_evicted_is_prefix(entries: Seq<CacheEntry>, target: int, step_ms: int)
    ensures
        evicted(entries, target, step_ms).len() <= entries.len(),
        evicted(entries, target, step_ms) == entries.take(
            evicted(entries, target, step_ms).len() as int,
        ),
    decreases entries.len(),
{
    if entries.len() > 0 && stale(entries.last().slot as int, target, step_ms) {
        let rest = entries.drop_last();
        lemma_evicted_is_prefix(rest, target, step_ms);
        let kept = evicted(rest, target, step_ms);
        assert(rest.take(kept.len() as int) =~= entries.take(kept.len() as int));
    } else {
        assert(entries.take(entries.len() as int) =~= entries);
    }
}

/// Eviction for the same target a second time takes nothing more.
pub proof fn lemma_evicted_is_stable(entries: Seq<CacheEntry>, target: int, step_ms: int)
    ensures
        evicted(evicted(entries, target, step_ms), target, step_ms) == evicted(
            entries,
            target,
            step_ms,
        ),
    decreases entries.len(),
{
    if entries.len() > 0 && stale(entries.last().slot as int, target, step_ms) {
        lemma_evicted_is_stable(entries.drop_last(), target, step_ms);
    }
}

/// In a chain, an entry's slot is that of any entry behind it, moved on by
/// one step for each place between them.
pub proof fn lemma_chain_offsets(entries: Seq<CacheEntry>, step_ms: int, i: int, j: int)
    requires
        chained(entries, step_ms),
        0 <= i <= j < entries.len(),
    ensures
        entries[i].slot == (entries[j].slot + (j - i) * step_ms) % (TOTAL_CYCLE_MS as int),
    decreases j - i,
{
    let cycle = TOTAL_CYCLE_MS as int;
    let back = entries[j].slot as int;
    if i < j {
        lemma_chain_offsets(entries, step_ms, i + 1, j);
        let fewer = (j - i - 1) * step_ms;
        let more = (j - i) * step_ms;
        assert(more == fewer + step_ms) by (nonlinear_arith)
            requires
                fewer == (j - i - 1) * step_ms,
                more == (j - i) * step_ms,
        ;
        let behind = entries[i + 1].slot as int;
        assert(behind == (back + fewer) % cycle);
        assert(entries[i].slot == (behind + step_ms) % cycle);
        lemma_add_mod_noop(back + fewer, step_ms, cycle);
        lemma_add_mod_noop(behind, step_ms, cycle);
        lemma_mod_twice(back + fewer, cycle);
    } else {
        assert((j - i) * step_ms == 0) by (nonlinear_arith)
            requires
                i == j,
        ;
        assert(entries[j].slot < TOTAL_CYCLE_MS);
        lemma_small_mod(back as nat, cycle as nat);
    }
}

/// A cache never holds the same slot twice, as long as its step does not
/// bring a slot back to itself within the length of the window: no
/// multiple of the step by less than the capacity is a whole number of
/// cycles.
pub proof fn lemma_slots_are_distinct(entries: Seq<CacheEntry>, capacity: int, step_ms: int)
    requires
        chained(entries, step_ms),
        entries.len() <= capacity,
        forall|k: int| 0 < k < capacity ==> #[trigger] (k * step_ms) % (TOTAL_CYCLE_MS as int) != 0,
    ensures
        distinct_slots(entries),
{
    assert forall|i: int, j: int| 0 <= i < j < entries.len() implies (#[trigger] entries[i]).slot
        != (#[trigger] entries[j]).slot by {
        lemma_chain_offsets(entries, step_ms, i, j);
        let turns = (j - i) * step_ms;
        assert(turns % (TOTAL_CYCLE_MS as int) != 0);
    }
}

/// The window follows its target. Once `advance` has run for a target,
/// the frame that it asks for is one that `insert` accepts, and with that
/// frame in place the entries still form a chain and the frame on display
/// lies less than one step from the target.
pub proof fn lemma_window_follows_target(
    entries: Seq<CacheEntry>,
    capacity: int,
    target: int,
    step_ms: int,
    frame: Vec<u8>,
)
    requires
        chained(entries, step_ms),
        step_ms > 0,
        0 <= target < TOTAL_CYCLE_MS,
    ensures
        ({
            let kept = evicted(entries, target, step_ms);
            &&& chained(kept, step_ms)
            &&& kept.len() <= entries.len()
            &&& kept.len() > 0 ==> !stale(kept.last().slot as int, target, step_ms)
            &&& wanted(kept, capacity, target, step_ms) matches Some(slot) ==> {
                let filled = seq![CacheEntry { slot: slot as u32, frame }] + kept;
                &&& admissible(kept, capacity, slot, step_ms)
                &&& chained(filled, step_ms)
                &&& filled.len() <= capacity
                &&& !stale(filled.last().slot as int, target, step_ms)
            }
        }),
    decreases entries.len(),
{
    if entries.len() > 0 && stale(entries.last().slot as int, target, step_ms) {
        lemma_window_follows_target(entries.drop_last(), capacity, target, step_ms, frame);
    }
}

/// The slot that follows `slot`.
pub fn next_slot(slot: u32, step_ms: u32) -> (next: u32)
    ensures
        next == successor(slot as int, step_ms as int),
        next < TOTAL_CYCLE_MS,
{
    ((slot as u64 + step_ms as u64) % (TOTAL_CYCLE_MS as u64)) as u32
}

/// Whether `slot` is stale for `target`.
pub fn is_stale(slot: u32, target: u32, step_ms: u32) -> (gone: bool)
    requires
        slot < TOTAL_CYCLE_MS,
        target < TOTAL_CYCLE_MS,
    ensures
        gone == stale(slot as int, target as int, step_ms as int),
{
    let apart = if slot >= target {
        slot - target
    } else {
        target - slot
    };
    let around = TOTAL_CYCLE_MS - apart;
    let distance = if apart <= around {
        apart
    } else {
        around
    };
    distance >= step_ms
}

} // verus!
