//! Regions of instance slots: the layout of the slots of memory-mapped and lazily populated
//! regions, and the accounting of free slots.
use vstd::prelude::*;

use crate::error::Error;
use crate::allocation::{
    instance_heap_offset, host_page_size, AddrLocation, AllocStrategy, Limits, Slot,
    HOST_PAGE_SIZE_EXPECTED,
};

verus! {

/// The slot of an `MmapRegion` whose memory starts at `start`:
///
/// ```text
/// start:    the `Instance` (one page)
/// heap:     start + page; the heap address space (`heap_address_space_size`)
/// stack:    heap + heap_address_space_size; the stack (`stack_size`), then a guard page
/// globals:  stack + stack_size + page; the globals (`globals_size`), then a guard page
/// sigstack: globals + globals_size + page; the signal stack (`signal_stack_size`)
/// ```
pub open spec fn is_mmap_layout(s: Slot, start: int, limits: Limits) -> bool {
    &&& s.start == start
    &&& s.heap == start + HOST_PAGE_SIZE_EXPECTED
    &&& s.stack == s.heap + limits.heap_address_space_size
    &&& s.globals == s.stack + limits.stack_size + HOST_PAGE_SIZE_EXPECTED
    &&& s.sigstack == s.globals + limits.globals_size + HOST_PAGE_SIZE_EXPECTED
    &&& s.limits == limits
}

/// The slot at `index` of a `UffdRegion` whose memory starts at `region_start`:
///
/// ```text
/// start:    region_start + index * total_memory_size; the `Instance` (one page)
/// heap:     start + page; the heap address space, then a guard page
/// stack:    heap + heap_address_space_size + page; the stack
/// globals:  stack + stack_size; the globals, then a guard page
/// sigstack: globals + globals_size + page; the signal stack
/// ```
pub open spec fn is_uffd_layout(s: Slot, region_start: int, index: int, limits: Limits) -> bool {
    &&& s.start == region_start + index * limits.total_memory_size_spec()
    &&& s.heap == s.start + HOST_PAGE_SIZE_EXPECTED
    &&& s.stack == s.heap + limits.heap_address_space_size + HOST_PAGE_SIZE_EXPECTED
    &&& s.globals == s.stack + limits.stack_size
    &&& s.sigstack == s.globals + limits.globals_size + HOST_PAGE_SIZE_EXPECTED
    &&& s.limits == limits
}

/// Lay out the slot of an `MmapRegion` whose virtual memory starts at `start`.
pub fn mmap_slot_layout(start: usize, limits: &Limits) -> (s: Slot)
    requires
        start + limits.total_memory_size_spec() <= usize::MAX,
    ensures
        is_mmap_layout(s, start as int, *limits),
{
    let heap = start + instance_heap_offset();
    let stack = heap + limits.heap_address_space_size;
    let globals = stack + limits.stack_size + host_page_size();
    let sigstack = globals + limits.globals_size + host_page_size();
    Slot { start, heap, stack, globals, sigstack, limits: *limits }
}

/// Lay out the slot at `index` of a `UffdRegion` whose virtual memory starts at `region_start`.
pub fn uffd_slot_layout(region_start: usize, index: usize, limits: &Limits) -> (s: Slot)
    requires
        region_start + (index + 1) * limits.total_memory_size_spec() <= usize::MAX,
    ensures
        is_uffd_layout(s, region_start as int, index as int, *limits),
{
    assert(limits.total_memory_size_spec() <= (index + 1) * limits.total_memory_size_spec())
        by (nonlinear_arith)
        requires
            limits.total_memory_size_spec() >= 0,
            index >= 0,
    ;
    let total = limits.total_memory_size();
    assert(index * total <= (index + 1) * total) by (nonlinear_arith);
    let start = region_start + index * total;
    assert(start + total == region_start + (index + 1) * total) by (nonlinear_arith)
        requires
            start == region_start + index * total,
    ;
    let heap = start + instance_heap_offset();
    let stack = heap + limits.heap_address_space_size + host_page_size();
    let globals = stack + limits.stack_size;
    let sigstack = globals + limits.globals_size + host_page_size();
    Slot { start, heap, stack, globals, sigstack, limits: *limits }
}

/// An `MmapRegion` slot fills exactly `total_memory_size` bytes from its start, and lies in the
/// address space.
pub proof fn lemma_mmap_layout_fits(s: Slot, start: int, limits: Limits)
    requires
        is_mmap_layout(s, start, limits),
        start + limits.total_memory_size_spec() <= usize::MAX,
    ensures
        s.sigstack + limits.signal_stack_size == start + limits.total_memory_size_spec(),
        s.in_address_space(),
{
}

/// A `UffdRegion` slot fills exactly `total_memory_size` bytes from its start, and lies in the
/// address space.
pub proof fn lemma_uffd_layout_fits(s: Slot, region_start: int, index: int, limits: Limits)
    requires
        is_uffd_layout(s, region_start, index, limits),
        index >= 0,
        region_start >= 0,
        s.start + limits.total_memory_size_spec() <= usize::MAX,
    ensures
        s.sigstack + limits.signal_stack_size == s.start + limits.total_memory_size_spec(),
        s.in_address_space(),
{
    assert(index * limits.total_memory_size_spec() >= 0) by (nonlinear_arith)
        requires
            index >= 0,
            limits.total_memory_size_spec() >= 0,
    ;
}

/// In an `MmapRegion` slot, every address falls in the part of the slot that the layout puts it
/// in, and faults outside the slot are classified as fatal.
pub proof fn lemma_mmap_layout_locations(
    s: Slot,
    start: int,
    limits: Limits,
    heap_accessible_size: int,
    addr: int,
)
    requires
        is_mmap_layout(s, start, limits),
        start >= 0,
        start + limits.total_memory_size_spec() <= usize::MAX,
        0 <= heap_accessible_size <= limits.heap_address_space_size,
    ensures
        s.heap <= addr < s.heap + heap_accessible_size ==> s.locate(heap_accessible_size, addr)
            == AddrLocation::Heap,
        s.heap + heap_accessible_size <= addr < s.heap + limits.heap_address_space_size ==> s.locate(
            heap_accessible_size,
            addr,
        ) == AddrLocation::InaccessibleHeap,
        s.stack <= addr < s.stack + limits.stack_size ==> s.locate(heap_accessible_size, addr)
            == AddrLocation::Stack,
        s.globals <= addr < s.globals + limits.globals_size ==> s.locate(heap_accessible_size, addr)
            == AddrLocation::Globals,
        s.sigstack - HOST_PAGE_SIZE_EXPECTED <= addr < s.sigstack ==> s.locate(
            heap_accessible_size,
            addr,
        ) == AddrLocation::SigStackGuard,
        s.sigstack <= addr < s.sigstack + limits.signal_stack_size ==> s.locate(
            heap_accessible_size,
            addr,
        ) == AddrLocation::SigStack,
        limits.heap_address_space_size >= HOST_PAGE_SIZE_EXPECTED && (addr < s.heap || addr >= start
            + limits.total_memory_size_spec()) ==> s.locate(
            heap_accessible_size,
            addr,
        ) == AddrLocation::Unknown,
{
}

/// In a `UffdRegion` slot, every address falls in the part of the slot that the layout puts it
/// in, the page between the heap address space and the stack guards the stack, and faults outside
/// the slot are classified as fatal.
pub proof fn lemma_uffd_layout_locations(
    s: Slot,
    region_start: int,
    index: int,
    limits: Limits,
    heap_accessible_size: int,
    addr: int,
)
    requires
        is_uffd_layout(s, region_start, index, limits),
        s.start >= 0,
        s.start + limits.total_memory_size_spec() <= usize::MAX,
        0 <= heap_accessible_size <= limits.heap_address_space_size,
    ensures
        s.heap <= addr < s.heap + heap_accessible_size ==> s.locate(heap_accessible_size, addr)
            == AddrLocation::Heap,
        s.heap + heap_accessible_size <= addr < s.heap + limits.heap_address_space_size ==> s.locate(
            heap_accessible_size,
            addr,
        ) == AddrLocation::InaccessibleHeap,
        s.stack - HOST_PAGE_SIZE_EXPECTED <= addr < s.stack ==> s.locate(heap_accessible_size, addr)
            == AddrLocation::StackGuard,
        s.stack <= addr < s.stack + limits.stack_size ==> s.locate(heap_accessible_size, addr)
            == AddrLocation::Stack,
        s.globals <= addr < s.globals + limits.globals_size && limits.stack_size > 0 ==> s.locate(
            heap_accessible_size,
            addr,
        ) == AddrLocation::Globals,
        s.sigstack - HOST_PAGE_SIZE_EXPECTED <= addr < s.sigstack ==> s.locate(
            heap_accessible_size,
            addr,
        ) == AddrLocation::SigStackGuard,
        s.sigstack <= addr < s.sigstack + limits.signal_stack_size ==> s.locate(
            heap_accessible_size,
            addr,
        ) == AddrLocation::SigStack,
        (addr < s.heap || addr >= s.start + limits.total_memory_size_spec()) ==> s.locate(
            heap_accessible_size,
            addr,
        ) == AddrLocation::Unknown,
{
}

/// The size of the memory of a `UffdRegion` of `instance_capacity` slots with the given limits.
///
/// A region must hold at least one instance, its limits must be valid, and its size must fit in the
/// address space.
pub fn uffd_region_size(instance_capacity: usize, limits: &Limits) -> (r: Result<usize, Error>)
    requires
        limits.total_memory_size_spec() <= usize::MAX,
    ensures
        instance_capacity == 0 ==> r == Err::<usize, Error>(
            Error::InvalidArgument("region must be able to hold at least one instance"),
        ),
        instance_capacity > 0 ==> (limits.validation_failure() matches Some(m) ==> r == Err::<
            usize,
            Error,
        >(Error::InvalidArgument(m))),
        instance_capacity > 0 && limits.validation_failure() is None ==> (if instance_capacity
            * limits.total_memory_size_spec() <= usize::MAX {
            r == Ok::<usize, Error>((instance_capacity * limits.total_memory_size_spec()) as usize)
        } else {
            r == Err::<usize, Error>(Error::InvalidArgument("requested region size too large"))
        }),
{
    if instance_capacity == 0 {
        return Err(Error::InvalidArgument("region must be able to hold at least one instance"));
    }
    match limits.validate() {
        Ok(()) => {},
        Err(e) => {
            return Err(e);
        },
    }
    match instance_capacity.checked_mul(limits.total_memory_size()) {
        Some(sz) => Ok(sz),
        None => Err(Error::InvalidArgument("requested region size too large")),
    }
}

/// The free slots of a region that holds `capacity` instances. A slot is free until an instance
/// takes it, and free again once that instance is dropped.
pub struct Freelist {
    slots: Vec<Slot>,
    capacity: usize,
}

impl Freelist {
    /// The free slots, in the order they are kept.
    pub closed spec fn slots_spec(&self) -> Seq<Slot> {
        self.slots@
    }

    pub closed spec fn capacity_spec(&self) -> nat {
        self.capacity as nat
    }

    /// There are no more free slots than the region holds.
    pub open spec fn wf(&self) -> bool {
        self.slots_spec().len() <= self.capacity_spec()
    }

    /// An empty freelist of a region that holds `capacity` instances; the region fills it with
    /// the slots it creates.
    pub fn new(capacity: usize) -> (r: Self)
        ensures
            r.wf(),
            r.slots_spec() == Seq::<Slot>::empty(),
            r.capacity_spec() == capacity,
    {
        Freelist { slots: Vec::new(), capacity }
    }

    /// The number of free slots.
    pub fn free_slots(&self) -> (r: usize)
        ensures
            r == self.slots_spec().len(),
    {
        self.slots.len()
    }

    /// The number of slots in use by instances.
    pub fn used_slots(&self) -> (r: usize)
        requires
            self.wf(),
        ensures
            r == self.capacity_spec() - self.slots_spec().len(),
    {
        self.capacity - self.slots.len()
    }

    /// The number of instances the region holds.
    pub fn capacity(&self) -> (r: usize)
        ensures
            r == self.capacity_spec(),
    {
        self.capacity
    }

    /// Make `slot` free: a slot the region created, or the slot of a dropped instance. The region
    /// never has more slots than it holds.
    pub fn give_back(&mut self, slot: Slot)
        requires
            old(self).wf(),
            old(self).slots_spec().len() < old(self).capacity_spec(),
        ensures
            final(self).wf(),
            final(self).slots_spec() == old(self).slots_spec().push(slot),
            final(self).capacity_spec() == old(self).capacity_spec(),
    {
        self.slots.push(slot);
    }

    /// Take the most recently freed slot for a new instance; `Error::RegionFull` when none is
    /// free.
    pub fn take_last(&mut self) -> (r: Result<Slot, Error>)
        requires
            old(self).wf(),
        ensures
            final(self).wf(),
            final(self).capacity_spec() == old(self).capacity_spec(),
            old(self).slots_spec().len() == 0 ==> r == Err::<Slot, Error>(
                Error::RegionFull(old(self).capacity_spec() as usize),
            ) && final(self).slots_spec() == old(self).slots_spec(),
            old(self).slots_spec().len() > 0 ==> r == Ok::<Slot, Error>(old(self).slots_spec().last())
                && final(self).slots_spec() == old(self).slots_spec().drop_last(),
    {
        match self.slots.pop() {
            Some(slot) => Ok(slot),
            None => Err(Error::RegionFull(self.capacity)),
        }
    }

    /// Take a free slot for a new instance, chosen by `strategy`; `Error::RegionFull` when none is
    /// free. The chosen slot's place is filled by the last free slot.
    pub fn take(&mut self, strategy: &mut AllocStrategy) -> (r: Result<Slot, Error>)
        requires
            old(self).wf(),
        ensures
            final(self).wf(),
            final(self).capacity_spec() == old(self).capacity_spec(),
            old(self).slots_spec().len() == 0 ==> r == Err::<Slot, Error>(
                Error::RegionFull(old(self).capacity_spec() as usize),
            ) && final(self).slots_spec() == old(self).slots_spec(),
            old(self).slots_spec().len() > 0 ==> (exists|i: int|
                0 <= i < old(self).slots_spec().len() && r == Ok::<Slot, Error>(
                    #[trigger] old(self).slots_spec()[i],
                ) && final(self).slots_spec() == old(self).slots_spec().update(
                    i,
                    old(self).slots_spec().last(),
                ).drop_last()),
            old(self).slots_spec().len() > 0 && *old(strategy) is Linear ==> r == Ok::<Slot, Error>(
                old(self).slots_spec().last(),
            ) && final(self).slots_spec() == old(self).slots_spec().drop_last(),
    {
        let index = match strategy.next(self.slots.len(), self.capacity) {
            Ok(i) => i,
            Err(e) => {
                return Err(e);
            },
        };
        let slot = self.slots.swap_remove(index);
        proof {
            if *old(strategy) is Linear {
                assert(self.slots@ =~= old(self).slots@.drop_last());
            }
        }
        Ok(slot)
    }
}

/// Taking a slot for an instance and giving it back once the instance is dropped leaves the same
/// slots free, and the same number of them.
pub proof fn lemma_take_give_back_keeps_free_slots(
    before: Seq<Slot>,
    i: int,
    taken: Slot,
    after_take: Seq<Slot>,
)
    requires
        0 <= i < before.len(),
        taken == before[i],
        after_take == before.update(i, before.last()).drop_last(),
    ensures
        after_take.push(taken).len() == before.len(),
        after_take.push(taken).to_multiset() =~= before.to_multiset(),
{
    broadcast use vstd::seq_lib::group_to_multiset_ensures;

    let last = before.last();
    let n = before.len();
    if i == n - 1 {
        assert(after_take =~= before.drop_last());
        assert(after_take.push(taken) =~= before);
    } else {
        let upd = before.update(i, last);
        assert(upd.to_multiset() =~= before.to_multiset().remove(before[i]).insert(last));
        assert(upd =~= after_take.push(last));
        assert(after_take.push(last).to_multiset() =~= after_take.to_multiset().insert(last));
        assert(after_take.push(taken).to_multiset() =~= after_take.to_multiset().insert(taken));
        let m = before.to_multiset();
        assert(after_take.to_multiset().insert(last) =~= m.remove(before[i]).insert(last));
        assert forall|x: Slot|
            after_take.to_multiset().count(x) == m.remove(before[i]).count(x) by {
            assert(after_take.to_multiset().insert(last).count(x) == m.remove(before[i]).insert(
                last,
            ).count(x));
        }
        assert(after_take.to_multiset() =~= m.remove(before[i]));
        assert(m.count(before[i]) > 0);
        assert(m.remove(before[i]).insert(before[i]) =~= m);
    }
}

} // verus!
