//! Decisions of the page-fault handler of a region whose memory is populated lazily, by
//! `userfaultfd`: where a fault falls, what to do about it, and which pages to fill.
use vstd::prelude::*;

use crate::allocation::{
    host_page_size, AddrLocation, Alloc, Slot, HOST_PAGE_SIZE_EXPECTED, WASM_PAGE_SIZE,
};
use crate::error::Error;

verus! {

/// When memory is initialized: up front, or on first access.
#[derive(Copy, Clone, Debug, PartialEq, Eq, Structural)]
pub enum Disposition {
    Eager,
    Lazy,
}

/// The unit in which heap faults are filled: one host page, or one WebAssembly page.
#[derive(Copy, Clone, Debug, PartialEq, Eq, Structural)]
pub enum HeapPageSize {
    Host,
    Wasm,
}

/// Configuration of a lazily populated region.
#[derive(Copy, Clone, Debug, PartialEq, Eq, Structural)]
pub struct UffdConfig {
    pub heap_page_size: HeapPageSize,
    pub heap_init: Disposition,
    pub stack_init: Disposition,
    pub abort_on_handler_error: bool,
    pub enoent_retry_limit: usize,
}

impl UffdConfig {
    pub fn default() -> (r: UffdConfig)
        ensures
            r == (UffdConfig {
                heap_page_size: HeapPageSize::Wasm,
                heap_init: Disposition::Lazy,
                stack_init: Disposition::Lazy,
                abort_on_handler_error: false,
                enoent_retry_limit: 4,
            }),
    {
        UffdConfig {
            heap_page_size: HeapPageSize::Wasm,
            heap_init: Disposition::Lazy,
            stack_init: Disposition::Lazy,
            abort_on_handler_error: false,
            enoent_retry_limit: 4,
        }
    }
}

/// Where a fault falls: the host page it is in, and the start of the instance slot it is in.
#[derive(Copy, Clone, Debug, PartialEq, Eq, Structural)]
pub struct FaultSite {
    pub fault_page: usize,
    pub inst_base: usize,
}

/// Find the page and the instance slot of a fault at `fault_addr` in a region of
/// `instance_capacity` slots of `instance_size` bytes from `region_start`.
pub fn locate_fault(
    fault_addr: usize,
    region_start: usize,
    instance_size: usize,
    instance_capacity: usize,
) -> (r: Result<FaultSite, Error>)
    requires
        instance_size > 0,
        region_start + instance_size * instance_capacity <= usize::MAX,
    ensures
        r is Err <==> !(region_start <= fault_addr < region_start + instance_size
            * instance_capacity),
        r is Err ==> r == Err::<FaultSite, Error>(Error::InternalError("fault addr outside uffd region")),
        r matches Ok(site) ==> {
            &&& site.fault_page % HOST_PAGE_SIZE_EXPECTED == 0
            &&& site.fault_page <= fault_addr < site.fault_page + HOST_PAGE_SIZE_EXPECTED
            &&& (site.inst_base - region_start) % (instance_size as int) == 0
            &&& region_start <= site.inst_base <= fault_addr < site.inst_base + instance_size
        },
{
    let page = host_page_size();
    let fault_page = fault_addr - fault_addr % page;
    assert(instance_size * instance_capacity >= 0) by (nonlinear_arith)
        requires
            instance_size > 0,
    ;
    let in_region = fault_addr >= region_start && fault_addr - region_start < instance_size
        * instance_capacity;
    if !in_region {
        return Err(Error::InternalError("fault addr outside uffd region"));
    }
    let fault_offs = fault_addr - region_start;
    proof {
        assert(fault_offs % instance_size <= fault_offs) by (nonlinear_arith)
            requires
                instance_size > 0,
        ;
        assert(fault_offs % instance_size < instance_size) by (nonlinear_arith)
            requires
                instance_size > 0,
        ;
        assert((fault_offs - fault_offs % instance_size) % (instance_size as int) == 0)
            by (nonlinear_arith)
            requires
                instance_size > 0,
        ;
        assert(fault_addr % 4096 < 4096);
        assert((fault_addr - fault_addr % 4096) % 4096 == 0) by (nonlinear_arith);
    }
    let fault_base = fault_offs - fault_offs % instance_size;
    let inst_base = region_start + fault_base;
    Ok(FaultSite { fault_page, inst_base })
}

/// What the fault handler does about a fault.
#[derive(Copy, Clone, Debug, PartialEq, Eq, Structural)]
pub enum FaultAction {
    /// Make the page fault for real on the next retry, and wake the faulting thread: the access is
    /// out of bounds, or at a location that is never populated lazily.
    WakeInvalid,
    /// Fill the page with zeros and wake the faulting thread: a lazily initialized stack page.
    ZeroStackPage,
    /// Fill the heap page(s) from the module's data, or with zeros, and wake the faulting thread.
    FillHeap(HeapPageSize),
}

/// Decide what to do about a fault at a location of an instance.
pub fn fault_action(location: AddrLocation, config: &UffdConfig) -> (r: Result<FaultAction, Error>)
    ensures
        location == AddrLocation::Heap ==> r == Ok::<FaultAction, Error>(
            FaultAction::FillHeap(config.heap_page_size),
        ),
        location == AddrLocation::Stack && config.stack_init == Disposition::Lazy ==> r == Ok::<
            FaultAction,
            Error,
        >(FaultAction::ZeroStackPage),
        location == AddrLocation::Stack && config.stack_init == Disposition::Eager ==> r == Err::<
            FaultAction,
            Error,
        >(Error::InternalError("fault in eagerly initialized stack should be unreachable")),
        location != AddrLocation::Heap && location != AddrLocation::Stack ==> r == Ok::<
            FaultAction,
            Error,
        >(FaultAction::WakeInvalid),
{
    match location {
        AddrLocation::InaccessibleHeap | AddrLocation::StackGuard => Ok(FaultAction::WakeInvalid),
        AddrLocation::SigStackGuard | AddrLocation::Unknown => Ok(FaultAction::WakeInvalid),
        AddrLocation::Globals | AddrLocation::SigStack => Ok(FaultAction::WakeInvalid),
        AddrLocation::Stack => match config.stack_init {
            Disposition::Lazy => Ok(FaultAction::ZeroStackPage),
            Disposition::Eager => Err(
                Error::InternalError("fault in eagerly initialized stack should be unreachable"),
            ),
        },
        AddrLocation::Heap => Ok(FaultAction::FillHeap(config.heap_page_size)),
    }
}

/// A host page to fill: its index in host pages from the start of the heap, and its address.
#[derive(Copy, Clone, Debug, PartialEq, Eq, Structural)]
pub struct HeapPage {
    pub pages_into_heap: usize,
    pub addr: usize,
}

/// The strategy that fills a heap fault one host page at a time.
pub struct HostPageSizedUffdStrategy;

impl HostPageSizedUffdStrategy {
    /// The faulting host page: its index from the start of the heap, and its address.
    pub fn heap_fault_plan(&self, alloc: &Alloc, fault_page: usize) -> (r: Vec<HeapPage>)
        requires
            alloc.slot is Some,
            alloc.slot->0.heap <= fault_page,
        ensures
            r@ == seq![
                HeapPage {
                    pages_into_heap: ((fault_page - alloc.slot->0.heap) / (HOST_PAGE_SIZE_EXPECTED as int)) as usize,
                    addr: fault_page,
                },
            ],
    {
        let pages_into_heap = (fault_page - alloc.slot().heap) / host_page_size();
        let mut plan: Vec<HeapPage> = Vec::new();
        plan.push(HeapPage { pages_into_heap, addr: fault_page });
        plan
    }
}

/// The strategy that fills a heap fault one WebAssembly page at a time.
pub struct WasmPageSizedUffdStrategy;

impl WasmPageSizedUffdStrategy {
    /// The host pages of the WebAssembly page containing a faulting heap page, in order, that lie
    /// in the accessible heap; the fill stops at the end of the accessible heap.
    pub fn heap_fault_plan(&self, alloc: &Alloc, fault_page: usize) -> (r: Vec<HeapPage>)
        requires
            alloc.wf(),
            alloc.slot->0.heap <= fault_page < alloc.slot->0.heap + alloc.heap_accessible_size,
        ensures
            ({
                let heap = alloc.slot->0.heap;
                let rel = fault_page - heap;
                let base = rel - rel % (WASM_PAGE_SIZE as int);
                &&& r@.len() <= (WASM_PAGE_SIZE as int) / (HOST_PAGE_SIZE_EXPECTED as int)
                &&& forall|i: int|
                    0 <= i < r@.len() ==> #[trigger] r@[i] == (HeapPage {
                        pages_into_heap: (base / (HOST_PAGE_SIZE_EXPECTED as int) + i) as usize,
                        addr: (heap + base + i * HOST_PAGE_SIZE_EXPECTED) as usize,
                    })
                &&& forall|i: int|
                    0 <= i < r@.len() ==> alloc.slot->0.locate(
                        alloc.heap_accessible_size as int,
                        #[trigger] r@[i].addr as int,
                    ) == AddrLocation::Heap
                &&& (r@.len() < (WASM_PAGE_SIZE as int) / (HOST_PAGE_SIZE_EXPECTED as int) ==> heap + base + r@.len()
                    * HOST_PAGE_SIZE_EXPECTED >= heap + alloc.heap_accessible_size)
            }),
    {
        let slot = alloc.slot();
        let page = host_page_size();
        let wasm_page = WASM_PAGE_SIZE as usize;
        let rel_fault_addr = fault_page - slot.heap;
        let rel_wasm_page_base_addr = rel_fault_addr - (rel_fault_addr % wasm_page);
        let wasm_page_base_addr = slot.heap + rel_wasm_page_base_addr;
        let base_pages_into_heap = rel_wasm_page_base_addr / page;
        let host_pages_per_wasm_page = wasm_page / page;
        assert(host_pages_per_wasm_page == 16);
        assert(rel_fault_addr % 65536 <= rel_fault_addr) by (nonlinear_arith);
        let mut plan: Vec<HeapPage> = Vec::new();
        let mut page_num: usize = 0;
        while page_num < host_pages_per_wasm_page
            invariant
                0 <= page_num <= 16,
                host_pages_per_wasm_page == 16,
                page == 4096,
                alloc.wf(),
                slot == alloc.slot->0,
                wasm_page_base_addr == slot.heap + rel_wasm_page_base_addr,
                rel_wasm_page_base_addr <= rel_fault_addr,
                rel_fault_addr == fault_page - slot.heap,
                rel_wasm_page_base_addr == rel_fault_addr - rel_fault_addr % 65536,
                base_pages_into_heap == rel_wasm_page_base_addr / 4096,
                fault_page < slot.heap + alloc.heap_accessible_size,
                plan@.len() == page_num,
                forall|i: int|
                    0 <= i < page_num ==> #[trigger] plan@[i] == (HeapPage {
                        pages_into_heap: (base_pages_into_heap + i) as usize,
                        addr: (wasm_page_base_addr + i * 4096) as usize,
                    }),
                forall|i: int|
                    0 <= i < page_num ==> slot.heap <= (#[trigger] plan@[i]).addr < slot.heap
                        + alloc.heap_accessible_size,
            ensures
                page_num < 16 ==> page_num * 4096 >= alloc.heap_accessible_size - rel_wasm_page_base_addr,
            decreases 16 - page_num,
        {
            let offset = page_num * page;
            if offset >= alloc.heap_accessible_size - rel_wasm_page_base_addr {
                // the heap ends before this host page
                break;
            }
            let host_page_addr = wasm_page_base_addr + offset;
            plan.push(HeapPage { pages_into_heap: base_pages_into_heap + page_num, addr: host_page_addr });
            page_num = page_num + 1;
        }
        plan
    }
}

/// The area of `len` bytes at `addr`, as a list of areas to zero; an empty area is left out, since
/// the kernel refuses to zero nothing.
pub open spec fn nonempty_area(addr: usize, len: usize) -> Seq<(usize, usize)> {
    if len > 0 {
        seq![(addr, len)]
    } else {
        Seq::empty()
    }
}

/// The areas of a slot that are zeroed when an instance is created in it, as (address, length):
/// the globals and the signal stack, and the stack when it is initialized eagerly.
pub open spec fn creation_areas(slot: Slot, stack_init: Disposition) -> Seq<(usize, usize)> {
    nonempty_area(slot.globals, slot.limits.globals_size) + nonempty_area(
        slot.sigstack,
        slot.limits.signal_stack_size,
    ) + if stack_init == Disposition::Eager {
        nonempty_area(slot.stack, slot.limits.stack_size)
    } else {
        Seq::empty()
    }
}

fn push_nonempty_area(areas: &mut Vec<(usize, usize)>, addr: usize, len: usize)
    ensures
        final(areas)@ == old(areas)@ + nonempty_area(addr, len),
{
    if len > 0 {
        areas.push((addr, len));
    } else {
        assert(areas@ =~= old(areas)@ + nonempty_area(addr, len));
    }
}

/// The areas of `slot` to zero when an instance is created in it, in order.
pub fn zeroed_at_creation(slot: &Slot, config: &UffdConfig) -> (r: Vec<(usize, usize)>)
    ensures
        r@ == creation_areas(*slot, config.stack_init),
{
    let mut areas: Vec<(usize, usize)> = Vec::new();
    push_nonempty_area(&mut areas, slot.globals, slot.limits.globals_size);
    push_nonempty_area(&mut areas, slot.sigstack, slot.limits.signal_stack_size);
    match config.stack_init {
        Disposition::Eager => {
            push_nonempty_area(&mut areas, slot.stack, slot.limits.stack_size);
        },
        Disposition::Lazy => {},
    }
    assert(areas@ =~= creation_areas(*slot, config.stack_init));
    areas
}

} // verus!
