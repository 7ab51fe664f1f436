use lucet_runtime_internals::allocation::{
    AddrLocation, Alloc, AllocStrategy, Limits, Slot,
};
use lucet_runtime_internals::error::Error;
use lucet_runtime_internals::region::{mmap_slot_layout, uffd_region_size, uffd_slot_layout, Freelist};
use lucet_runtime_internals::uffd::{
    fault_action, locate_fault, zeroed_at_creation, Disposition, FaultAction, FaultSite,
    HeapPage, HeapPageSize, HostPageSizedUffdStrategy, UffdConfig, WasmPageSizedUffdStrategy,
};

const PAGE: usize = 4096;

fn limits() -> Limits {
    Limits {
        heap_memory_size: 2 * 65536,
        heap_address_space_size: 4 * 65536,
        stack_size: 8 * PAGE,
        hostcall_reservation: PAGE,
        globals_size: PAGE,
        signal_stack_size: 3 * PAGE,
    }
}

#[test]
fn mmap_slot_layout_follows_documented_layout() {
    let l = limits();
    let s = mmap_slot_layout(0x40_0000, &l);
    assert_eq!(s.start, 0x40_0000);
    assert_eq!(s.heap, 0x40_0000 + PAGE);
    assert_eq!(s.stack, s.heap + l.heap_address_space_size);
    assert_eq!(s.globals, s.stack + l.stack_size + PAGE);
    assert_eq!(s.sigstack, s.globals + l.globals_size + PAGE);
    assert_eq!(s.sigstack + l.signal_stack_size, s.start + l.total_memory_size());
}

#[test]
fn uffd_slot_layout_places_slots_back_to_back() {
    let l = limits();
    let total = l.total_memory_size();
    let s0 = uffd_slot_layout(0x100_0000, 0, &l);
    let s2 = uffd_slot_layout(0x100_0000, 2, &l);
    assert_eq!(s0.start, 0x100_0000);
    assert_eq!(s2.start, 0x100_0000 + 2 * total);
    assert_eq!(s2.heap, s2.start + PAGE);
    assert_eq!(s2.stack, s2.heap + l.heap_address_space_size + PAGE);
    assert_eq!(s2.globals, s2.stack + l.stack_size);
    assert_eq!(s2.sigstack, s2.globals + l.globals_size + PAGE);
    assert_eq!(s0.sigstack + l.signal_stack_size, s0.start + total);
}

#[test]
fn uffd_region_sizes() {
    let l = limits();
    assert_eq!(uffd_region_size(3, &l).unwrap(), 3 * l.total_memory_size());
    assert!(matches!(
        uffd_region_size(0, &l),
        Err(Error::InvalidArgument("region must be able to hold at least one instance"))
    ));
    assert!(matches!(
        uffd_region_size(1, &l.with_stack_size(100)),
        Err(Error::InvalidArgument("stack size must be a multiple of host page size"))
    ));
    assert!(matches!(
        uffd_region_size(usize::MAX / 2, &l),
        Err(Error::InvalidArgument("requested region size too large"))
    ));
}

fn slots(n: usize) -> Vec<Slot> {
    (0..n).map(|i| uffd_slot_layout(0x100_0000, i, &limits())).collect()
}

#[test]
fn freelist_counts_free_and_used_slots() {
    let mut fl = Freelist::new(3);
    assert_eq!(fl.capacity(), 3);
    assert_eq!(fl.free_slots(), 0);
    assert_eq!(fl.used_slots(), 3);
    for s in slots(3) {
        fl.give_back(s);
    }
    assert_eq!(fl.free_slots(), 3);
    assert_eq!(fl.used_slots(), 0);
}

#[test]
fn freelist_linear_takes_last_and_reports_full() {
    let all = slots(2);
    let mut fl = Freelist::new(2);
    fl.give_back(all[0]);
    fl.give_back(all[1]);
    let s = fl.take_last().unwrap();
    assert_eq!(s.start, all[1].start);
    let mut linear = AllocStrategy::Linear;
    let s = fl.take(&mut linear).unwrap();
    assert_eq!(s.start, all[0].start);
    assert_eq!(fl.used_slots(), 2);
    assert!(matches!(fl.take_last(), Err(Error::RegionFull(2))));
    assert!(matches!(fl.take(&mut linear), Err(Error::RegionFull(2))));
}

#[test]
fn freelist_take_and_give_back_keeps_the_same_slots() {
    let all = slots(5);
    let mut fl = Freelist::new(5);
    for s in &all {
        fl.give_back(*s);
    }
    let mut random = AllocStrategy::Random;
    let taken = fl.take(&mut random).unwrap();
    assert_eq!(fl.free_slots(), 4);
    fl.give_back(taken);
    let mut starts = Vec::new();
    let mut linear = AllocStrategy::Linear;
    while let Ok(s) = fl.take(&mut linear) {
        starts.push(s.start);
    }
    starts.sort();
    let mut expected: Vec<usize> = all.iter().map(|s| s.start).collect();
    expected.sort();
    assert_eq!(starts, expected);
}

fn uffd_alloc(accessible: usize) -> Alloc {
    let l = limits();
    Alloc {
        heap_accessible_size: accessible,
        heap_inaccessible_size: l.heap_address_space_size - accessible,
        heap_memory_size_limit: l.heap_memory_size,
        slot: Some(uffd_slot_layout(0x100_0000, 1, &l)),
        invalid_pages: Vec::new(),
    }
}

#[test]
fn locating_faults() {
    let l = limits();
    let total = l.total_memory_size();
    let start = 0x100_0000;
    let site = locate_fault(start + total + 5 * PAGE + 17, start, total, 3).unwrap();
    assert_eq!(site, FaultSite { fault_page: start + total + 5 * PAGE, inst_base: start + total });
    let site = locate_fault(start, start, total, 3).unwrap();
    assert_eq!(site, FaultSite { fault_page: start, inst_base: start });
    assert!(matches!(
        locate_fault(start + 3 * total, start, total, 3),
        Err(Error::InternalError("fault addr outside uffd region"))
    ));
    assert!(locate_fault(start - 1, start, total, 3).is_err());
}

#[test]
fn fault_actions_by_location() {
    let lazy = UffdConfig::default();
    assert_eq!(lazy.heap_page_size, HeapPageSize::Wasm);
    assert_eq!(lazy.enoent_retry_limit, 4);
    assert_eq!(fault_action(AddrLocation::Heap, &lazy).unwrap(), FaultAction::FillHeap(HeapPageSize::Wasm));
    assert_eq!(fault_action(AddrLocation::Stack, &lazy).unwrap(), FaultAction::ZeroStackPage);
    for loc in [
        AddrLocation::InaccessibleHeap,
        AddrLocation::StackGuard,
        AddrLocation::Globals,
        AddrLocation::SigStackGuard,
        AddrLocation::SigStack,
        AddrLocation::Unknown,
    ] {
        assert_eq!(fault_action(loc, &lazy).unwrap(), FaultAction::WakeInvalid);
    }
    let eager = UffdConfig { stack_init: Disposition::Eager, heap_page_size: HeapPageSize::Host, ..lazy };
    assert!(matches!(
        fault_action(AddrLocation::Stack, &eager),
        Err(Error::InternalError("fault in eagerly initialized stack should be unreachable"))
    ));
    assert_eq!(fault_action(AddrLocation::Heap, &eager).unwrap(), FaultAction::FillHeap(HeapPageSize::Host));
}

#[test]
fn host_page_sized_heap_fault_fills_one_page() {
    let alloc = uffd_alloc(65536);
    let heap = alloc.slot().heap;
    let plan = HostPageSizedUffdStrategy.heap_fault_plan(&alloc, heap + 3 * PAGE);
    assert_eq!(plan, vec![HeapPage { pages_into_heap: 3, addr: heap + 3 * PAGE }]);
}

#[test]
fn wasm_page_sized_heap_fault_fills_the_wasm_page() {
    let alloc = uffd_alloc(2 * 65536);
    let heap = alloc.slot().heap;
    let plan = WasmPageSizedUffdStrategy.heap_fault_plan(&alloc, heap + 65536 + 5 * PAGE);
    assert_eq!(plan.len(), 16);
    for (i, p) in plan.iter().enumerate() {
        assert_eq!(p.pages_into_heap, 16 + i);
        assert_eq!(p.addr, heap + 65536 + i * PAGE);
    }
}

#[test]
fn wasm_page_sized_heap_fault_stops_at_end_of_heap() {
    // the accessible heap ends partway through the second wasm page
    let alloc = uffd_alloc(65536 + 4 * PAGE);
    let heap = alloc.slot().heap;
    let plan = WasmPageSizedUffdStrategy.heap_fault_plan(&alloc, heap + 65536 + 2 * PAGE);
    assert_eq!(plan.len(), 4);
    assert_eq!(plan[0], HeapPage { pages_into_heap: 16, addr: heap + 65536 });
    assert_eq!(plan[3], HeapPage { pages_into_heap: 19, addr: heap + 65536 + 3 * PAGE });
}

#[test]
fn areas_zeroed_at_creation() {
    let l = limits();
    let slot = uffd_slot_layout(0x100_0000, 0, &l);
    let lazy = UffdConfig::default();
    assert_eq!(
        zeroed_at_creation(&slot, &lazy),
        vec![(slot.globals, l.globals_size), (slot.sigstack, l.signal_stack_size)]
    );
    let eager = UffdConfig { stack_init: Disposition::Eager, ..lazy };
    assert_eq!(
        zeroed_at_creation(&slot, &eager),
        vec![
            (slot.globals, l.globals_size),
            (slot.sigstack, l.signal_stack_size),
            (slot.stack, l.stack_size)
        ]
    );
    let no_globals = uffd_slot_layout(0x100_0000, 0, &l.with_globals_size(0));
    assert_eq!(
        zeroed_at_creation(&no_globals, &lazy),
        vec![(no_globals.sigstack, l.signal_stack_size)]
    );
}
