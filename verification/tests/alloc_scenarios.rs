use lucet_runtime_internals::allocation::{
    validate_sigstack_size, Alloc, AllocStrategy, BuildProfile, Limits, RegionMemory, Slot,
    MINSIGSTKSZ,
};
use lucet_runtime_internals::error::Error;
use lucet_runtime_internals::mock::MockModuleBuilder;
use lucet_runtime_internals::module::{HeapSpec, ModuleInternal};
use lucet_runtime_internals::region::{mmap_slot_layout, uffd_region_size, Freelist};

const PAGE: usize = 4096;
const LIMITS_HEAP_MEM_SIZE: usize = 16 * 64 * 1024;
const LIMITS_HEAP_ADDRSPACE_SIZE: usize = 8 * 1024 * 1024;
const LIMITS_STACK_SIZE: usize = 64 * 1024;
const LIMITS_GLOBALS_SIZE: usize = 4 * 1024;

fn limits() -> Limits {
    Limits::default()
        .with_heap_memory_size(LIMITS_HEAP_MEM_SIZE)
        .with_heap_address_space_size(LIMITS_HEAP_ADDRSPACE_SIZE)
        .with_stack_size(LIMITS_STACK_SIZE)
        .with_globals_size(LIMITS_GLOBALS_SIZE)
}

const SPEC_HEAP_RESERVED_SIZE: u64 = LIMITS_HEAP_ADDRSPACE_SIZE as u64 / 2;
const SPEC_HEAP_GUARD_SIZE: u64 = LIMITS_HEAP_ADDRSPACE_SIZE as u64 / 2;
const ONEPAGE_INITIAL_SIZE: u64 = 64 * 1024;
const THREEPAGE_INITIAL_SIZE: u64 = 64 * 1024;
const THREEPAGE_MAX_SIZE: u64 = 3 * 64 * 1024;

fn heap(reserved: u64, guard: u64, initial: u64, max: Option<u64>) -> HeapSpec {
    HeapSpec {
        reserved_size: reserved,
        guard_size: guard,
        initial_size: initial,
        max_size: max.unwrap_or(0),
        max_size_valid: if max.is_some() { 1 } else { 0 },
    }
}

fn one_page_heap() -> HeapSpec {
    heap(SPEC_HEAP_RESERVED_SIZE, SPEC_HEAP_GUARD_SIZE, ONEPAGE_INITIAL_SIZE, Some(64 * 1024))
}

fn three_page_max_heap() -> HeapSpec {
    heap(SPEC_HEAP_RESERVED_SIZE, 0, THREEPAGE_INITIAL_SIZE, Some(THREEPAGE_MAX_SIZE))
}

struct NoopRegion;

impl RegionMemory for NoopRegion {
    fn expand_heap(&self, _slot: &Slot, _start: u32, _len: u32) -> Result<(), Error> {
        Ok(())
    }
    fn reset_heap(&self, _slot: &Slot, _accessible: usize, _initial: usize) -> Result<(), Error> {
        Ok(())
    }
}

/// A region of slots laid out from a fake base address, as `MmapRegion` lays them out.
struct TestRegion {
    limits: Limits,
    freelist: Freelist,
}

impl TestRegion {
    fn create(capacity: usize, limits: &Limits) -> Result<TestRegion, Error> {
        limits.validate()?;
        let mut freelist = Freelist::new(capacity);
        for i in 0..capacity {
            freelist.give_back(mmap_slot_layout(0x1000_0000 + i * limits.total_memory_size(), limits));
        }
        Ok(TestRegion { limits: *limits, freelist })
    }

    fn new_instance(&mut self, spec: HeapSpec) -> Result<Alloc, Error> {
        self.new_instance_with_limit(spec, self.limits.heap_memory_size)
    }

    fn new_instance_with_limit(&mut self, spec: HeapSpec, limit: usize) -> Result<Alloc, Error> {
        let module = MockModuleBuilder::new().with_heap_spec(spec).build();
        module.validate_runtime_spec(&self.limits, limit)?;
        let slot = self.freelist.take(&mut AllocStrategy::Linear)?;
        let mut alloc = Alloc {
            heap_accessible_size: 0,
            heap_inaccessible_size: self.limits.heap_address_space_size,
            heap_memory_size_limit: limit,
            slot: Some(slot),
            invalid_pages: Vec::new(),
        };
        alloc.reset_heap(spec.initial_size as usize, &NoopRegion)?;
        Ok(alloc)
    }

    fn drop_alloc(&mut self, mut alloc: Alloc) {
        self.freelist.give_back(alloc.slot.take().unwrap());
    }
}

fn expand_heap_once_template(spec: HeapSpec) {
    let mut region = TestRegion::create(1, &limits()).expect("region created");
    let mut alloc = region.new_instance(spec).expect("new_instance succeeds");
    let heap_len = alloc.heap_len();
    assert_eq!(heap_len, spec.initial_size as usize);
    let new_heap_area = alloc.expand_heap(64 * 1024, Some(spec), &NoopRegion).expect("expand_heap succeeds");
    assert_eq!(heap_len, new_heap_area as usize);
    assert_eq!(alloc.heap_len(), heap_len + 64 * 1024);
}

#[test]
fn expand_heap_once() {
    expand_heap_once_template(three_page_max_heap())
}

#[test]
fn guardless_expand_heap_once() {
    expand_heap_once_template(heap(SPEC_HEAP_RESERVED_SIZE, 0, ONEPAGE_INITIAL_SIZE, None))
}

#[test]
fn initial_empty_expand_heap_once() {
    expand_heap_once_template(heap(SPEC_HEAP_RESERVED_SIZE, SPEC_HEAP_GUARD_SIZE, 0, None))
}

#[test]
fn initial_empty_guardless_expand_heap_once() {
    expand_heap_once_template(heap(SPEC_HEAP_RESERVED_SIZE, 0, 0, None))
}

#[test]
fn expand_heap_twice() {
    let spec = three_page_max_heap();
    let mut region = TestRegion::create(1, &limits()).expect("region created");
    let mut alloc = region.new_instance(spec).expect("new_instance succeeds");
    let heap_len = alloc.heap_len();
    assert_eq!(heap_len, THREEPAGE_INITIAL_SIZE as usize);
    let new_heap_area = alloc.expand_heap(64 * 1024, Some(spec), &NoopRegion).unwrap();
    assert_eq!(heap_len, new_heap_area as usize);
    let new_heap_len = alloc.heap_len();
    assert_eq!(new_heap_len, heap_len + 64 * 1024);
    let second = alloc.expand_heap(64 * 1024, Some(spec), &NoopRegion).unwrap();
    assert_eq!(new_heap_len, second as usize);
    assert_eq!(alloc.heap_len() as u64, THREEPAGE_MAX_SIZE);
}

#[test]
fn expand_past_spec_max() {
    let spec = three_page_max_heap();
    let mut region = TestRegion::create(10, &limits()).expect("region created");
    let mut alloc = region.new_instance(spec).expect("new_instance succeeds");
    let heap_len = alloc.heap_len();
    assert!(alloc.expand_heap(THREEPAGE_MAX_SIZE as u32, Some(spec), &NoopRegion).is_err());
    assert_eq!(alloc.heap_len(), heap_len);
}

#[test]
fn expand_past_spec_max_with_custom_limit() {
    let spec = three_page_max_heap();
    let mut region = TestRegion::create(10, &limits()).expect("region created");
    let mut alloc = region
        .new_instance_with_limit(spec, THREEPAGE_INITIAL_SIZE as usize)
        .expect("new_instance succeeds");
    let heap_len = alloc.heap_len();
    assert_eq!(heap_len, THREEPAGE_INITIAL_SIZE as usize);
    let res = alloc.expand_heap((THREEPAGE_MAX_SIZE - THREEPAGE_INITIAL_SIZE) as u32, Some(spec), &NoopRegion);
    assert!(res.is_err(), "heap expansion past instance limit fails");
    assert_eq!(alloc.heap_len(), heap_len);
}

fn expand_past_limit_spec() -> HeapSpec {
    heap(
        SPEC_HEAP_RESERVED_SIZE,
        SPEC_HEAP_GUARD_SIZE,
        LIMITS_HEAP_MEM_SIZE as u64 - 64 * 1024,
        Some(LIMITS_HEAP_MEM_SIZE as u64 + 64 * 1024),
    )
}

#[test]
fn expand_past_heap_limit() {
    let spec = expand_past_limit_spec();
    let mut region = TestRegion::create(10, &limits()).expect("region created");
    let mut alloc = region.new_instance(spec).expect("new_instance succeeds");
    let heap_len = alloc.heap_len();
    let area = alloc.expand_heap(64 * 1024, Some(spec), &NoopRegion).expect("expand_heap succeeds");
    assert_eq!(heap_len, area as usize);
    assert_eq!(alloc.heap_len(), LIMITS_HEAP_MEM_SIZE);
    assert!(alloc.expand_heap(64 * 1024, Some(spec), &NoopRegion).is_err());
    assert_eq!(alloc.heap_len(), LIMITS_HEAP_MEM_SIZE);
}

#[test]
fn expand_past_instance_heap_limit() {
    let instance_limit = LIMITS_HEAP_MEM_SIZE / 2;
    let spec = HeapSpec { initial_size: instance_limit as u64 - 64 * 1024, ..expand_past_limit_spec() };
    assert_eq!(instance_limit % PAGE, 0);
    let mut region = TestRegion::create(10, &limits()).expect("region created");
    let mut alloc = region.new_instance_with_limit(spec, instance_limit).expect("instantiation succeeds");
    assert_eq!(alloc.heap_len(), spec.initial_size as usize);
    alloc.expand_heap(64 * 1024, Some(spec), &NoopRegion).expect("expand_heap succeeds");
    assert_eq!(alloc.heap_len(), instance_limit);
    assert!(alloc.expand_heap(64 * 1024, Some(spec), &NoopRegion).is_err());
    assert_eq!(alloc.heap_len(), instance_limit);
}

#[test]
fn reject_initial_oversize_heap() {
    let mut region = TestRegion::create(10, &limits()).expect("region created");
    let spec = heap(SPEC_HEAP_RESERVED_SIZE, SPEC_HEAP_GUARD_SIZE, SPEC_HEAP_RESERVED_SIZE + 64 * 1024, None);
    assert!(region.new_instance(spec).is_err(), "new_instance fails");
}

#[test]
fn reject_undersized_address_space() {
    let l = limits().with_heap_memory_size(LIMITS_HEAP_ADDRSPACE_SIZE + 4096);
    assert!(TestRegion::create(10, &l).is_err(), "region creation fails");
    assert!(uffd_region_size(10, &l).is_err());
}

#[test]
fn accept_small_guard_heap() {
    let mut region = TestRegion::create(1, &limits()).expect("region created");
    let spec = heap(SPEC_HEAP_RESERVED_SIZE, SPEC_HEAP_GUARD_SIZE - 1, LIMITS_HEAP_MEM_SIZE as u64, None);
    region.new_instance(spec).expect("new_instance succeeds");
}

#[test]
fn reject_large_guard_heap() {
    let mut region = TestRegion::create(1, &limits()).expect("region created");
    let spec = heap(SPEC_HEAP_RESERVED_SIZE, SPEC_HEAP_GUARD_SIZE + 1, ONEPAGE_INITIAL_SIZE, None);
    assert!(region.new_instance(spec).is_err(), "new_instance fails");
}

#[test]
fn alloc_reset() {
    let spec = three_page_max_heap();
    let mut region = TestRegion::create(1, &limits()).expect("region created");
    let mut alloc = region.new_instance(spec).expect("new_instance succeeds");
    assert_eq!(alloc.heap_len(), THREEPAGE_INITIAL_SIZE as usize);
    alloc.reset_heap(spec.initial_size as usize, &NoopRegion).expect("reset succeeds");
    assert_eq!(alloc.heap_len(), THREEPAGE_INITIAL_SIZE as usize);
}

#[test]
fn alloc_grow_reset() {
    let spec = three_page_max_heap();
    let mut region = TestRegion::create(1, &limits()).expect("region created");
    let mut alloc = region.new_instance(spec).expect("new_instance succeeds");
    let heap_len = alloc.heap_len();
    let area = alloc
        .expand_heap((THREEPAGE_MAX_SIZE - THREEPAGE_INITIAL_SIZE) as u32, Some(spec), &NoopRegion)
        .expect("expand_heap succeeds");
    assert_eq!(heap_len, area as usize);
    assert_eq!(alloc.heap_len(), THREEPAGE_MAX_SIZE as usize);
    alloc.reset_heap(spec.initial_size as usize, &NoopRegion).expect("reset succeeds");
    assert_eq!(alloc.heap_len(), THREEPAGE_INITIAL_SIZE as usize);
    assert_eq!(alloc.heap_inaccessible_size, LIMITS_HEAP_ADDRSPACE_SIZE - THREEPAGE_INITIAL_SIZE as usize);
}

#[test]
fn badly_specced_instance_does_not_take_up_capacity() {
    let mut region = TestRegion::create(2, &limits()).expect("region created");
    assert_eq!(region.freelist.capacity(), 2);
    assert_eq!(region.freelist.free_slots(), 2);
    assert_eq!(region.freelist.used_slots(), 0);
    let large_guard = heap(SPEC_HEAP_RESERVED_SIZE, SPEC_HEAP_GUARD_SIZE + 1, ONEPAGE_INITIAL_SIZE, None);
    assert!(region.new_instance(large_guard).is_err());
    assert_eq!(region.freelist.free_slots(), 2);
    assert_eq!(region.freelist.used_slots(), 0);
}

#[test]
fn slot_counts_work() {
    let mut region = TestRegion::create(2, &limits()).expect("region created");
    assert_eq!(region.freelist.free_slots(), 2);
    let inst1 = region.new_instance(one_page_heap()).expect("new_instance succeeds");
    assert_eq!(region.freelist.free_slots(), 1);
    assert_eq!(region.freelist.used_slots(), 1);
    let inst2 = region.new_instance(one_page_heap()).expect("new_instance succeeds");
    assert_eq!(region.freelist.free_slots(), 0);
    assert_eq!(region.freelist.used_slots(), 2);
    assert!(matches!(region.new_instance(one_page_heap()), Err(Error::RegionFull(2))));
    region.drop_alloc(inst1);
    assert_eq!(region.freelist.free_slots(), 1);
    assert_eq!(region.freelist.used_slots(), 1);
    region.drop_alloc(inst2);
    assert_eq!(region.freelist.free_slots(), 2);
    assert_eq!(region.freelist.used_slots(), 0);
    assert_eq!(region.freelist.capacity(), 2);
}

#[test]
fn reject_sigstack_smaller_than_min() {
    let size = ((MINSIGSTKSZ - 1) / PAGE) * PAGE;
    let l = Limits::default().with_signal_stack_size(size);
    assert!(l.validate().is_ok());
    assert!(matches!(
        validate_sigstack_size(l.signal_stack_size, BuildProfile::Release),
        Err(Error::InvalidArgument("signal stack size must be at least MINSIGSTKSZ (defined in <signal.h>)"))
    ));
}

#[test]
fn reject_debug_sigstack_smaller_than_12kib() {
    assert!(matches!(
        validate_sigstack_size(8192, BuildProfile::Debug),
        Err(Error::InvalidArgument("signal stack size must be at least 12KiB for debug builds"))
    ));
}

#[test]
fn reject_unaligned_sigstack() {
    let l = Limits::default().with_signal_stack_size(12 * 1024 + 1);
    assert!(matches!(
        TestRegion::create(1, &l),
        Err(Error::InvalidArgument("signal stack size must be a multiple of host page size"))
    ));
}

#[test]
fn reject_heap_memory_size_exceeds_region_limits() {
    let mut region = TestRegion::create(1, &limits()).expect("region created");
    assert!(matches!(
        region.new_instance_with_limit(three_page_max_heap(), LIMITS_HEAP_MEM_SIZE * 2),
        Err(Error::InvalidArgument("heap memory size requested for instance is larger than slot allows"))
    ));
}

#[test]
fn custom_size_does_not_break_default() {
    let mut region = TestRegion::create(1, &limits()).expect("region created");
    let spec = three_page_max_heap();
    let custom = region
        .new_instance_with_limit(spec, (spec.initial_size * 2) as usize)
        .expect("new instance succeeds");
    assert_eq!(custom.heap_len(), spec.initial_size as usize);
    region.drop_alloc(custom);
    let small_guard = heap(SPEC_HEAP_RESERVED_SIZE, SPEC_HEAP_GUARD_SIZE - 1, LIMITS_HEAP_MEM_SIZE as u64, None);
    let default = region.new_instance(small_guard).expect("new_instance succeeds");
    assert_eq!(default.heap_len(), LIMITS_HEAP_MEM_SIZE);
}

#[test]
fn reject_heap_memory_size_exeeds_instance_limits() {
    let mut region = TestRegion::create(1, &limits()).expect("region created");
    let spec = three_page_max_heap();
    assert!(region.new_instance_with_limit(spec, (spec.initial_size / 2) as usize).is_err());
}

#[test]
fn too_many_globals_are_rejected() {
    let l = limits();
    let mut builder = MockModuleBuilder::new();
    for i in 0..(LIMITS_GLOBALS_SIZE / 8) as u32 {
        builder = builder.with_global(i, i as i64);
    }
    let fits = builder.with_global(0, 0).build();
    assert!(fits.validate_runtime_spec(&l, l.heap_memory_size).is_ok());
    let mut builder = MockModuleBuilder::new();
    for i in 0..(LIMITS_GLOBALS_SIZE / 8 + 1) as u32 {
        builder = builder.with_global(i, 0);
    }
    assert!(matches!(
        builder.build().validate_runtime_spec(&l, l.heap_memory_size),
        Err(Error::LimitsExceeded("globals exceed the globals size limit"))
    ));
}
