//! The memory of instances: runtime limits, the layout of an instance slot, where an address
//! falls in it, growing and resetting the heap, and the choice of a slot for a new instance.
use vstd::prelude::*;

use crate::error::Error;
use crate::module::HeapSpec;

verus! {

/// The size of a WebAssembly page.
pub const WASM_PAGE_SIZE: u32 = 64 * 1024;

/// The page size of the supported host, Linux on x86-64.
pub const HOST_PAGE_SIZE_EXPECTED: usize = 4096;

/// The minimum signal stack size on Linux (`MINSIGSTKSZ` in `<signal.h>`).
pub const MINSIGSTKSZ: usize = 2048;

/// The default signal stack size on Linux (`SIGSTKSZ` in `<signal.h>`).
pub const SIGSTKSZ: usize = 8192;

/// The smallest signal stack that the runtime's signal handler can use in builds without
/// optimizations.
pub const DEBUG_MIN_SIGNAL_STACK_SIZE: usize = 12 * 1024;

/// The recommended size of a signal handler stack for an instance, used by `Limits::default()`:
/// `SIGSTKSZ`, the size for builds with optimizations, as this library is built. Builds without
/// optimizations need `default_signal_stack_size(BuildProfile::Debug)`, which is larger.
pub const DEFAULT_SIGNAL_STACK_SIZE: usize = 8192;

/// The recommended size of a signal handler stack for an instance in a build of the given
/// profile: `SIGSTKSZ` for builds with optimizations, and `SIGSTKSZ` or 12KiB, whichever is
/// greater, for builds without, whose signal handler uses much more stack.
pub fn default_signal_stack_size(profile: BuildProfile) -> (r: usize)
    ensures
        profile == BuildProfile::Release ==> r == SIGSTKSZ,
        profile == BuildProfile::Debug ==> r == if SIGSTKSZ >= DEBUG_MIN_SIGNAL_STACK_SIZE {
            SIGSTKSZ
        } else {
            DEBUG_MIN_SIGNAL_STACK_SIZE
        },
{
    match profile {
        BuildProfile::Release => SIGSTKSZ,
        BuildProfile::Debug => if SIGSTKSZ >= DEBUG_MIN_SIGNAL_STACK_SIZE {
            SIGSTKSZ
        } else {
            DEBUG_MIN_SIGNAL_STACK_SIZE
        },
    }
}

/// The host page size.
///
/// The runtime only supports hosts with a 4KiB page; the embedding checks the host's actual page
/// size when it starts.
pub fn host_page_size() -> (r: usize)
    ensures
        r == HOST_PAGE_SIZE_EXPECTED,
{
    HOST_PAGE_SIZE_EXPECTED
}

/// The offset of the heap from the start of an instance slot: one host page, which holds the
/// `Instance` structure.
pub fn instance_heap_offset() -> (r: usize)
    ensures
        r == HOST_PAGE_SIZE_EXPECTED,
{
    1 * host_page_size()
}

/// The kind of build the runtime is part of; builds without optimizations need a larger signal
/// stack.
#[derive(Copy, Clone, Debug, PartialEq, Eq, Structural)]
pub enum BuildProfile {
    Debug,
    Release,
}

/// Runtime limits for the various memories that back an instance.
///
/// Each value is specified in bytes. The sizes of memory regions must be evenly divisible by the
/// host page size (4K); the hostcall reservation is an amount of the guest stack rather than a
/// region of its own, and any amount up to the stack size is accepted.
#[derive(Clone, Copy, Debug)]
pub struct Limits {
    /// Max size of the heap, which can be backed by real memory. (default 1M)
    pub heap_memory_size: usize,
    /// Size of total virtual memory. (default 8G)
    pub heap_address_space_size: usize,
    /// Size of the guest stack. (default 128K)
    pub stack_size: usize,
    /// Amount of the guest stack that must be available for hostcalls. (default 32K)
    pub hostcall_reservation: usize,
    /// Size of the globals region in bytes; each global uses 8 bytes. (default 4K)
    pub globals_size: usize,
    /// Size of the signal stack in bytes. (default `DEFAULT_SIGNAL_STACK_SIZE`)
    pub signal_stack_size: usize,
}

impl Limits {
    /// The default limits.
    pub fn default() -> (r: Limits)
        ensures
            r.heap_memory_size == 16 * 64 * 1024,
            r.heap_address_space_size == 0x0002_0000_0000u64 as usize,
            r.stack_size == 128 * 1024,
            r.hostcall_reservation == 32 * 1024,
            r.globals_size == 4096,
            r.signal_stack_size == DEFAULT_SIGNAL_STACK_SIZE,
    {
        Limits {
            heap_memory_size: 16 * 64 * 1024,
            heap_address_space_size: 0x0002_0000_0000u64 as usize,
            stack_size: 128 * 1024,
            hostcall_reservation: 32 * 1024,
            globals_size: 4096,
            signal_stack_size: DEFAULT_SIGNAL_STACK_SIZE,
        }
    }

    pub fn with_heap_memory_size(self, heap_memory_size: usize) -> (r: Self)
        ensures
            r == (Limits { heap_memory_size, ..self }),
    {
        let mut s = self;
        s.heap_memory_size = heap_memory_size;
        s
    }

    pub fn with_heap_address_space_size(self, heap_address_space_size: usize) -> (r: Self)
        ensures
            r == (Limits { heap_address_space_size, ..self }),
    {
        let mut s = self;
        s.heap_address_space_size = heap_address_space_size;
        s
    }

    pub fn with_stack_size(self, stack_size: usize) -> (r: Self)
        ensures
            r == (Limits { stack_size, ..self }),
    {
        let mut s = self;
        s.stack_size = stack_size;
        s
    }

    pub fn with_hostcall_reservation(self, hostcall_reservation: usize) -> (r: Self)
        ensures
            r == (Limits { hostcall_reservation, ..self }),
    {
        let mut s = self;
        s.hostcall_reservation = hostcall_reservation;
        s
    }

    pub fn with_globals_size(self, globals_size: usize) -> (r: Self)
        ensures
            r == (Limits { globals_size, ..self }),
    {
        let mut s = self;
        s.globals_size = globals_size;
        s
    }

    pub fn with_signal_stack_size(self, signal_stack_size: usize) -> (r: Self)
        ensures
            r == (Limits { signal_stack_size, ..self }),
    {
        let mut s = self;
        s.signal_stack_size = signal_stack_size;
        s
    }

    /// The size of the virtual memory of one instance slot: the instance page, the heap address
    /// space, a guard page, the stack, the globals, a guard page, and the signal stack.
    pub open spec fn total_memory_size_spec(self) -> int {
        HOST_PAGE_SIZE_EXPECTED + self.heap_address_space_size + HOST_PAGE_SIZE_EXPECTED
            + self.stack_size + self.globals_size + HOST_PAGE_SIZE_EXPECTED
            + self.signal_stack_size
    }

    pub fn total_memory_size(&self) -> (r: usize)
        requires
            self.total_memory_size_spec() <= usize::MAX,
        ensures
            r == self.total_memory_size_spec(),
    {
        let page = host_page_size();
        instance_heap_offset() + self.heap_address_space_size + page + self.stack_size
            + self.globals_size + page + self.signal_stack_size
    }

    /// The size of the virtual memory of one instance slot, or `None` when it does not fit in a
    /// `usize`.
    pub fn checked_total_memory_size(&self) -> (r: Option<usize>)
        ensures
            r matches Some(n) ==> n == self.total_memory_size_spec(),
            r is None <==> self.total_memory_size_spec() > usize::MAX,
    {
        let page = host_page_size();
        let mut total: usize = instance_heap_offset();
        total = match total.checked_add(self.heap_address_space_size) {
            Some(t) => t,
            None => return None,
        };
        total = match total.checked_add(page) {
            Some(t) => t,
            None => return None,
        };
        total = match total.checked_add(self.stack_size) {
            Some(t) => t,
            None => return None,
        };
        total = match total.checked_add(self.globals_size) {
            Some(t) => t,
            None => return None,
        };
        total = match total.checked_add(page) {
            Some(t) => t,
            None => return None,
        };
        total.checked_add(self.signal_stack_size)
    }

    /// The first rule of `validate` that these limits break, if any.
    pub open spec fn validation_failure(self) -> Option<&'static str> {
        if self.heap_memory_size % HOST_PAGE_SIZE_EXPECTED != 0 {
            Some("memory size must be a multiple of host page size")
        } else if self.heap_address_space_size % HOST_PAGE_SIZE_EXPECTED != 0 {
            Some("address space size must be a multiple of host page size")
        } else if self.heap_memory_size > self.heap_address_space_size {
            Some("address space size must be at least as large as memory size")
        } else if self.stack_size % HOST_PAGE_SIZE_EXPECTED != 0 {
            Some("stack size must be a multiple of host page size")
        } else if self.globals_size % HOST_PAGE_SIZE_EXPECTED != 0 {
            Some("globals size must be a multiple of host page size")
        } else if self.stack_size <= 0 {
            Some("stack size must be greater than 0")
        } else if self.hostcall_reservation > self.stack_size {
            Some("hostcall reserved space must not be greater than stack size")
        } else if self.signal_stack_size % HOST_PAGE_SIZE_EXPECTED != 0 {
            Some("signal stack size must be a multiple of host page size")
        } else {
            None
        }
    }

    /// Validate that the memory regions are aligned to page sizes, that the stack is not empty, and
    /// that the hostcall reservation fits in the stack.
    pub fn validate(&self) -> (r: Result<(), Error>)
        ensures
            r is Ok <==> self.validation_failure() is None,
            r matches Err(e) ==> self.validation_failure() matches Some(m) && e
                == Error::InvalidArgument(m),
    {
        let page = host_page_size();
        if self.heap_memory_size % page != 0 {
            return Err(Error::InvalidArgument("memory size must be a multiple of host page size"));
        }
        if self.heap_address_space_size % page != 0 {
            return Err(
                Error::InvalidArgument("address space size must be a multiple of host page size"),
            );
        }
        if self.heap_memory_size > self.heap_address_space_size {
            return Err(
                Error::InvalidArgument(
                    "address space size must be at least as large as memory size",
                ),
            );
        }
        if self.stack_size % page != 0 {
            return Err(Error::InvalidArgument("stack size must be a multiple of host page size"));
        }
        if self.globals_size % page != 0 {
            return Err(Error::InvalidArgument("globals size must be a multiple of host page size"));
        }
        if self.stack_size <= 0 {
            return Err(Error::InvalidArgument("stack size must be greater than 0"));
        }
        // A reservation equal to the stack size is allowed; it makes every hostcall fail with a
        // stack overflow.
        if self.hostcall_reservation > self.stack_size {
            return Err(
                Error::InvalidArgument(
                    "hostcall reserved space must not be greater than stack size",
                ),
            );
        }
        if self.signal_stack_size % page != 0 {
            return Err(
                Error::InvalidArgument("signal stack size must be a multiple of host page size"),
            );
        }
        Ok(())
    }
}

/// The first rule that a signal stack of the given size breaks, if any.
pub open spec fn sigstack_size_failure(signal_stack_size: usize, profile: BuildProfile) -> Option<
    &'static str,
> {
    if signal_stack_size < MINSIGSTKSZ {
        Some("signal stack size must be at least MINSIGSTKSZ (defined in <signal.h>)")
    } else if profile == BuildProfile::Debug && signal_stack_size < DEBUG_MIN_SIGNAL_STACK_SIZE {
        Some("signal stack size must be at least 12KiB for debug builds")
    } else {
        None
    }
}

/// Check that a signal stack is large enough for the runtime's signal handler.
pub fn validate_sigstack_size(signal_stack_size: usize, profile: BuildProfile) -> (r: Result<
    (),
    Error,
>)
    ensures
        r is Ok <==> sigstack_size_failure(signal_stack_size, profile) is None,
        r matches Err(e) ==> sigstack_size_failure(signal_stack_size, profile) matches Some(m)
            && e == Error::InvalidArgument(m),
{
    if signal_stack_size < MINSIGSTKSZ {
        return Err(
            Error::InvalidArgument(
                "signal stack size must be at least MINSIGSTKSZ (defined in <signal.h>)",
            ),
        );
    }
    if profile == BuildProfile::Debug && signal_stack_size < DEBUG_MIN_SIGNAL_STACK_SIZE {
        return Err(
            Error::InvalidArgument("signal stack size must be at least 12KiB for debug builds"),
        );
    }
    Ok(())
}


/// The address space of one instance: pointers (as addresses) into the virtual memory that backs
/// an `Alloc`.
///
/// The first part of the memory, at `start`, holds the `Instance` structure. The heap and its guard
/// pages follow; the stack comes after the heap, so that stack overflows run into guard pages;
/// the globals follow the stack and a guard page, and the signal stack follows the globals and
/// another guard page.
#[derive(Clone, Copy, Debug)]
pub struct Slot {
    pub start: usize,
    pub heap: usize,
    pub stack: usize,
    pub globals: usize,
    pub sigstack: usize,
    /// Limits of the memory; they do not change through the lifetime of the `Alloc`.
    pub limits: Limits,
}

impl Slot {
    /// The regions of the slot, and the guard pages below the stack and the signal stack, lie
    /// inside the address space.
    pub open spec fn in_address_space(self) -> bool {
        &&& self.heap + self.limits.heap_address_space_size <= usize::MAX
        &&& self.stack >= HOST_PAGE_SIZE_EXPECTED
        &&& self.stack + self.limits.stack_size <= usize::MAX
        &&& self.globals + self.limits.globals_size <= usize::MAX
        &&& self.sigstack >= HOST_PAGE_SIZE_EXPECTED
        &&& self.sigstack + self.limits.signal_stack_size <= usize::MAX
    }

    /// The highest address of the stack, where it starts growing down from.
    pub fn stack_top(&self) -> (r: usize)
        requires
            self.stack + self.limits.stack_size <= usize::MAX,
        ensures
            r == self.stack + self.limits.stack_size,
    {
        self.stack + self.limits.stack_size
    }

    /// Where an address falls in this slot, when the first `heap_accessible_size` bytes of the heap
    /// are accessible.
    pub open spec fn locate(self, heap_accessible_size: int, addr: int) -> AddrLocation {
        let heap_inaccessible_start = self.heap + heap_accessible_size;
        let heap_inaccessible_end = self.heap + self.limits.heap_address_space_size;
        let stack_end = self.stack + self.limits.stack_size;
        let stack_guard_start = self.stack - HOST_PAGE_SIZE_EXPECTED;
        let globals_end = self.globals + self.limits.globals_size;
        let sigstack_end = self.sigstack + self.limits.signal_stack_size;
        let sigstack_guard_start = self.sigstack - HOST_PAGE_SIZE_EXPECTED;
        if self.heap <= addr < heap_inaccessible_start {
            AddrLocation::Heap
        } else if heap_inaccessible_start <= addr < heap_inaccessible_end {
            AddrLocation::InaccessibleHeap
        } else if stack_guard_start <= addr < self.stack {
            AddrLocation::StackGuard
        } else if self.stack <= addr < stack_end {
            AddrLocation::Stack
        } else if self.globals <= addr < globals_end {
            AddrLocation::Globals
        } else if sigstack_guard_start <= addr < self.sigstack {
            AddrLocation::SigStackGuard
        } else if self.sigstack <= addr < sigstack_end {
            AddrLocation::SigStack
        } else {
            AddrLocation::Unknown
        }
    }
}

/// Where in an `Alloc` an address falls.
#[derive(Clone, Copy, Debug, PartialEq, Eq, Structural)]
pub enum AddrLocation {
    Heap,
    InaccessibleHeap,
    StackGuard,
    Stack,
    Globals,
    SigStackGuard,
    SigStack,
    Unknown,
}

impl AddrLocation {
    /// If a fault occurs in this location, is it fatal to the entire process?
    ///
    /// This is a permissive baseline that only returns true for unknown locations and the signal
    /// stack guard, in case a region uses faults to populate the accessible locations like the heap
    /// and the globals.
    pub fn is_fault_fatal(self) -> (r: bool)
        ensures
            r <==> (self == AddrLocation::SigStackGuard || self == AddrLocation::Unknown),
    {
        match self {
            AddrLocation::SigStackGuard | AddrLocation::Unknown => true,
            _ => false,
        }
    }
}

/// Memory operations that a region performs on the slots it owns.
pub trait RegionMemory {
    /// Make the `len` bytes of the heap that start `start` bytes into it accessible.
    fn expand_heap(&self, slot: &Slot, start: u32, len: u32) -> Result<(), Error>;

    /// Clear the heap of `slot`, whose first `accessible_size` bytes are accessible, and make its
    /// first `initial_size` bytes accessible and initialized.
    fn reset_heap(&self, slot: &Slot, accessible_size: usize, initial_size: usize) -> Result<
        (),
        Error,
    >;
}

/// The bookkeeping of the memory that backs an instance.
pub struct Alloc {
    pub heap_accessible_size: usize,
    pub heap_inaccessible_size: usize,
    pub heap_memory_size_limit: usize,
    pub slot: Option<Slot>,
    /// Pages whose access was made to fault on the next retry, as (address, length).
    pub invalid_pages: Vec<(usize, usize)>,
}

/// The result of a successful heap expansion: the new sizes of the accessible and inaccessible
/// parts of the heap.
pub open spec fn expanded(alloc: Alloc, by: int) -> (int, int) {
    (alloc.heap_accessible_size + by, alloc.heap_inaccessible_size - by)
}

/// `x` rounded up to a multiple of the host page size.
pub open spec fn page_align_up(x: int) -> int {
    ((x + HOST_PAGE_SIZE_EXPECTED - 1) / (HOST_PAGE_SIZE_EXPECTED as int)) * HOST_PAGE_SIZE_EXPECTED
}

impl Alloc {
    /// The slot is present, lies in the address space, and the accessible and inaccessible parts
    /// of the heap make up its address space.
    pub open spec fn wf(self) -> bool {
        &&& self.slot is Some
        &&& self.slot->0.in_address_space()
        &&& self.heap_accessible_size + self.heap_inaccessible_size
            == self.slot->0.limits.heap_address_space_size
    }

    /// The slot backing this allocation.
    pub fn slot(&self) -> (r: &Slot)
        requires
            self.slot is Some,
        ensures
            *r == self.slot->0,
    {
        self.slot.as_ref().unwrap()
    }

    pub fn heap_len(&self) -> (r: usize)
        ensures
            r == self.heap_accessible_size,
    {
        self.heap_accessible_size
    }

    /// Where in this allocation a particular address falls.
    pub fn addr_location(&self, addr: usize) -> (r: AddrLocation)
        requires
            self.wf(),
        ensures
            r == self.slot->0.locate(self.heap_accessible_size as int, addr as int),
    {
        let slot = self.slot();
        let page = host_page_size();
        let heap_start = slot.heap;
        let heap_inaccessible_start = heap_start + self.heap_accessible_size;
        let heap_inaccessible_end = heap_start + slot.limits.heap_address_space_size;

        if addr >= heap_start && addr < heap_inaccessible_start {
            return AddrLocation::Heap;
        }
        if addr >= heap_inaccessible_start && addr < heap_inaccessible_end {
            return AddrLocation::InaccessibleHeap;
        }

        let stack_start = slot.stack;
        let stack_end = stack_start + slot.limits.stack_size;
        let stack_guard_start = stack_start - page;

        if addr >= stack_guard_start && addr < stack_start {
            return AddrLocation::StackGuard;
        }
        if addr >= stack_start && addr < stack_end {
            return AddrLocation::Stack;
        }

        let globals_start = slot.globals;
        let globals_end = globals_start + slot.limits.globals_size;

        if addr >= globals_start && addr < globals_end {
            return AddrLocation::Globals;
        }

        let sigstack_start = slot.sigstack;
        let sigstack_end = sigstack_start + slot.limits.signal_stack_size;
        let sigstack_guard_start = sigstack_start - page;

        if addr >= sigstack_guard_start && addr < sigstack_start {
            return AddrLocation::SigStackGuard;
        }
        if addr >= sigstack_start && addr < sigstack_end {
            return AddrLocation::SigStack;
        }

        AddrLocation::Unknown
    }

    /// Does the range of `len` bytes at `ptr` lie inside the accessible heap?
    pub fn mem_in_heap(&self, ptr: usize, len: usize) -> (r: bool)
        requires
            self.wf(),
            ptr + len <= usize::MAX,
        ensures
            r == ({
                let heap_start = self.slot->0.heap;
                let heap_end = heap_start + self.heap_accessible_size;
                &&& heap_start <= ptr < heap_end
                &&& heap_start <= ptr + len <= heap_end
            }),
    {
        let start = ptr;
        let end = start + len;

        let heap_start = self.slot().heap;
        let heap_end = heap_start + self.heap_accessible_size;

        start <= end && start >= heap_start && start < heap_end && end >= heap_start && end
            <= heap_end
    }

    /// The reason an expansion of the heap by `expand_bytes` is refused before the region is
    /// asked to back it, if it is; `None` when the region is asked.
    pub open spec fn expansion_refusal(self, expand_bytes: u32, heap_spec: Option<HeapSpec>) -> Option<Error> {
        let aligned = page_align_up(expand_bytes as int);
        if (self.heap_accessible_size as u32) % (HOST_PAGE_SIZE_EXPECTED as u32) != 0 {
            Some(Error::InternalError("heap is not page-aligned; this is a bug"))
        } else if expand_bytes > u32::MAX - HOST_PAGE_SIZE_EXPECTED - 1 {
            Some(Error::LimitsExceeded("expanded heap would overflow address space"))
        } else if aligned > self.heap_inaccessible_size {
            Some(Error::LimitsExceeded("expanded heap would overflow addressable memory"))
        } else if heap_spec is None {
            Some(Error::NoLinearMemory("cannot expand heap"))
        } else if self.heap_inaccessible_size - aligned < (heap_spec->0.guard_size as usize) {
            Some(Error::LimitsExceeded("expansion would leave guard memory too small"))
        } else if heap_spec->0.max_size_spec() matches Some(max_size) && self.heap_accessible_size
            + aligned > (max_size as usize) {
            Some(Error::LimitsExceeded("expansion would exceed module-specified heap limit"))
        } else if self.heap_accessible_size + aligned > self.heap_memory_size_limit {
            Some(Error::LimitsExceeded("expansion would exceed runtime-specified heap limit"))
        } else {
            None
        }
    }
}

impl Alloc {
    /// What an expansion of the heap by `expand_bytes` asks of the region: the offset into the heap
    /// and the length of the pages to make accessible, or the error refusing it.
    pub open spec fn expansion_request_spec(self, expand_bytes: u32, heap_spec: Option<HeapSpec>) -> Result<
        (u32, u32),
        Error,
    > {
        match self.expansion_refusal(expand_bytes, heap_spec) {
            Some(e) => Err(e),
            None => Ok(
                (self.heap_accessible_size as u32, page_align_up(expand_bytes as int) as u32),
            ),
        }
    }

    /// Check an expansion of the heap by `expand_bytes` against the heap's layout, the module's
    /// heap specification and the runtime limits, and compute the pages the region must make
    /// accessible: they start where the accessible heap ends, and span `expand_bytes` rounded up
    /// to a whole number of host pages.
    pub fn expansion_request(&self, expand_bytes: u32, heap_spec: Option<HeapSpec>) -> (r: Result<
        (u32, u32),
        Error,
    >)
        requires
            self.wf(),
        ensures
            r == self.expansion_request_spec(expand_bytes, heap_spec),
    {
        let host_page_size = host_page_size() as u32;

        if self.heap_accessible_size as u32 % host_page_size != 0 {
            return Err(Error::InternalError("heap is not page-aligned; this is a bug"));
        }
        if expand_bytes > u32::MAX - host_page_size - 1 {
            return Err(Error::LimitsExceeded("expanded heap would overflow address space"));
        }
        // round the expansion up to a page boundary
        let rounded = expand_bytes + host_page_size - 1;
        assert((rounded / 4096) * 4096 <= rounded) by (nonlinear_arith);
        let expand_pagealigned = (rounded / host_page_size) * host_page_size;
        assert(expand_pagealigned == page_align_up(expand_bytes as int));

        // `heap_inaccessible_size` tracks the part of the allocation that is addressable but not
        // accessible; the expansion cannot be larger than it.
        if expand_pagealigned as usize > self.heap_inaccessible_size {
            return Err(Error::LimitsExceeded("expanded heap would overflow addressable memory"));
        }
        let guard_remaining = self.heap_inaccessible_size - expand_pagealigned as usize;

        match heap_spec {
            Some(spec) => {
                // The compiler specifies how much guard memory must remain beyond the end of the
                // accessible memory.
                if guard_remaining < spec.guard_size as usize {
                    return Err(
                        Error::LimitsExceeded("expansion would leave guard memory too small"),
                    );
                }
                // The module may specify a maximum memory size.
                if let Some(max_size) = spec.max_size() {
                    if self.heap_accessible_size + expand_pagealigned as usize > max_size as usize {
                        return Err(
                            Error::LimitsExceeded(
                                "expansion would exceed module-specified heap limit",
                            ),
                        );
                    }
                }
            },
            None => {
                return Err(Error::NoLinearMemory("cannot expand heap"));
            },
        }
        // The runtime limits how much of the heap can be backed by real memory.
        if self.heap_accessible_size + expand_pagealigned as usize > self.heap_memory_size_limit {
            return Err(
                Error::LimitsExceeded("expansion would exceed runtime-specified heap limit"),
            );
        }
        Ok((self.heap_accessible_size as u32, expand_pagealigned))
    }

    /// Record the outcome of the region's attempt to make `len` more bytes of the heap accessible:
    /// when it succeeded, the accessible heap grows by `len` and the accessible size before the
    /// expansion is returned; when it failed, nothing changes and its error is returned.
    pub fn apply_expansion(&mut self, len: u32, region_result: Result<(), Error>) -> (r: Result<
        u32,
        Error,
    >)
        requires
            old(self).wf(),
            len <= old(self).heap_inaccessible_size,
        ensures
            final(self).wf(),
            final(self).slot == old(self).slot,
            final(self).heap_memory_size_limit == old(self).heap_memory_size_limit,
            final(self).invalid_pages == old(self).invalid_pages,
            region_result is Ok ==> {
                &&& r == Ok::<u32, Error>(old(self).heap_accessible_size as u32)
                &&& (final(self).heap_accessible_size as int, final(self).heap_inaccessible_size as int)
                    == expanded(*old(self), len as int)
            },
            region_result matches Err(e) ==> r == Err::<u32, Error>(e) && *final(self) == *old(self),
    {
        match region_result {
            Ok(()) => {},
            Err(e) => {
                return Err(e);
            },
        }
        let newly_accessible = self.heap_accessible_size;
        self.heap_accessible_size = self.heap_accessible_size + len as usize;
        self.heap_inaccessible_size = self.heap_inaccessible_size - len as usize;
        Ok(newly_accessible as u32)
    }

    /// Grow the accessible heap by `expand_bytes`, rounded up to a whole number of host pages.
    ///
    /// `heap_spec` is the heap specification of the module the instance runs, if it has a linear
    /// memory; `region` backs the newly accessible pages, the ones `expansion_request` computes.
    /// On success, returns the accessible size of the heap before the expansion. Whether the
    /// region manages to back the pages depends on the host; whatever it answers is recorded by
    /// `apply_expansion`.
    pub fn expand_heap<R: RegionMemory>(
        &mut self,
        expand_bytes: u32,
        heap_spec: Option<HeapSpec>,
        region: &R,
    ) -> (r: Result<u32, Error>)
        requires
            old(self).wf(),
        ensures
            final(self).wf(),
            final(self).slot == old(self).slot,
            final(self).heap_memory_size_limit == old(self).heap_memory_size_limit,
            final(self).invalid_pages == old(self).invalid_pages,
            expand_bytes == 0 ==> r == Ok::<u32, Error>(old(self).heap_accessible_size as u32),
            expand_bytes != 0 ==> (old(self).expansion_request_spec(expand_bytes, heap_spec) matches Err(
                e,
            ) ==> r == Err::<u32, Error>(e)),
            r is Ok && expand_bytes != 0 ==> {
                &&& old(self).expansion_request_spec(expand_bytes, heap_spec) matches Ok((start, len))
                &&& r == Ok::<u32, Error>(start)
                &&& (final(self).heap_accessible_size as int, final(self).heap_inaccessible_size as int)
                    == expanded(*old(self), len as int)
            },
            r is Err || expand_bytes == 0 ==> *final(self) == *old(self),
    {
        if expand_bytes == 0 {
            // no expansion takes place, which is not an error
            return Ok(self.heap_accessible_size as u32);
        }
        let (start, len) = match self.expansion_request(expand_bytes, heap_spec) {
            Ok(request) => request,
            Err(e) => {
                return Err(e);
            },
        };
        let region_result = region.expand_heap(self.slot(), start, len);
        self.apply_expansion(len, region_result)
    }

    /// Record the outcome of the region's attempt to reset the heap to its first `initial_size`
    /// bytes: when it succeeded, exactly those bytes are accessible; when it failed, nothing
    /// changes and its error is returned.
    pub fn apply_reset(&mut self, initial_size: usize, region_result: Result<(), Error>) -> (r: Result<
        (),
        Error,
    >)
        requires
            old(self).wf(),
            initial_size <= old(self).slot->0.limits.heap_address_space_size,
        ensures
            final(self).wf(),
            final(self).slot == old(self).slot,
            final(self).heap_memory_size_limit == old(self).heap_memory_size_limit,
            final(self).invalid_pages == old(self).invalid_pages,
            region_result is Ok ==> r is Ok && final(self).heap_accessible_size == initial_size,
            region_result matches Err(e) ==> r == Err::<(), Error>(e) && *final(self) == *old(self),
    {
        match region_result {
            Ok(()) => {},
            Err(e) => {
                return Err(e);
            },
        }
        let has = self.slot().limits.heap_address_space_size;
        self.heap_accessible_size = initial_size;
        self.heap_inaccessible_size = has - initial_size;
        Ok(())
    }

    /// Reset the heap to the `initial_size` bytes a module starts with: the region clears the
    /// heap and makes its first `initial_size` bytes accessible, and `apply_reset` records what it
    /// answers.
    pub fn reset_heap<R: RegionMemory>(&mut self, initial_size: usize, region: &R) -> (r: Result<
        (),
        Error,
    >)
        requires
            old(self).wf(),
            initial_size <= old(self).slot->0.limits.heap_address_space_size,
        ensures
            final(self).wf(),
            final(self).slot == old(self).slot,
            final(self).heap_memory_size_limit == old(self).heap_memory_size_limit,
            final(self).invalid_pages == old(self).invalid_pages,
            r is Ok ==> final(self).heap_accessible_size == initial_size,
            r is Err ==> *final(self) == *old(self),
    {
        let region_result = region.reset_heap(self.slot(), self.heap_accessible_size, initial_size);
        self.apply_reset(initial_size, region_result)
    }
}


#[verifier::external_type_specification]
#[verifier::external_body]
pub struct ExStdRng(rand::rngs::StdRng);

#[verifier::external_type_specification]
#[verifier::external_body]
pub struct ExThreadRng(rand::rngs::ThreadRng);

/// `rand::thread_rng()`: a handle to the generator local to the calling thread. Nothing is claimed
/// of the numbers it generates.
#[verifier::external_body]
fn thread_rng() -> (r: rand::rngs::ThreadRng) {
    rand::thread_rng()
}

/// `rand::Rng::gen_range(0, bound)` on a `rand::rngs::ThreadRng`: a value in `[0, bound)`; it
/// panics when `bound` is 0.
#[verifier::external_body]
fn thread_rng_gen_range(rng: &mut rand::rngs::ThreadRng, bound: usize) -> (r: usize)
    requires
        bound > 0,
    ensures
        r < bound,
{
    rand::Rng::gen_range(rng, 0, bound)
}

/// `rand::Rng::gen_range(0, bound)` on a `rand::rngs::StdRng`: a value in `[0, bound)`; it panics
/// when `bound` is 0.
#[verifier::external_body]
fn std_rng_gen_range(rng: &mut rand::rngs::StdRng, bound: usize) -> (r: usize)
    requires
        bound > 0,
    ensures
        r < bound,
{
    rand::Rng::gen_range(rng, 0, bound)
}

/// The strategy by which a region selects a slot to back an instance.
pub enum AllocStrategy {
    /// Allocate from the next slot available.
    Linear,
    /// Allocate randomly from the set of available slots.
    Random,
    /// Allocate randomly from the set of available slots using the supplied random number
    /// generator; used to create reproducible behavior for testing.
    CustomRandom(rand::rngs::StdRng),
}

impl AllocStrategy {
    /// For a given `AllocStrategy`, use the number of free slots and the capacity to determine the
    /// index, among the free slots, of the next slot to allocate for an instance.
    pub fn next(&mut self, free_slots: usize, capacity: usize) -> (r: Result<usize, Error>)
        ensures
            free_slots == 0 ==> r == Err::<usize, Error>(Error::RegionFull(capacity)),
            free_slots > 0 ==> (r matches Ok(i) && i < free_slots),
            free_slots > 0 && *old(self) is Linear ==> r == Ok::<usize, Error>(
                (free_slots - 1) as usize,
            ),
            *old(self) is Linear ==> *final(self) is Linear,
            *old(self) is Random ==> *final(self) is Random,
            *old(self) is CustomRandom ==> *final(self) is CustomRandom,
    {
        if free_slots == 0 {
            return Err(Error::RegionFull(capacity));
        }
        match self {
            AllocStrategy::Linear => Ok(free_slots - 1),
            AllocStrategy::Random => {
                let mut rng = thread_rng();
                Ok(thread_rng_gen_range(&mut rng, free_slots))
            },
            AllocStrategy::CustomRandom(rng) => Ok(std_rng_gen_range(rng, free_slots)),
        }
    }
}

} // verus!
