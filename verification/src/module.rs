//! The read-only parts of a program: its heap specification, its trap tables and how an
//! instruction pointer is looked up in them, its function table, and the decisions of loading a
//! compiled module.
use vstd::prelude::*;

use crate::allocation::Limits;
use crate::error::Error;
use crate::trapcode::TrapCode;

verus! {

/// Details about a program address.
#[derive(Clone, Debug)]
pub struct AddrDetails {
    pub in_module_code: bool,
    pub file_name: Option<String>,
    pub sym_name: Option<String>,
}

} // verus!

verus! {

/// Specifications from the WebAssembly module about its heap.
///
/// The `reserved_size` and `guard_size`, when added together, must not exceed the
/// `heap_address_space_size` given in the corresponding `Limits`. The `initial_size` and
/// `max_size` (if given) must fit into the `heap_memory_size` given in the corresponding `Limits`.
#[derive(Clone, Copy, Debug)]
pub struct HeapSpec {
    /// A region of the heap that is addressable, but only a subset of it is accessible.
    pub reserved_size: u64,
    /// A region of the heap that is addressable, but never accessible.
    pub guard_size: u64,
    /// The amount of heap that is accessible upon initialization.
    pub initial_size: u64,
    /// The maximum amount of the heap that the program will request; only valid if
    /// `max_size_valid == 1`.
    pub max_size: u64,
    /// Set to `1` when `max_size` is valid, and `0` when it is not.
    pub max_size_valid: u64,
}

impl HeapSpec {
    pub fn default() -> (r: HeapSpec)
        ensures
            r.reserved_size == 4 * 1024 * 1024,
            r.guard_size == 4 * 1024 * 1024,
            r.initial_size == 64 * 1024,
            r.max_size == 64 * 1024,
            r.max_size_valid == 1,
    {
        HeapSpec {
            reserved_size: 4 * 1024 * 1024,
            guard_size: 4 * 1024 * 1024,
            initial_size: 64 * 1024,
            max_size: 64 * 1024,
            max_size_valid: 1,
        }
    }

    pub open spec fn max_size_spec(self) -> Option<u64> {
        if self.max_size_valid == 1 {
            Some(self.max_size)
        } else {
            None
        }
    }

    /// The maximum heap size, if the module specifies one.
    pub fn max_size(&self) -> (r: Option<u64>)
        ensures
            r == self.max_size_spec(),
    {
        if self.max_size_valid == 1 {
            Some(self.max_size)
        } else {
            None
        }
    }
}

} // verus!

verus! {

/// An entry of a trap table: a trapping instruction at `offset` bytes into its function, and the
/// numeric code of the trap it raises.
#[derive(Copy, Clone, Debug)]
pub struct TrapSite {
    pub offset: u32,
    pub trapcode: u32,
}

/// An element of a WebAssembly function table: the type of the function and a reference to it.
#[derive(Copy, Clone, Debug)]
pub struct TableElement {
    ty: u64,
    rf: u64,
}

impl TableElement {
    pub closed spec fn rf_spec(&self) -> u64 {
        self.rf
    }

    pub closed spec fn ty_spec(&self) -> u64 {
        self.ty
    }

    pub fn new(ty: u64, rf: u64) -> (r: Self)
        ensures
            r.ty_spec() == ty,
            r.rf_spec() == rf,
    {
        TableElement { ty, rf }
    }
}

/// The reference to function `func_id` of table `table_id`, given the elements of the module's
/// only table, table 0; `Error::FuncNotFound` for another table or an index past its end.
pub fn func_ref_from_table(table: &[TableElement], table_id: u32, func_id: u32) -> (r: Result<
    u64,
    Error,
>)
    ensures
        table_id == 0 && func_id < table@.len() ==> r == Ok::<u64, Error>(
            table@[func_id as int].rf_spec(),
        ),
        !(table_id == 0 && func_id < table@.len()) ==> r == Err::<u64, Error>(
            Error::FuncNotFound(table_id, func_id),
        ),
{
    if table_id != 0 {
        return Err(Error::FuncNotFound(table_id, func_id));
    }
    if (func_id as usize) < table.len() {
        Ok(table[func_id as usize].rf)
    } else {
        Err(Error::FuncNotFound(table_id, func_id))
    }
}

/// A handle to a function of a module: its address, its index, and whether it is the start
/// function.
#[derive(Copy, Clone, Debug)]
pub struct FunctionHandle {
    pub ptr: usize,
    pub id: u32,
    pub is_start_func: bool,
}

/// The trap table of one function of a module: the function's code spans `func_len` bytes from
/// `func_addr`, and `trapsites` lists its trapping instructions by increasing offset.
pub struct TrapManifestRecord {
    func_addr: u64,
    func_len: u64,
    trapsites: Vec<TrapSite>,
}

impl TrapManifestRecord {
    pub fn new(func_addr: u64, func_len: u64, trapsites: Vec<TrapSite>) -> (r: Self)
        ensures
            r.func_addr_spec() == func_addr,
            r.func_len_spec() == func_len,
            r.trapsites_spec() == trapsites@,
    {
        TrapManifestRecord { func_addr, func_len, trapsites }
    }

    pub closed spec fn func_addr_spec(&self) -> u64 {
        self.func_addr
    }

    pub closed spec fn func_len_spec(&self) -> u64 {
        self.func_len
    }

    pub closed spec fn trapsites_spec(&self) -> Seq<TrapSite> {
        self.trapsites@
    }

    /// The function's code covers `addr`.
    pub open spec fn covers(&self, addr: u64) -> bool {
        self.func_addr_spec() <= addr <= self.func_addr_spec() + self.func_len_spec()
    }

    /// The trap site at index `i` is the instruction at `addr`.
    pub open spec fn site_is_at(&self, i: int, addr: u64) -> bool {
        self.func_addr_spec() + self.trapsites_spec()[i].offset == addr
    }

    /// A trap site of the table is the instruction at `addr`.
    pub open spec fn has_site_at(&self, addr: u64) -> bool {
        exists|i: int| 0 <= i < self.trapsites_spec().len() && #[trigger] self.site_is_at(i, addr)
    }

    /// The trap sites are sorted by offset.
    pub open spec fn sorted(&self) -> bool {
        forall|i: int, j: int|
            0 <= i <= j < self.trapsites_spec().len() ==> self.trapsites_spec()[i].offset
                <= self.trapsites_spec()[j].offset
    }

    /// Every trap site at `addr` holds a valid trap code.
    pub open spec fn codes_valid_at(&self, addr: u64) -> bool {
        forall|i: int|
            0 <= i < self.trapsites_spec().len() && #[trigger] self.site_is_at(i, addr)
                ==> self.trapsites_spec()[i].trapcode <= 10
    }

    /// `t` is the trap raised by a trap site at `addr`.
    pub open spec fn raises_at(&self, addr: u64, t: TrapCode) -> bool {
        exists|i: int|
            0 <= i < self.trapsites_spec().len() && #[trigger] self.site_is_at(i, addr)
                && self.trapsites_spec()[i].trapcode == t.code()
    }

    pub fn contains_addr(&self, addr: u64) -> (r: bool)
        ensures
            r == self.covers(addr),
    {
        addr >= self.func_addr && addr - self.func_addr <= self.func_len
    }

    /// The trap sites of the function.
    pub fn trapsites(&self) -> (r: &[TrapSite])
        ensures
            r@ == self.trapsites_spec(),
    {
        self.trapsites.as_slice()
    }

    /// The trap raised by the instruction at `addr`, found by binary search of the trap table.
    pub fn lookup_addr(&self, addr: u64) -> (r: Option<TrapCode>)
        requires
            self.sorted(),
            self.codes_valid_at(addr),
        ensures
            r is Some <==> self.covers(addr) && self.has_site_at(addr),
            r matches Some(t) ==> self.raises_at(addr, t),
    {
        if !self.contains_addr(addr) {
            return None;
        }
        let target = addr - self.func_addr;
        let sites = &self.trapsites;
        let mut lo: usize = 0;
        let mut hi: usize = sites.len();
        while lo < hi
            invariant
                0 <= lo <= hi <= sites@.len(),
                sites@ == self.trapsites_spec(),
                self.sorted(),
                self.codes_valid_at(addr),
                self.covers(addr),
                target == addr - self.func_addr_spec(),
                forall|i: int| 0 <= i < lo ==> (sites@[i].offset as int) < target,
                forall|i: int| hi <= i < sites@.len() ==> (sites@[i].offset as int) > target,
            decreases hi - lo,
        {
            let mid = lo + (hi - lo) / 2;
            let off = sites[mid].offset as u64;
            if off == target {
                assert(self.site_is_at(mid as int, addr));
                let t = TrapCode::try_from_u32(sites[mid].trapcode);
                match t {
                    Some(code) => {
                        return Some(code);
                    },
                    None => {
                        assert(false);
                        return None;
                    },
                }
            } else if off < target {
                lo = mid + 1;
            } else {
                hi = mid;
            }
        }
        assert forall|i: int| 0 <= i < sites@.len() implies !#[trigger] self.site_is_at(i, addr) by {
            if i < lo {
            } else {
            }
        }
        None
    }
}

/// The trap raised when the instruction pointer lies in the stack probe, which spans
/// `probestack_size` bytes from `probestack`.
pub open spec fn probestack_trap(rip: u64, probestack: u64, probestack_size: u32) -> Option<TrapCode> {
    if probestack <= rip <= probestack + probestack_size {
        Some(TrapCode::StackOverflow)
    } else {
        None
    }
}

/// `j` is the first record of `manifest` whose function covers `rip`.
pub open spec fn first_covering(manifest: Seq<TrapManifestRecord>, rip: u64, j: int) -> bool {
    &&& 0 <= j < manifest.len()
    &&& manifest[j].covers(rip)
    &&& forall|k: int| 0 <= k < j ==> !(#[trigger] manifest[k].covers(rip))
}

/// The index of the first record of `manifest` whose function covers `rip`.
fn first_covering_index(manifest: &[TrapManifestRecord], rip: u64) -> (r: Option<usize>)
    ensures
        r matches Some(j) ==> first_covering(manifest@, rip, j as int),
        r is None ==> forall|j: int| 0 <= j < manifest@.len() ==> !(#[trigger] manifest@[j]).covers(rip),
{
    let mut i: usize = 0;
    while i < manifest.len()
        invariant
            0 <= i <= manifest@.len(),
            forall|k: int| 0 <= k < i ==> !(#[trigger] manifest@[k]).covers(rip),
        decreases manifest@.len() - i,
    {
        if manifest[i].contains_addr(rip) {
            return Some(i);
        }
        i = i + 1;
    }
    None
}

/// Look up an instruction pointer in a module's trap manifest.
///
/// Only the first function whose code covers `rip` is searched. When it has no trap site there, or
/// no function covers `rip`, the instruction pointer may still lie in the stack probe, which is
/// reported as a stack overflow.
pub fn lookup_trapcode(
    manifest: &[TrapManifestRecord],
    rip: u64,
    probestack: u64,
    probestack_size: u32,
) -> (r: Option<TrapCode>)
    requires
        forall|j: int| 0 <= j < manifest@.len() ==> (#[trigger] manifest@[j]).sorted(),
        forall|j: int| 0 <= j < manifest@.len() ==> (#[trigger] manifest@[j]).codes_valid_at(rip),
    ensures
        forall|j: int|
            #[trigger] first_covering(manifest@, rip, j) ==> (if manifest@[j].has_site_at(rip) {
                r matches Some(t) && manifest@[j].raises_at(rip, t)
            } else {
                r == probestack_trap(rip, probestack, probestack_size)
            }),
        (forall|j: int| 0 <= j < manifest@.len() ==> !(#[trigger] manifest@[j]).covers(rip)) ==> r
            == probestack_trap(rip, probestack, probestack_size),
{
    if let Some(i) = first_covering_index(manifest, rip) {
        // Only one function can cover an address, so only the first one is searched.
        if let Some(trapcode) = manifest[i].lookup_addr(rip) {
            return Some(trapcode);
        }
    }
    if rip >= probestack && rip - probestack <= probestack_size as u64 {
        Some(TrapCode::StackOverflow)
    } else {
        None
    }
}

} // verus!

verus! {

/// Specifications from the compiled WebAssembly module about its heap and globals.
#[derive(Clone, Debug)]
pub struct RuntimeSpec {
    pub heap: HeapSpec,
    pub globals: Vec<i64>,
}

/// What keeps a module with heap specification `heap` and `num_globals` globals from being
/// instantiated in a slot with `limits`, for an instance whose heap may be backed by at most
/// `heap_memory_size_limit` bytes; `None` when nothing does.
pub open spec fn runtime_spec_refusal(
    heap: HeapSpec,
    num_globals: nat,
    limits: Limits,
    heap_memory_size_limit: usize,
) -> Option<Error> {
    if heap_memory_size_limit > limits.heap_memory_size {
        Some(Error::InvalidArgument("heap memory size requested for instance is larger than slot allows"))
    } else if heap.reserved_size + heap.guard_size > limits.heap_address_space_size {
        Some(Error::LimitsExceeded("heap spec reserved and guard size exceed the heap address space"))
    } else if heap.initial_size > heap_memory_size_limit {
        Some(Error::LimitsExceeded("heap spec initial size exceeds the heap memory size limit"))
    } else if num_globals * 8 > limits.globals_size {
        Some(Error::LimitsExceeded("globals exceed the globals size limit"))
    } else {
        None
    }
}

/// Check that a module with heap specification `heap` and `num_globals` globals fits a slot with
/// `limits`, for an instance whose heap may be backed by at most `heap_memory_size_limit` bytes:
/// the instance's limit is within the slot's, the heap's reserved and guard sizes fit in the
/// heap address space, the initial heap within the instance's limit, and the globals, 8 bytes
/// each, in the globals region.
pub fn check_runtime_spec(
    heap: &HeapSpec,
    num_globals: usize,
    limits: &Limits,
    heap_memory_size_limit: usize,
) -> (r: Result<(), Error>)
    ensures
        runtime_spec_refusal(*heap, num_globals as nat, *limits, heap_memory_size_limit) matches Some(
            e,
        ) ==> r == Err::<(), Error>(e),
        runtime_spec_refusal(*heap, num_globals as nat, *limits, heap_memory_size_limit) is None
            ==> r is Ok,
{
    if heap_memory_size_limit > limits.heap_memory_size {
        return Err(
            Error::InvalidArgument("heap memory size requested for instance is larger than slot allows"),
        );
    }
    let space = limits.heap_address_space_size as u64;
    if heap.reserved_size > space || heap.guard_size > space - heap.reserved_size {
        return Err(
            Error::LimitsExceeded("heap spec reserved and guard size exceed the heap address space"),
        );
    }
    if heap.initial_size > heap_memory_size_limit as u64 {
        return Err(
            Error::LimitsExceeded("heap spec initial size exceeds the heap memory size limit"),
        );
    }
    if num_globals > limits.globals_size / 8 {
        return Err(Error::LimitsExceeded("globals exceed the globals size limit"));
    }
    Ok(())
}

/// The read-only parts of a program that the runtime reads: its heap and globals, and its trap
/// manifest. Implementations promise that each read gives back the same value every time.
pub trait ModuleInternal {
    /// What `runtime_spec` gives back.
    spec fn runtime_spec_view(&self) -> RuntimeSpec;

    /// What `trap_manifest` gives back.
    spec fn trap_manifest_view(&self) -> Seq<TrapManifestRecord>;

    fn runtime_spec(&self) -> (r: &RuntimeSpec)
        ensures
            *r == self.runtime_spec_view(),
    ;

    fn trap_manifest(&self) -> (r: &[TrapManifestRecord])
        ensures
            r@ == self.trap_manifest_view(),
    ;

    /// The heap specification of the module.
    fn heap_spec(&self) -> (r: &HeapSpec)
        ensures
            *r == self.runtime_spec_view().heap,
    {
        &self.runtime_spec().heap
    }

    /// The WebAssembly globals of the module, by their index.
    fn globals(&self) -> (r: &[i64])
        ensures
            r@ == self.runtime_spec_view().globals@,
    {
        self.runtime_spec().globals.as_slice()
    }

    /// Check that the module fits a slot with `limits`, for an instance whose heap may be backed
    /// by at most `heap_memory_size_limit` bytes, as `check_runtime_spec` does.
    fn validate_runtime_spec(&self, limits: &Limits, heap_memory_size_limit: usize) -> (r: Result<
        (),
        Error,
    >)
        ensures
            runtime_spec_refusal(
                self.runtime_spec_view().heap,
                self.runtime_spec_view().globals@.len(),
                *limits,
                heap_memory_size_limit,
            ) matches Some(e) ==> r == Err::<(), Error>(e),
            runtime_spec_refusal(
                self.runtime_spec_view().heap,
                self.runtime_spec_view().globals@.len(),
                *limits,
                heap_memory_size_limit,
            ) is None ==> r is Ok,
    {
        let spec = self.runtime_spec();
        check_runtime_spec(&spec.heap, spec.globals.len(), limits, heap_memory_size_limit)
    }

    /// Look up an instruction pointer in the module's trap manifest, as the free function
    /// `lookup_trapcode` does.
    fn lookup_trapcode(&self, rip: u64, probestack: u64, probestack_size: u32) -> (r: Option<
        TrapCode,
    >)
        requires
            forall|j: int|
                0 <= j < self.trap_manifest_view().len() ==> (#[trigger] self.trap_manifest_view()[j]).sorted(),
            forall|j: int|
                0 <= j < self.trap_manifest_view().len() ==> (
                #[trigger] self.trap_manifest_view()[j]).codes_valid_at(rip),
        ensures
            forall|j: int|
                #[trigger] first_covering(self.trap_manifest_view(), rip, j) ==> (if self.trap_manifest_view()[j].has_site_at(
                    rip,
                ) {
                    r matches Some(t) && self.trap_manifest_view()[j].raises_at(rip, t)
                } else {
                    r == probestack_trap(rip, probestack, probestack_size)
                }),
            (forall|j: int|
                0 <= j < self.trap_manifest_view().len() ==> !(
                #[trigger] self.trap_manifest_view()[j]).covers(rip)) ==> r == probestack_trap(
                rip,
                probestack,
                probestack_size,
            ),
    {
        lookup_trapcode(self.trap_manifest(), rip, probestack, probestack_size)
    }
}

/// The read-only parts of a program, including its code and initial heap configuration.
pub trait Module: ModuleInternal {

}

} // verus!

verus! {

/// The outcome of looking up one symbol of a loaded shared object.
#[derive(Copy, Clone, Debug, PartialEq, Eq, Structural)]
pub enum SymbolLookup {
    /// The symbol is defined; `null` tells whether its value is a null pointer.
    Found { null: bool },
    /// The symbol is not defined.
    Undefined,
    /// The lookup failed for another reason.
    Failed,
}

/// Where the function manifest of a loaded module comes from, decided from the lookups of the
/// manifest symbol and of its length symbol.
#[derive(Copy, Clone, Debug, PartialEq, Eq, Structural)]
pub enum ManifestSource {
    /// Both symbols are defined and non-null: the manifest is the table they describe.
    Table,
    /// Neither symbol is defined: the module has no function manifest.
    Empty,
    /// The length symbol is defined but null: the module is incorrect.
    LenNull,
    /// The manifest symbol is defined but null: the module is incorrect.
    PtrNull,
    /// Only the manifest symbol could be looked up: the module is incorrect, and the error of the
    /// length lookup says why.
    LenMissing,
    /// Only the length symbol could be looked up: the module is incorrect, and the error of the
    /// manifest lookup says why.
    PtrMissing,
    /// Both lookups failed, the manifest's not for want of a definition: loading fails with the
    /// error of the manifest lookup.
    PtrError,
    /// Both lookups failed, the length's alone not for want of a definition: loading fails with the
    /// error of the length lookup.
    LenError,
}

pub open spec fn manifest_source_spec(ptr: SymbolLookup, len: SymbolLookup) -> ManifestSource {
    match (ptr, len) {
        (SymbolLookup::Found { null: ptr_null }, SymbolLookup::Found { null: len_null }) => {
            if len_null {
                ManifestSource::LenNull
            } else if ptr_null {
                ManifestSource::PtrNull
            } else {
                ManifestSource::Table
            }
        },
        (SymbolLookup::Found { .. }, _) => ManifestSource::LenMissing,
        (_, SymbolLookup::Found { .. }) => ManifestSource::PtrMissing,
        (SymbolLookup::Undefined, SymbolLookup::Undefined) => ManifestSource::Empty,
        (SymbolLookup::Failed, _) => ManifestSource::PtrError,
        (SymbolLookup::Undefined, SymbolLookup::Failed) => ManifestSource::LenError,
    }
}

/// Decide where the function manifest of a loaded module comes from: a module defines both the
/// manifest and its length, non-null, or neither.
pub fn function_manifest_source(ptr: SymbolLookup, len: SymbolLookup) -> (r: ManifestSource)
    ensures
        r == manifest_source_spec(ptr, len),
{
    match (ptr, len) {
        (SymbolLookup::Found { null: ptr_null }, SymbolLookup::Found { null: len_null }) => {
            if len_null {
                ManifestSource::LenNull
            } else if ptr_null {
                ManifestSource::PtrNull
            } else {
                ManifestSource::Table
            }
        },
        (SymbolLookup::Found { .. }, _) => ManifestSource::LenMissing,
        (_, SymbolLookup::Found { .. }) => ManifestSource::PtrMissing,
        (SymbolLookup::Undefined, SymbolLookup::Undefined) => ManifestSource::Empty,
        (SymbolLookup::Failed, _) => ManifestSource::PtrError,
        (SymbolLookup::Undefined, SymbolLookup::Failed) => ManifestSource::LenError,
    }
}

} // verus!

verus! {

/// `needle` occurs in `hay` at position `i`.
pub open spec fn occurs_at(hay: Seq<u8>, needle: Seq<u8>, i: int) -> bool {
    0 <= i && i + needle.len() <= hay.len() && hay.subrange(i, i + needle.len()) == needle
}

/// `needle` occurs somewhere in `hay`.
pub open spec fn occurs_in(hay: Seq<u8>, needle: Seq<u8>) -> bool {
    exists|i: int| #[trigger] occurs_at(hay, needle, i)
}

/// Whether `needle` occurs at position `i` of `hay`.
fn matches_at(hay: &[u8], needle: &[u8], i: usize) -> (r: bool)
    requires
        i + needle.len() <= hay.len(),
    ensures
        r == occurs_at(hay@, needle@, i as int),
{
    let mut j: usize = 0;
    while j < needle.len()
        invariant
            j <= needle@.len(),
            i + needle.len() <= hay.len(),
            hay@.subrange(i as int, i + j) == needle@.subrange(0, j as int),
        decreases needle@.len() - j,
    {
        if hay[i + j] != needle[j] {
            assert(hay@.subrange(i as int, i + needle@.len())[j as int] != needle@[j as int]);
            return false;
        }
        assert(hay@.subrange(i as int, i + j + 1) =~= hay@.subrange(i as int, i + j).push(hay@[i + j]));
        assert(needle@.subrange(0, j + 1) =~= needle@.subrange(0, j as int).push(needle@[j as int]));
        j = j + 1;
    }
    assert(needle@.subrange(0, needle@.len() as int) =~= needle@);
    true
}

/// Whether `needle` occurs in `hay`.
fn bytes_contain(hay: &[u8], needle: &[u8]) -> (r: bool)
    ensures
        r == occurs_in(hay@, needle@),
{
    if needle.len() > hay.len() {
        assert forall|i: int| !#[trigger] occurs_at(hay@, needle@, i) by {}
        return false;
    }
    let last = hay.len() - needle.len();
    let mut i: usize = 0;
    while i <= last
        invariant
            last == hay@.len() - needle@.len(),
            forall|k: int| 0 <= k < i ==> !#[trigger] occurs_at(hay@, needle@, k),
        decreases last + 1 - i,
    {
        if matches_at(hay, needle, i) {
            return true;
        }
        if i == last {
            assert forall|k: int| !#[trigger] occurs_at(hay@, needle@, k) by {}
            return false;
        }
        i = i + 1;
    }
    false
}

/// Whether the message of an error from looking up a symbol says that the symbol is not defined.
pub fn is_undefined_symbol(msg: &str) -> (r: bool)
    ensures
        r == (occurs_in(vstd::utf8::encode_utf8(msg@), vstd::utf8::encode_utf8("undefined symbol"@)) || occurs_in(
            vstd::utf8::encode_utf8(msg@),
            vstd::utf8::encode_utf8("symbol not found"@),
        )),
{
    bytes_contain(msg.as_bytes(), "undefined symbol".as_bytes()) || bytes_contain(
        msg.as_bytes(),
        "symbol not found".as_bytes(),
    )
}

} // verus!
