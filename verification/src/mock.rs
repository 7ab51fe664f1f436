//! Modules built in memory rather than loaded from compiled code, for tests and for embedders
//! that assemble modules themselves.
use vstd::prelude::*;

use crate::error::Error;
use crate::module::{HeapSpec, ModuleInternal, Module, RuntimeSpec, TableElement, TrapManifestRecord};
use std::collections::BTreeMap;

verus! {

broadcast use {vstd::laws_cmp::group_laws_cmp, vstd::std_specs::btree::group_btree_axioms};

/// The size of a page of initial heap data.
pub const SPARSE_PAGE_SIZE: usize = 4096;

/// The number of pages that hold `len` bytes.
pub open spec fn num_pages(len: nat) -> nat {
    (len + 4095) / 4096
}

/// The bytes of page `i` of `heap`; the last page may be short.
pub open spec fn heap_page(heap: Seq<u8>, i: int) -> Seq<u8> {
    let end = if (i + 1) * 4096 <= heap.len() {
        (i + 1) * 4096
    } else {
        heap.len() as int
    };
    heap.subrange(i * 4096, end)
}

/// All the bytes are zero.
pub open spec fn all_zero(bytes: Seq<u8>) -> bool {
    forall|j: int| 0 <= j < bytes.len() ==> bytes[j] == 0
}

/// The bytes, followed by zeros up to a whole page.
pub open spec fn padded_page(bytes: Seq<u8>) -> Seq<u8> {
    bytes + Seq::new((4096 - bytes.len()) as nat, |_j: int| 0u8)
}

/// The sparse page data of `pages` describes `heap`: one entry per page, none for a page of
/// zeros, and otherwise the page's bytes, padded with zeros to a whole page.
pub open spec fn sparse_pages_of(pages: Seq<Option<Vec<u8>>>, heap: Seq<u8>) -> bool {
    &&& pages.len() == num_pages(heap.len())
    &&& forall|i: int|
        0 <= i < pages.len() ==> {
            &&& (#[trigger] pages[i] is None <==> all_zero(heap_page(heap, i)))
            &&& (pages[i] matches Some(p) ==> p@ == padded_page(heap_page(heap, i)))
        }
}

/// Whether the `len` bytes of `heap` from `start` are all zero.
fn is_zero_range(heap: &[u8], start: usize, len: usize) -> (r: bool)
    requires
        start + len <= heap@.len(),
    ensures
        r == all_zero(heap@.subrange(start as int, start + len)),
{
    let mut j: usize = 0;
    while j < len
        invariant
            j <= len,
            start + len <= heap.len(),
            all_zero(heap@.subrange(start as int, start + j)),
        decreases len - j,
    {
        if heap[start + j] != 0 {
            assert(heap@.subrange(start as int, start + len)[j as int] != 0);
            return false;
        }
        j = j + 1;
    }
    true
}

/// The `len` bytes of `heap` from `start`, padded with zeros to a whole page.
fn padded_copy(heap: &[u8], start: usize, len: usize) -> (r: Vec<u8>)
    requires
        start + len <= heap@.len(),
        len <= 4096,
    ensures
        r@ == padded_page(heap@.subrange(start as int, start + len)),
{
    let mut page: Vec<u8> = Vec::new();
    let mut j: usize = 0;
    while j < len
        invariant
            j <= len,
            start + len <= heap.len(),
            page@ == heap@.subrange(start as int, start + j),
        decreases len - j,
    {
        page.push(heap[start + j]);
        j = j + 1;
    }
    while j < 4096
        invariant
            len <= j <= 4096,
            start + len <= heap.len(),
            page@ == heap@.subrange(start as int, start + len) + Seq::new(
                (j - len) as nat,
                |_k: int| 0u8,
            ),
        decreases 4096 - j,
    {
        page.push(0);
        j = j + 1;
    }
    page
}

/// Split `heap` into the sparse page data that initializes a heap with it.
pub fn sparse_pages(heap: &[u8]) -> (r: Vec<Option<Vec<u8>>>)
    ensures
        sparse_pages_of(r@, heap@),
{
    let len = heap.len();
    let full = len / SPARSE_PAGE_SIZE;
    let count = if len % SPARSE_PAGE_SIZE != 0 {
        full + 1
    } else {
        full
    };
    assert(count == num_pages(len as nat)) by (nonlinear_arith)
        requires
            full == len / 4096,
            len % 4096 != 0 ==> count == full + 1,
            len % 4096 == 0 ==> count == full,
    ;
    let mut pages: Vec<Option<Vec<u8>>> = Vec::new();
    let mut i: usize = 0;
    while i < count
        invariant
            i <= count,
            count == num_pages(len as nat),
            len == heap@.len(),
            pages@.len() == i,
            forall|k: int|
                0 <= k < i ==> {
                    &&& (#[trigger] pages@[k] is None <==> all_zero(heap_page(heap@, k)))
                    &&& (pages@[k] matches Some(p) ==> p@ == padded_page(heap_page(heap@, k)))
                },
        decreases count - i,
    {
        assert(i * 4096 < len) by (nonlinear_arith)
            requires
                i < count,
                count == (len + 4095) / 4096,
        ;
        let start = i * SPARSE_PAGE_SIZE;
        let page_len = if len - start >= SPARSE_PAGE_SIZE {
            SPARSE_PAGE_SIZE
        } else {
            len - start
        };
        assert(heap_page(heap@, i as int) == heap@.subrange(start as int, start + page_len));
        let page = if is_zero_range(heap, start, page_len) {
            None
        } else {
            Some(padded_copy(heap, start, page_len))
        };
        pages.push(page);
        i = i + 1;
    }
    pages
}

/// A builder of in-memory modules.
pub struct MockModuleBuilder {
    heap_spec: HeapSpec,
    sparse_page_data: Vec<Option<Vec<u8>>>,
    globals: BTreeMap<usize, i64>,
    table_elements: BTreeMap<usize, TableElement>,
    func_table: BTreeMap<(u32, u32), usize>,
    start_func: Option<usize>,
    trap_manifest: Vec<TrapManifestRecord>,
}

/// The keys of `m` are the indices `0..m.len()`.
pub open spec fn contiguous_from_zero<V>(m: Map<usize, V>) -> bool {
    forall|i: usize| (i as int) < m.len() ==> #[trigger] m.dom().contains(i)
}

impl MockModuleBuilder {
    pub closed spec fn heap_spec_spec(&self) -> HeapSpec {
        self.heap_spec
    }

    pub closed spec fn sparse_page_data_spec(&self) -> Seq<Option<Vec<u8>>> {
        self.sparse_page_data@
    }

    pub closed spec fn globals_spec(&self) -> Map<usize, i64> {
        self.globals@
    }

    pub closed spec fn table_elements_spec(&self) -> Map<usize, TableElement> {
        self.table_elements@
    }

    pub closed spec fn func_table_spec(&self) -> Map<(u32, u32), usize> {
        self.func_table@
    }

    pub closed spec fn start_func_spec(&self) -> Option<usize> {
        self.start_func
    }

    pub closed spec fn trap_manifest_spec(&self) -> Seq<TrapManifestRecord> {
        self.trap_manifest@
    }

    /// A builder of a module with the default heap specification and nothing else.
    pub fn new() -> (r: Self)
        ensures
            r.heap_spec_spec() == (HeapSpec {
                reserved_size: 4194304u64,
                guard_size: 4194304u64,
                initial_size: 65536u64,
                max_size: 65536u64,
                max_size_valid: 1u64,
            }),
            r.sparse_page_data_spec().len() == 0,
            r.globals_spec() == Map::<usize, i64>::empty(),
            r.table_elements_spec() == Map::<usize, TableElement>::empty(),
            r.func_table_spec() == Map::<(u32, u32), usize>::empty(),
            r.start_func_spec() is None,
            r.trap_manifest_spec().len() == 0,
    {
        MockModuleBuilder {
            heap_spec: HeapSpec::default(),
            sparse_page_data: Vec::new(),
            globals: BTreeMap::new(),
            table_elements: BTreeMap::new(),
            func_table: BTreeMap::new(),
            start_func: None,
            trap_manifest: Vec::new(),
        }
    }

    pub fn with_heap_spec(self, heap_spec: HeapSpec) -> (r: Self)
        ensures
            r.heap_spec_spec() == heap_spec,
            r.sparse_page_data_spec() == self.sparse_page_data_spec(),
            r.globals_spec() == self.globals_spec(),
            r.table_elements_spec() == self.table_elements_spec(),
            r.func_table_spec() == self.func_table_spec(),
            r.start_func_spec() == self.start_func_spec(),
            r.trap_manifest_spec() == self.trap_manifest_spec(),
    {
        let mut s = self;
        s.heap_spec = heap_spec;
        s
    }

    /// Initialize the heap with `heap`, kept as sparse page data.
    pub fn with_initial_heap(self, heap: &[u8]) -> (r: Self)
        ensures
            sparse_pages_of(r.sparse_page_data_spec(), heap@),
            r.heap_spec_spec() == self.heap_spec_spec(),
            r.globals_spec() == self.globals_spec(),
            r.table_elements_spec() == self.table_elements_spec(),
            r.func_table_spec() == self.func_table_spec(),
            r.start_func_spec() == self.start_func_spec(),
            r.trap_manifest_spec() == self.trap_manifest_spec(),
    {
        let mut s = self;
        s.sparse_page_data = sparse_pages(heap);
        s
    }

    /// Define global `idx` with the initial value `init_val`.
    pub fn with_global(self, idx: u32, init_val: i64) -> (r: Self)
        ensures
            r.globals_spec() == self.globals_spec().insert(idx as usize, init_val),
            r.heap_spec_spec() == self.heap_spec_spec(),
            r.sparse_page_data_spec() == self.sparse_page_data_spec(),
            r.table_elements_spec() == self.table_elements_spec(),
            r.func_table_spec() == self.func_table_spec(),
            r.start_func_spec() == self.start_func_spec(),
            r.trap_manifest_spec() == self.trap_manifest_spec(),
    {
        let mut s = self;
        s.globals.insert(idx as usize, init_val);
        s
    }

    /// Set element `idx` of the function table.
    pub fn with_table_element(self, idx: u32, element: &TableElement) -> (r: Self)
        ensures
            r.table_elements_spec() == self.table_elements_spec().insert(idx as usize, *element),
            r.heap_spec_spec() == self.heap_spec_spec(),
            r.sparse_page_data_spec() == self.sparse_page_data_spec(),
            r.globals_spec() == self.globals_spec(),
            r.func_table_spec() == self.func_table_spec(),
            r.start_func_spec() == self.start_func_spec(),
            r.trap_manifest_spec() == self.trap_manifest_spec(),
    {
        let mut s = self;
        s.table_elements.insert(idx as usize, *element);
        s
    }

    /// Make `func` the function at index `func_idx` of table `table_idx`.
    pub fn with_table_func(self, table_idx: u32, func_idx: u32, func: usize) -> (r: Self)
        ensures
            r.func_table_spec() == self.func_table_spec().insert((table_idx, func_idx), func),
            r.heap_spec_spec() == self.heap_spec_spec(),
            r.sparse_page_data_spec() == self.sparse_page_data_spec(),
            r.globals_spec() == self.globals_spec(),
            r.table_elements_spec() == self.table_elements_spec(),
            r.start_func_spec() == self.start_func_spec(),
            r.trap_manifest_spec() == self.trap_manifest_spec(),
    {
        let mut s = self;
        s.func_table.insert((table_idx, func_idx), func);
        s
    }

    /// Make `func` the start function.
    pub fn with_start_func(self, func: usize) -> (r: Self)
        ensures
            r.start_func_spec() == Some(func),
            r.heap_spec_spec() == self.heap_spec_spec(),
            r.sparse_page_data_spec() == self.sparse_page_data_spec(),
            r.globals_spec() == self.globals_spec(),
            r.table_elements_spec() == self.table_elements_spec(),
            r.func_table_spec() == self.func_table_spec(),
            r.trap_manifest_spec() == self.trap_manifest_spec(),
    {
        let mut s = self;
        s.start_func = Some(func);
        s
    }

    /// Use `trap_manifest` as the module's trap manifest.
    pub fn with_trap_manifest(self, trap_manifest: Vec<TrapManifestRecord>) -> (r: Self)
        ensures
            r.trap_manifest_spec() == trap_manifest@,
            r.heap_spec_spec() == self.heap_spec_spec(),
            r.sparse_page_data_spec() == self.sparse_page_data_spec(),
            r.globals_spec() == self.globals_spec(),
            r.table_elements_spec() == self.table_elements_spec(),
            r.func_table_spec() == self.func_table_spec(),
            r.start_func_spec() == self.start_func_spec(),
    {
        let mut s = self;
        s.trap_manifest = trap_manifest;
        s
    }

    /// Build the module. The initial heap must fit in the heap specification's initial size, and
    /// the indices of the globals and of the table elements must each be contiguous from 0.
    pub fn build(self) -> (r: MockModule)
        requires
            self.sparse_page_data_spec().len() * 4096 <= self.heap_spec_spec().initial_size,
            contiguous_from_zero(self.globals_spec()),
            contiguous_from_zero(self.table_elements_spec()),
        ensures
            r.runtime_spec_view().heap == self.heap_spec_spec(),
            r.runtime_spec_view().globals@.len() == self.globals_spec().len(),
            forall|i: int|
                0 <= i < self.globals_spec().len() ==> r.runtime_spec_view().globals@[i]
                    == self.globals_spec()[i as usize],
            r.sparse_page_data_spec() == self.sparse_page_data_spec(),
            r.table_elements_spec().len() == self.table_elements_spec().len(),
            forall|i: int|
                0 <= i < self.table_elements_spec().len() ==> r.table_elements_spec()[i]
                    == self.table_elements_spec()[i as usize],
            r.func_table_spec() == self.func_table_spec(),
            r.start_func_spec() == self.start_func_spec(),
            r.trap_manifest_view() == self.trap_manifest_spec(),
    {
        let mut globals: Vec<i64> = Vec::new();
        let n = self.globals.len();
        let mut i: usize = 0;
        while i < n
            invariant
                i <= n,
                n == self.globals@.len(),
                contiguous_from_zero(self.globals@),
                globals@.len() == i,
                forall|k: int| 0 <= k < i ==> globals@[k] == self.globals@[k as usize],
            decreases n - i,
        {
            assert(self.globals@.dom().contains(i));
            let v = *self.globals.get(&i).unwrap();
            globals.push(v);
            i = i + 1;
        }
        let mut table: Vec<TableElement> = Vec::new();
        let n = self.table_elements.len();
        let mut i: usize = 0;
        while i < n
            invariant
                i <= n,
                n == self.table_elements@.len(),
                contiguous_from_zero(self.table_elements@),
                table@.len() == i,
                forall|k: int| 0 <= k < i ==> table@[k] == self.table_elements@[k as usize],
            decreases n - i,
        {
            assert(self.table_elements@.dom().contains(i));
            let e = *self.table_elements.get(&i).unwrap();
            table.push(e);
            i = i + 1;
        }
        MockModule {
            runtime_spec: RuntimeSpec { heap: self.heap_spec, globals },
            sparse_page_data: self.sparse_page_data,
            table_elements: table,
            func_table: self.func_table,
            start_func: self.start_func,
            trap_manifest: self.trap_manifest,
        }
    }
}

/// A module built in memory.
pub struct MockModule {
    runtime_spec: RuntimeSpec,
    sparse_page_data: Vec<Option<Vec<u8>>>,
    table_elements: Vec<TableElement>,
    func_table: BTreeMap<(u32, u32), usize>,
    start_func: Option<usize>,
    trap_manifest: Vec<TrapManifestRecord>,
}

impl MockModule {
    pub closed spec fn sparse_page_data_spec(&self) -> Seq<Option<Vec<u8>>> {
        self.sparse_page_data@
    }

    pub closed spec fn table_elements_spec(&self) -> Seq<TableElement> {
        self.table_elements@
    }

    pub closed spec fn func_table_spec(&self) -> Map<(u32, u32), usize> {
        self.func_table@
    }

    pub closed spec fn start_func_spec(&self) -> Option<usize> {
        self.start_func
    }

    /// The initial contents of heap page `page`, if it is not all zeros.
    pub fn get_sparse_page_data(&self, page: usize) -> (r: Option<&[u8]>)
        ensures
            (page < self.sparse_page_data_spec().len() && self.sparse_page_data_spec()[page as int]
                is Some) <==> r is Some,
            r matches Some(d) ==> d@ == self.sparse_page_data_spec()[page as int]->0@,
    {
        if page < self.sparse_page_data.len() {
            match &self.sparse_page_data[page] {
                Some(data) => Some(data.as_slice()),
                None => None,
            }
        } else {
            None
        }
    }

    /// The pages of a heap of `initial_size` bytes that the module's sparse page data initializes,
    /// in increasing order: those below `initial_size / 4096` with an entry. The other pages of
    /// the heap stay zero.
    pub fn initial_heap_pages(&self, initial_size: usize) -> (r: Vec<usize>)
        ensures
            forall|i: int, j: int| 0 <= i < j < r@.len() ==> r@[i] < r@[j],
            forall|p: usize|
                r@.contains(p) <==> (p < initial_size / 4096 && p
                    < self.sparse_page_data_spec().len() && self.sparse_page_data_spec()[p as int]
                    is Some),
    {
        let initial_pages = initial_size / 4096;
        let mut pages: Vec<usize> = Vec::new();
        let mut page: usize = 0;
        while page < initial_pages
            invariant
                initial_pages == initial_size / 4096,
                page <= initial_pages,
                forall|i: int, j: int| 0 <= i < j < pages@.len() ==> pages@[i] < pages@[j],
                forall|i: int| 0 <= i < pages@.len() ==> pages@[i] < page,
                forall|p: usize|
                    pages@.contains(p) <==> (p < page && p < self.sparse_page_data_spec().len()
                        && self.sparse_page_data_spec()[p as int] is Some),
            decreases initial_pages - page,
        {
            let present = page < self.sparse_page_data.len() && self.sparse_page_data[page].is_some();
            if present {
                proof {
                    assert forall|p: usize|
                        pages@.push(page).contains(p) <==> (p < page + 1 && p
                            < self.sparse_page_data_spec().len()
                            && self.sparse_page_data_spec()[p as int] is Some) by {
                        if pages@.contains(p) {
                            let k = choose|k: int| 0 <= k < pages@.len() && pages@[k] == p;
                            assert(pages@.push(page)[k] == p);
                        }
                        assert(pages@.push(page)[pages@.len() as int] == page);
                    }
                }
                pages.push(page);
            }
            page = page + 1;
        }
        pages
    }

    /// The number of pages of initial heap data.
    pub fn sparse_page_data_len(&self) -> (r: usize)
        ensures
            r == self.sparse_page_data_spec().len(),
    {
        self.sparse_page_data.len()
    }

    /// The elements of the function table.
    pub fn table_elements(&self) -> (r: Result<&[TableElement], Error>)
        ensures
            r matches Ok(t) && t@ == self.table_elements_spec(),
    {
        Ok(self.table_elements.as_slice())
    }

    /// The function at index `func_id` of table `table_id`; `Error::FuncNotFound` if there is none.
    pub fn get_func_from_idx(&self, table_id: u32, func_id: u32) -> (r: Result<usize, Error>)
        ensures
            self.func_table_spec().dom().contains((table_id, func_id)) ==> r == Ok::<usize, Error>(
                self.func_table_spec()[(table_id, func_id)],
            ),
            !self.func_table_spec().dom().contains((table_id, func_id)) ==> r == Err::<
                usize,
                Error,
            >(Error::FuncNotFound(table_id, func_id)),
    {
        match self.func_table.get(&(table_id, func_id)) {
            Some(f) => Ok(*f),
            None => Err(Error::FuncNotFound(table_id, func_id)),
        }
    }

    /// The start function, if the module has one.
    pub fn get_start_func(&self) -> (r: Option<usize>)
        ensures
            r == self.start_func_spec(),
    {
        self.start_func
    }
}

impl ModuleInternal for MockModule {
    closed spec fn runtime_spec_view(&self) -> RuntimeSpec {
        self.runtime_spec
    }

    closed spec fn trap_manifest_view(&self) -> Seq<TrapManifestRecord> {
        self.trap_manifest@
    }

    fn runtime_spec(&self) -> (r: &RuntimeSpec) {
        &self.runtime_spec
    }

    fn trap_manifest(&self) -> (r: &[TrapManifestRecord]) {
        self.trap_manifest.as_slice()
    }
}

impl Module for MockModule {

}

} // verus!
