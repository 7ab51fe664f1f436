//! Functions the runtime keeps linked for compiled guest code to call.
use vstd::prelude::*;

verus! {

/// A C function the runtime must keep linked: its symbol name and its address.
pub struct LinkAbi {
    name: &'static str,
    f: usize,
}

impl LinkAbi {
    pub closed spec fn name_spec(&self) -> &'static str {
        self.name
    }

    pub closed spec fn addr_spec(&self) -> usize {
        self.f
    }

    pub fn new(name: &'static str, f: usize) -> (r: Self)
        ensures
            r.name_spec() == name,
            r.addr_spec() == f,
    {
        Self { name, f }
    }

    /// The symbol name.
    pub fn name(&self) -> (r: &'static str)
        ensures
            r == self.name_spec(),
    {
        self.name
    }

    /// The function's address.
    pub fn addr(&self) -> (r: usize)
        ensures
            r == self.addr_spec(),
    {
        self.f
    }
}

} // verus!
