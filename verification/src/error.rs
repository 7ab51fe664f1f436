//! The errors the runtime reports.
use vstd::prelude::*;

use crate::instance::{FaultDetails, TerminationDetails};

verus! {

/// Errors raised by the runtime.
#[derive(Debug)]
pub enum Error {
    InternalError(&'static str),
    InvalidArgument(&'static str),
    RegionFull(usize),
    ModuleError(String),
    LimitsExceeded(&'static str),
    NoLinearMemory(&'static str),
    SymbolNotFound(String),
    FuncNotFound(u32, u32),
    RuntimeFault(FaultDetails),
    RuntimeTerminated(TerminationDetails),
    DlError(String),
    Unsupported(&'static str),
    InstanceNotReturned,
    InstanceNotYielded,
    InstanceNeedsStart,
    StartAlreadyRun,
    StartYielded,
}

} // verus!
