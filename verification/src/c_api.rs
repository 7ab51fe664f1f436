//! The types the runtime exposes to C, and their conversions from and to the runtime's own.
#![allow(non_camel_case_types)]

use vstd::prelude::*;

use crate::allocation::{Limits, DEFAULT_SIGNAL_STACK_SIZE};
use crate::error::Error;
use crate::instance::TerminationDetails;
use crate::allocation::AddrLocation;
use crate::signals::{guest_signal_outcome, GuestSignal, SignalBehavior};
use crate::state::{FaultSignal, State};
use crate::trapcode::TrapCode;
use crate::val::{UntypedRetVal, Val};

verus! {

/// Marker type for the `vmctx` pointer argument.
pub struct lucet_vmctx {
    _unused: [u8; 0],
}

pub struct lucet_instance {
    _unused: [u8; 0],
}

pub struct lucet_region {
    _unused: [u8; 0],
}

pub struct lucet_dl_module {
    _unused: [u8; 0],
}

/// Error codes of the C API.
#[derive(Clone, Copy, Debug, PartialEq, Eq, Structural)]
pub enum lucet_error {
    Success,
    InvalidArgument,
    RegionFull,
    Module,
    LimitsExceeded,
    NoLinearMemory,
    SymbolNotFound,
    FuncNotFound,
    RuntimeFault,
    RuntimeTerminated,
    Dl,
    Internal,
    Unsupported,
}

/// The C error code of an error; misuses of an instance (running or resuming it in the wrong
/// state) are invalid arguments.
pub open spec fn error_code(e: Error) -> lucet_error {
    match e {
            Error::InternalError(_) => lucet_error::Internal,
            Error::InvalidArgument(_) => lucet_error::InvalidArgument,
            Error::RegionFull(_) => lucet_error::RegionFull,
            Error::ModuleError(_) => lucet_error::Module,
            Error::LimitsExceeded(_) => lucet_error::LimitsExceeded,
            Error::NoLinearMemory(_) => lucet_error::NoLinearMemory,
            Error::SymbolNotFound(_) => lucet_error::SymbolNotFound,
            Error::FuncNotFound(_, _) => lucet_error::FuncNotFound,
            Error::RuntimeFault(_) => lucet_error::RuntimeFault,
            Error::RuntimeTerminated(_) => lucet_error::RuntimeTerminated,
            Error::DlError(_) => lucet_error::Dl,
            Error::Unsupported(_) => lucet_error::Unsupported,
            Error::InstanceNotReturned => lucet_error::InvalidArgument,
            Error::InstanceNotYielded => lucet_error::InvalidArgument,
            Error::InstanceNeedsStart => lucet_error::InvalidArgument,
            Error::StartAlreadyRun => lucet_error::InvalidArgument,
            Error::StartYielded => lucet_error::InvalidArgument,
    }
}

impl From<Error> for lucet_error {
    fn from(e: Error) -> (r: lucet_error) {
        match e {
            Error::InternalError(_) => lucet_error::Internal,
            Error::InvalidArgument(_) => lucet_error::InvalidArgument,
            Error::RegionFull(_) => lucet_error::RegionFull,
            Error::ModuleError(_) => lucet_error::Module,
            Error::LimitsExceeded(_) => lucet_error::LimitsExceeded,
            Error::NoLinearMemory(_) => lucet_error::NoLinearMemory,
            Error::SymbolNotFound(_) => lucet_error::SymbolNotFound,
            Error::FuncNotFound(_, _) => lucet_error::FuncNotFound,
            Error::RuntimeFault(_) => lucet_error::RuntimeFault,
            Error::RuntimeTerminated(_) => lucet_error::RuntimeTerminated,
            Error::DlError(_) => lucet_error::Dl,
            Error::Unsupported(_) => lucet_error::Unsupported,
            Error::InstanceNotReturned => lucet_error::InvalidArgument,
            Error::InstanceNotYielded => lucet_error::InvalidArgument,
            Error::InstanceNeedsStart => lucet_error::InvalidArgument,
            Error::StartAlreadyRun => lucet_error::InvalidArgument,
            Error::StartYielded => lucet_error::InvalidArgument,
        }
    }
}

impl vstd::std_specs::convert::FromSpecImpl<Error> for lucet_error {
    open spec fn obeys_from_spec() -> bool {
        true
    }

    open spec fn from_spec(e: Error) -> lucet_error {
        error_code(e)
    }
}

/// Trap codes of the C API; `Unknown` stands for a fault at no known trap site.
#[derive(Clone, Copy, Debug, PartialEq, Eq, Structural)]
pub enum lucet_trapcode {
    StackOverflow,
    HeapOutOfBounds,
    OutOfBounds,
    IndirectCallToNull,
    BadSignature,
    IntegerOverflow,
    IntegerDivByZero,
    BadConversionToInteger,
    Interrupt,
    TableOutOfBounds,
    Unreachable,
    Unknown,
}

pub open spec fn trapcode_code(t: Option<TrapCode>) -> lucet_trapcode {
    match t {
        Some(t) => match t {
                TrapCode::StackOverflow => lucet_trapcode::StackOverflow,
                TrapCode::HeapOutOfBounds => lucet_trapcode::HeapOutOfBounds,
                TrapCode::OutOfBounds => lucet_trapcode::OutOfBounds,
                TrapCode::IndirectCallToNull => lucet_trapcode::IndirectCallToNull,
                TrapCode::BadSignature => lucet_trapcode::BadSignature,
                TrapCode::IntegerOverflow => lucet_trapcode::IntegerOverflow,
                TrapCode::IntegerDivByZero => lucet_trapcode::IntegerDivByZero,
                TrapCode::BadConversionToInteger => lucet_trapcode::BadConversionToInteger,
                TrapCode::Interrupt => lucet_trapcode::Interrupt,
                TrapCode::TableOutOfBounds => lucet_trapcode::TableOutOfBounds,
                TrapCode::Unreachable => lucet_trapcode::Unreachable,
        },
        None => lucet_trapcode::Unknown,
    }
}

impl From<Option<TrapCode>> for lucet_trapcode {
    fn from(t: Option<TrapCode>) -> (r: lucet_trapcode) {
        match t {
            Some(t) => match t {
                    TrapCode::StackOverflow => lucet_trapcode::StackOverflow,
                    TrapCode::HeapOutOfBounds => lucet_trapcode::HeapOutOfBounds,
                    TrapCode::OutOfBounds => lucet_trapcode::OutOfBounds,
                    TrapCode::IndirectCallToNull => lucet_trapcode::IndirectCallToNull,
                    TrapCode::BadSignature => lucet_trapcode::BadSignature,
                    TrapCode::IntegerOverflow => lucet_trapcode::IntegerOverflow,
                    TrapCode::IntegerDivByZero => lucet_trapcode::IntegerDivByZero,
                    TrapCode::BadConversionToInteger => lucet_trapcode::BadConversionToInteger,
                    TrapCode::Interrupt => lucet_trapcode::Interrupt,
                    TrapCode::TableOutOfBounds => lucet_trapcode::TableOutOfBounds,
                    TrapCode::Unreachable => lucet_trapcode::Unreachable,
            },
            None => lucet_trapcode::Unknown,
        }
    }
}

impl vstd::std_specs::convert::FromSpecImpl<Option<TrapCode>> for lucet_trapcode {
    open spec fn obeys_from_spec() -> bool {
        true
    }

    open spec fn from_spec(t: Option<TrapCode>) -> lucet_trapcode {
        trapcode_code(t)
    }
}

/// Signal behaviors of the C API.
#[derive(Clone, Copy, Debug, PartialEq, Eq, Structural)]
pub enum lucet_signal_behavior {
    Default,
    Continue,
    Terminate,
}

pub open spec fn signal_behavior_of(sb: lucet_signal_behavior) -> SignalBehavior {
    match sb {
        lucet_signal_behavior::Default => SignalBehavior::Default,
        lucet_signal_behavior::Continue => SignalBehavior::Continue,
        lucet_signal_behavior::Terminate => SignalBehavior::Terminate,
    }
}

impl From<lucet_signal_behavior> for SignalBehavior {
    fn from(sb: lucet_signal_behavior) -> (r: SignalBehavior) {
        match sb {
            lucet_signal_behavior::Default => SignalBehavior::Default,
            lucet_signal_behavior::Continue => SignalBehavior::Continue,
            lucet_signal_behavior::Terminate => SignalBehavior::Terminate,
        }
    }
}

impl vstd::std_specs::convert::FromSpecImpl<lucet_signal_behavior> for SignalBehavior {
    open spec fn obeys_from_spec() -> bool {
        true
    }

    open spec fn from_spec(sb: lucet_signal_behavior) -> SignalBehavior {
        signal_behavior_of(sb)
    }
}

/// The states of an instance as the C API reports them.
#[derive(Clone, Copy, Debug, PartialEq, Eq, Structural)]
pub enum lucet_state_tag {
    Returned,
    Running,
    Fault,
    Terminated,
}

/// The C tag of an instance's state, for the states the C API can report: a ready instance has
/// returned, and running, faulted and terminated ones are reported as such.
pub fn state_tag(state: &State) -> (r: Option<lucet_state_tag>)
    ensures
        r == (match *state {
            State::Ready => Some(lucet_state_tag::Returned),
            State::Running { .. } => Some(lucet_state_tag::Running),
            State::Faulted { .. } => Some(lucet_state_tag::Fault),
            State::Terminated => Some(lucet_state_tag::Terminated),
            _ => None,
        }),
{
    match state {
        State::Ready => Some(lucet_state_tag::Returned),
        State::Running { .. } => Some(lucet_state_tag::Running),
        State::Faulted { .. } => Some(lucet_state_tag::Fault),
        State::Terminated => Some(lucet_state_tag::Terminated),
        _ => None,
    }
}

/// The reasons for a termination that the C API reports.
#[derive(Clone, Copy, Debug, PartialEq, Eq, Structural)]
pub enum lucet_terminated_reason {
    Signal,
    CtxNotFound,
    BorrowError,
    Provided,
}

/// The C reason of a termination, for the terminations the C API can report.
pub fn terminated_reason(details: &TerminationDetails) -> (r: Option<lucet_terminated_reason>)
    ensures
        r == (match *details {
            TerminationDetails::Signal => Some(lucet_terminated_reason::Signal),
            TerminationDetails::CtxNotFound => Some(lucet_terminated_reason::CtxNotFound),
            TerminationDetails::BorrowError(_) => Some(lucet_terminated_reason::BorrowError),
            TerminationDetails::Provided { .. } => Some(lucet_terminated_reason::Provided),
            _ => None,
        }),
{
    match details {
        TerminationDetails::Signal => Some(lucet_terminated_reason::Signal),
        TerminationDetails::CtxNotFound => Some(lucet_terminated_reason::CtxNotFound),
        TerminationDetails::BorrowError(_) => Some(lucet_terminated_reason::BorrowError),
        TerminationDetails::Provided { .. } => Some(lucet_terminated_reason::Provided),
        _ => None,
    }
}

/// The types of values in the C API.
#[derive(Clone, Copy, Debug, PartialEq, Eq, Structural)]
pub enum lucet_val_type {
    C_Ptr,
    GuestPtr,
    U8,
    U16,
    U32,
    U64,
    I8,
    I16,
    I32,
    I64,
    USize,
    ISize,
    Bool,
    F32,
    F64,
}

/// A value in the C API: its type, and the 64 bits that hold it (pointers and unsigned integers
/// zero-extended, signed integers sign-extended, floating-point values as their bit pattern in the
/// low bits).
#[derive(Clone, Copy, Debug)]
pub struct lucet_val {
    pub ty: lucet_val_type,
    pub inner_val: u64,
}

/// The C value of a runtime value; C integer types are passed as the fixed-width types of their
/// size.
pub open spec fn val_to_c(v: Val) -> lucet_val {
    match v {
        Val::CPtr(a) => lucet_val { ty: lucet_val_type::C_Ptr, inner_val: a as u64 },
        Val::GuestPtr(a) => lucet_val { ty: lucet_val_type::GuestPtr, inner_val: a as u64 },
        Val::U8(a) => lucet_val { ty: lucet_val_type::U8, inner_val: a as u64 },
        Val::U16(a) => lucet_val { ty: lucet_val_type::U16, inner_val: a as u64 },
        Val::U32(a) => lucet_val { ty: lucet_val_type::U32, inner_val: a as u64 },
        Val::U64(a) => lucet_val { ty: lucet_val_type::U64, inner_val: a },
        Val::I8(a) => lucet_val { ty: lucet_val_type::I8, inner_val: (a as i64) as u64 },
        Val::I16(a) => lucet_val { ty: lucet_val_type::I16, inner_val: (a as i64) as u64 },
        Val::I32(a) => lucet_val { ty: lucet_val_type::I32, inner_val: (a as i64) as u64 },
        Val::I64(a) => lucet_val { ty: lucet_val_type::I64, inner_val: a as u64 },
        Val::USize(a) => lucet_val { ty: lucet_val_type::USize, inner_val: a as u64 },
        Val::ISize(a) => lucet_val { ty: lucet_val_type::ISize, inner_val: (a as i64) as u64 },
        Val::CUChar(a) => lucet_val { ty: lucet_val_type::U8, inner_val: a as u64 },
        Val::CUShort(a) => lucet_val { ty: lucet_val_type::U16, inner_val: a as u64 },
        Val::CUInt(a) => lucet_val { ty: lucet_val_type::U32, inner_val: a as u64 },
        Val::CULong(a) => lucet_val { ty: lucet_val_type::U64, inner_val: a },
        Val::CULongLong(a) => lucet_val { ty: lucet_val_type::U64, inner_val: a },
        Val::CChar(a) => lucet_val { ty: lucet_val_type::I8, inner_val: (a as i64) as u64 },
        Val::CShort(a) => lucet_val { ty: lucet_val_type::I16, inner_val: (a as i64) as u64 },
        Val::CInt(a) => lucet_val { ty: lucet_val_type::I32, inner_val: (a as i64) as u64 },
        Val::CLong(a) => lucet_val { ty: lucet_val_type::I64, inner_val: a as u64 },
        Val::CLongLong(a) => lucet_val { ty: lucet_val_type::I64, inner_val: a as u64 },
        Val::Bool(a) => lucet_val { ty: lucet_val_type::Bool, inner_val: if a { 1u64 } else { 0u64 } },
        Val::F32(a) => lucet_val { ty: lucet_val_type::F32, inner_val: a as u64 },
        Val::F64(a) => lucet_val { ty: lucet_val_type::F64, inner_val: a },
    }
}

/// The runtime value of a C value. Note that C `I8` values are read as `Val::I16`, and C `I16`
/// values as `Val::I32`.
pub open spec fn val_from_c(v: lucet_val) -> Val {
    let b = v.inner_val;
    match v.ty {
        lucet_val_type::C_Ptr => Val::CPtr(b as usize),
        lucet_val_type::GuestPtr => Val::GuestPtr(b as u32),
        lucet_val_type::U8 => Val::U8(b as u8),
        lucet_val_type::U16 => Val::U16(b as u16),
        lucet_val_type::U32 => Val::U32(b as u32),
        lucet_val_type::U64 => Val::U64(b),
        lucet_val_type::I8 => Val::I16((b as i64) as i16),
        lucet_val_type::I16 => Val::I32((b as i64) as i32),
        lucet_val_type::I32 => Val::I32((b as i64) as i32),
        lucet_val_type::I64 => Val::I64(b as i64),
        lucet_val_type::USize => Val::USize(b as usize),
        lucet_val_type::ISize => Val::ISize((b as i64) as isize),
        lucet_val_type::Bool => Val::Bool(b != 0),
        lucet_val_type::F32 => Val::F32(b as u32),
        lucet_val_type::F64 => Val::F64(b),
    }
}

impl From<Val> for lucet_val {
    fn from(v: Val) -> (r: lucet_val) {
        match v {
            Val::CPtr(a) => lucet_val { ty: lucet_val_type::C_Ptr, inner_val: a as u64 },
            Val::GuestPtr(a) => lucet_val { ty: lucet_val_type::GuestPtr, inner_val: a as u64 },
            Val::U8(a) => lucet_val { ty: lucet_val_type::U8, inner_val: a as u64 },
            Val::U16(a) => lucet_val { ty: lucet_val_type::U16, inner_val: a as u64 },
            Val::U32(a) => lucet_val { ty: lucet_val_type::U32, inner_val: a as u64 },
            Val::U64(a) => lucet_val { ty: lucet_val_type::U64, inner_val: a },
            Val::I8(a) => lucet_val { ty: lucet_val_type::I8, inner_val: (a as i64) as u64 },
            Val::I16(a) => lucet_val { ty: lucet_val_type::I16, inner_val: (a as i64) as u64 },
            Val::I32(a) => lucet_val { ty: lucet_val_type::I32, inner_val: (a as i64) as u64 },
            Val::I64(a) => lucet_val { ty: lucet_val_type::I64, inner_val: a as u64 },
            Val::USize(a) => lucet_val { ty: lucet_val_type::USize, inner_val: a as u64 },
            Val::ISize(a) => lucet_val { ty: lucet_val_type::ISize, inner_val: (a as i64) as u64 },
            Val::CUChar(a) => lucet_val { ty: lucet_val_type::U8, inner_val: a as u64 },
            Val::CUShort(a) => lucet_val { ty: lucet_val_type::U16, inner_val: a as u64 },
            Val::CUInt(a) => lucet_val { ty: lucet_val_type::U32, inner_val: a as u64 },
            Val::CULong(a) => lucet_val { ty: lucet_val_type::U64, inner_val: a },
            Val::CULongLong(a) => lucet_val { ty: lucet_val_type::U64, inner_val: a },
            Val::CChar(a) => lucet_val { ty: lucet_val_type::I8, inner_val: (a as i64) as u64 },
            Val::CShort(a) => lucet_val { ty: lucet_val_type::I16, inner_val: (a as i64) as u64 },
            Val::CInt(a) => lucet_val { ty: lucet_val_type::I32, inner_val: (a as i64) as u64 },
            Val::CLong(a) => lucet_val { ty: lucet_val_type::I64, inner_val: a as u64 },
            Val::CLongLong(a) => lucet_val { ty: lucet_val_type::I64, inner_val: a as u64 },
            Val::Bool(a) => lucet_val { ty: lucet_val_type::Bool, inner_val: if a { 1u64 } else { 0u64 } },
            Val::F32(a) => lucet_val { ty: lucet_val_type::F32, inner_val: a as u64 },
            Val::F64(a) => lucet_val { ty: lucet_val_type::F64, inner_val: a },
        }
    }
}

impl vstd::std_specs::convert::FromSpecImpl<Val> for lucet_val {
    open spec fn obeys_from_spec() -> bool {
        true
    }

    open spec fn from_spec(v: Val) -> lucet_val {
        val_to_c(v)
    }
}

impl From<lucet_val> for Val {
    fn from(v: lucet_val) -> (r: Val) {
        let b = v.inner_val;
        match v.ty {
            lucet_val_type::C_Ptr => Val::CPtr(b as usize),
            lucet_val_type::GuestPtr => Val::GuestPtr(b as u32),
            lucet_val_type::U8 => Val::U8(b as u8),
            lucet_val_type::U16 => Val::U16(b as u16),
            lucet_val_type::U32 => Val::U32(b as u32),
            lucet_val_type::U64 => Val::U64(b),
            lucet_val_type::I8 => Val::I16((b as i64) as i16),
            lucet_val_type::I16 => Val::I32((b as i64) as i32),
            lucet_val_type::I32 => Val::I32((b as i64) as i32),
            lucet_val_type::I64 => Val::I64(b as i64),
            lucet_val_type::USize => Val::USize(b as usize),
            lucet_val_type::ISize => Val::ISize((b as i64) as isize),
            lucet_val_type::Bool => Val::Bool(b != 0),
            lucet_val_type::F32 => Val::F32(b as u32),
            lucet_val_type::F64 => Val::F64(b),
        }
    }
}

impl vstd::std_specs::convert::FromSpecImpl<lucet_val> for Val {
    open spec fn obeys_from_spec() -> bool {
        true
    }

    open spec fn from_spec(v: lucet_val) -> Val {
        val_from_c(v)
    }
}

/// The limits the C API exposes.
#[derive(Clone, Copy, Debug)]
pub struct lucet_alloc_limits {
    pub heap_memory_size: u64,
    pub heap_address_space_size: u64,
    pub stack_size: u64,
    pub globals_size: u64,
}

impl From<Limits> for lucet_alloc_limits {
    fn from(limits: Limits) -> (r: lucet_alloc_limits) {
        lucet_alloc_limits {
            heap_memory_size: limits.heap_memory_size as u64,
            heap_address_space_size: limits.heap_address_space_size as u64,
            stack_size: limits.stack_size as u64,
            globals_size: limits.globals_size as u64,
        }
    }
}

impl vstd::std_specs::convert::FromSpecImpl<Limits> for lucet_alloc_limits {
    open spec fn obeys_from_spec() -> bool {
        true
    }

    open spec fn from_spec(limits: Limits) -> lucet_alloc_limits {
        lucet_alloc_limits {
            heap_memory_size: limits.heap_memory_size as u64,
            heap_address_space_size: limits.heap_address_space_size as u64,
            stack_size: limits.stack_size as u64,
            globals_size: limits.globals_size as u64,
        }
    }
}

/// Limits from the C API, which sets neither the hostcall reservation nor the signal stack size:
/// those keep their default values.
impl From<lucet_alloc_limits> for Limits {
    fn from(limits: lucet_alloc_limits) -> (r: Limits) {
        let defaults = Limits::default();
        Limits {
            heap_memory_size: limits.heap_memory_size as usize,
            heap_address_space_size: limits.heap_address_space_size as usize,
            stack_size: limits.stack_size as usize,
            hostcall_reservation: defaults.hostcall_reservation,
            globals_size: limits.globals_size as usize,
            signal_stack_size: defaults.signal_stack_size,
        }
    }
}

impl vstd::std_specs::convert::FromSpecImpl<lucet_alloc_limits> for Limits {
    open spec fn obeys_from_spec() -> bool {
        true
    }

    open spec fn from_spec(limits: lucet_alloc_limits) -> Limits {
        Limits {
            heap_memory_size: limits.heap_memory_size as usize,
            heap_address_space_size: limits.heap_address_space_size as usize,
            stack_size: limits.stack_size as usize,
            hostcall_reservation: 32768usize,
            globals_size: limits.globals_size as usize,
            signal_stack_size: DEFAULT_SIGNAL_STACK_SIZE,
        }
    }
}

/// An untyped return value as the C API passes it: the bytes of the SSE return register and of the
/// general-purpose return register, least significant first.
#[derive(Clone, Copy, Debug)]
pub struct lucet_untyped_retval {
    pub fp: [i8; 16],
    pub gp: [i8; 8],
}

/// Byte `i` of `x`, least significant first, as a C `char`.
fn le_byte_u128(x: u128, i: u32) -> (r: i8)
    requires
        i < 16,
    ensures
        r == ((x >> (8 * i)) as u8) as i8,
{
    ((x >> (8 * i)) as u8) as i8
}

/// Byte `i` of `x`, least significant first, as a C `char`.
fn le_byte_u64(x: u64, i: u32) -> (r: i8)
    requires
        i < 8,
    ensures
        r == ((x >> (8 * i)) as u8) as i8,
{
    ((x >> (8 * i)) as u8) as i8
}

impl From<UntypedRetVal> for lucet_untyped_retval {
    fn from(retval: UntypedRetVal) -> (r: lucet_untyped_retval) {
        lucet_untyped_retval {
            fp: [
                le_byte_u128(retval.fp(), 0),
                le_byte_u128(retval.fp(), 1),
                le_byte_u128(retval.fp(), 2),
                le_byte_u128(retval.fp(), 3),
                le_byte_u128(retval.fp(), 4),
                le_byte_u128(retval.fp(), 5),
                le_byte_u128(retval.fp(), 6),
                le_byte_u128(retval.fp(), 7),
                le_byte_u128(retval.fp(), 8),
                le_byte_u128(retval.fp(), 9),
                le_byte_u128(retval.fp(), 10),
                le_byte_u128(retval.fp(), 11),
                le_byte_u128(retval.fp(), 12),
                le_byte_u128(retval.fp(), 13),
                le_byte_u128(retval.fp(), 14),
                le_byte_u128(retval.fp(), 15),
            ],
            gp: [
                le_byte_u64(retval.gp(), 0),
                le_byte_u64(retval.gp(), 1),
                le_byte_u64(retval.gp(), 2),
                le_byte_u64(retval.gp(), 3),
                le_byte_u64(retval.gp(), 4),
                le_byte_u64(retval.gp(), 5),
                le_byte_u64(retval.gp(), 6),
                le_byte_u64(retval.gp(), 7),
            ],
        }
    }
}

impl vstd::std_specs::convert::FromSpecImpl<UntypedRetVal> for lucet_untyped_retval {
    open spec fn obeys_from_spec() -> bool {
        true
    }

    open spec fn from_spec(retval: UntypedRetVal) -> lucet_untyped_retval {
        lucet_untyped_retval {
            fp: [
                ((retval.fp_spec() >> 0) as u8) as i8,
                ((retval.fp_spec() >> 8) as u8) as i8,
                ((retval.fp_spec() >> 16) as u8) as i8,
                ((retval.fp_spec() >> 24) as u8) as i8,
                ((retval.fp_spec() >> 32) as u8) as i8,
                ((retval.fp_spec() >> 40) as u8) as i8,
                ((retval.fp_spec() >> 48) as u8) as i8,
                ((retval.fp_spec() >> 56) as u8) as i8,
                ((retval.fp_spec() >> 64) as u8) as i8,
                ((retval.fp_spec() >> 72) as u8) as i8,
                ((retval.fp_spec() >> 80) as u8) as i8,
                ((retval.fp_spec() >> 88) as u8) as i8,
                ((retval.fp_spec() >> 96) as u8) as i8,
                ((retval.fp_spec() >> 104) as u8) as i8,
                ((retval.fp_spec() >> 112) as u8) as i8,
                ((retval.fp_spec() >> 120) as u8) as i8,
            ],
            gp: [
                ((retval.gp_spec() >> 0) as u8) as i8,
                ((retval.gp_spec() >> 8) as u8) as i8,
                ((retval.gp_spec() >> 16) as u8) as i8,
                ((retval.gp_spec() >> 24) as u8) as i8,
                ((retval.gp_spec() >> 32) as u8) as i8,
                ((retval.gp_spec() >> 40) as u8) as i8,
                ((retval.gp_spec() >> 48) as u8) as i8,
                ((retval.gp_spec() >> 56) as u8) as i8,
            ],
        }
    }
}

/// Passing a value to C and back gives it back, except that C integer types come back as the
/// fixed-width types of their size, and signed 8- and 16-bit integers come back widened to 16 and
/// 32 bits.
pub proof fn lemma_c_val_roundtrip(v: Val)
    ensures
        val_from_c(val_to_c(v)) == (match v {
            Val::I8(x) => Val::I16(x as i16),
            Val::I16(x) => Val::I32(x as i32),
            Val::CUChar(x) => Val::U8(x),
            Val::CUShort(x) => Val::U16(x),
            Val::CUInt(x) => Val::U32(x),
            Val::CULong(x) => Val::U64(x),
            Val::CULongLong(x) => Val::U64(x),
            Val::CChar(x) => Val::I16(x as i16),
            Val::CShort(x) => Val::I32(x as i32),
            Val::CInt(x) => Val::I32(x),
            Val::CLong(x) => Val::I64(x),
            Val::CLongLong(x) => Val::I64(x),
            _ => v,
        }),
{
    match v {
        Val::CPtr(a) => {
            assert((a as u64) as usize == a) by (bit_vector);
        },
        Val::GuestPtr(a) => {
            assert((a as u64) as u32 == a) by (bit_vector);
        },
        Val::U8(a) => {
            assert((a as u64) as u8 == a) by (bit_vector);
        },
        Val::U16(a) => {
            assert((a as u64) as u16 == a) by (bit_vector);
        },
        Val::U32(a) => {
            assert((a as u64) as u32 == a) by (bit_vector);
        },
        Val::I8(a) => {
            assert((((a as i64) as u64) as i64) as i16 == a as i16) by (bit_vector);
        },
        Val::I16(a) => {
            assert((((a as i64) as u64) as i64) as i32 == a as i32) by (bit_vector);
        },
        Val::I32(a) => {
            assert((((a as i64) as u64) as i64) as i32 == a) by (bit_vector);
        },
        Val::I64(a) => {
            assert(((a as u64) as i64) == a) by (bit_vector);
        },
        Val::USize(a) => {
            assert((a as u64) as usize == a) by (bit_vector);
        },
        Val::ISize(a) => {
            assert((((a as i64) as u64) as i64) as isize == a) by (bit_vector);
        },
        Val::CUChar(a) => {
            assert((a as u64) as u8 == a) by (bit_vector);
        },
        Val::CUShort(a) => {
            assert((a as u64) as u16 == a) by (bit_vector);
        },
        Val::CUInt(a) => {
            assert((a as u64) as u32 == a) by (bit_vector);
        },
        Val::CChar(a) => {
            assert((((a as i64) as u64) as i64) as i16 == a as i16) by (bit_vector);
        },
        Val::CShort(a) => {
            assert((((a as i64) as u64) as i64) as i32 == a as i32) by (bit_vector);
        },
        Val::CInt(a) => {
            assert((((a as i64) as u64) as i64) as i32 == a) by (bit_vector);
        },
        Val::CLong(a) => {
            assert(((a as u64) as i64) == a) by (bit_vector);
        },
        Val::CLongLong(a) => {
            assert(((a as u64) as i64) == a) by (bit_vector);
        },
        Val::F32(a) => {
            assert((a as u64) as u32 == a) by (bit_vector);
        },
        _ => {},
    }
}

} // verus!

verus! {

/// Passing limits to C and back gives them back, when the hostcall reservation and the signal
/// stack size, which C does not carry, have their default values.
pub proof fn lemma_c_limits_roundtrip(l: Limits)
    requires
        l.hostcall_reservation == 32 * 1024,
        l.signal_stack_size == DEFAULT_SIGNAL_STACK_SIZE,
    ensures
        <Limits as vstd::std_specs::convert::FromSpec<lucet_alloc_limits>>::from_spec(
            <lucet_alloc_limits as vstd::std_specs::convert::FromSpec<Limits>>::from_spec(l),
        ) == l,
{
}

/// Each error is reported to C under the code of the same name; only the errors that come from
/// using an instance in the wrong state (running, resuming or starting it when it may not be)
/// are reported as invalid arguments, along with invalid arguments themselves.
pub proof fn lemma_error_codes_keep_their_kind(e: Error)
    ensures
        e is InternalError ==> error_code(e) == lucet_error::Internal,
        e is InvalidArgument ==> error_code(e) == lucet_error::InvalidArgument,
        e is RegionFull ==> error_code(e) == lucet_error::RegionFull,
        e is ModuleError ==> error_code(e) == lucet_error::Module,
        e is LimitsExceeded ==> error_code(e) == lucet_error::LimitsExceeded,
        e is NoLinearMemory ==> error_code(e) == lucet_error::NoLinearMemory,
        e is SymbolNotFound ==> error_code(e) == lucet_error::SymbolNotFound,
        e is FuncNotFound ==> error_code(e) == lucet_error::FuncNotFound,
        e is RuntimeFault ==> error_code(e) == lucet_error::RuntimeFault,
        e is RuntimeTerminated ==> error_code(e) == lucet_error::RuntimeTerminated,
        e is DlError ==> error_code(e) == lucet_error::Dl,
        e is Unsupported ==> error_code(e) == lucet_error::Unsupported,
        error_code(e) == lucet_error::InvalidArgument <==> (e is InvalidArgument
            || e is InstanceNotReturned || e is InstanceNotYielded || e is InstanceNeedsStart
            || e is StartAlreadyRun || e is StartYielded),
        error_code(e) != lucet_error::Success,
{
}

/// The trap code C sees for a fault is the one of the same name as the fault's trap, and
/// `Unknown` for a fault at no trap site; distinct traps are reported as distinct codes.
pub proof fn lemma_c_trapcodes_keep_their_name(t: Option<TrapCode>, u: Option<TrapCode>)
    ensures
        t is None <==> trapcode_code(t) == lucet_trapcode::Unknown,
        trapcode_code(t) == trapcode_code(u) ==> t == u,
        t == Some(TrapCode::StackOverflow) ==> trapcode_code(t) == lucet_trapcode::StackOverflow,
        t == Some(TrapCode::HeapOutOfBounds) ==> trapcode_code(t) == lucet_trapcode::HeapOutOfBounds,
        t == Some(TrapCode::OutOfBounds) ==> trapcode_code(t) == lucet_trapcode::OutOfBounds,
        t == Some(TrapCode::IndirectCallToNull) ==> trapcode_code(t)
            == lucet_trapcode::IndirectCallToNull,
        t == Some(TrapCode::BadSignature) ==> trapcode_code(t) == lucet_trapcode::BadSignature,
        t == Some(TrapCode::IntegerOverflow) ==> trapcode_code(t) == lucet_trapcode::IntegerOverflow,
        t == Some(TrapCode::IntegerDivByZero) ==> trapcode_code(t)
            == lucet_trapcode::IntegerDivByZero,
        t == Some(TrapCode::BadConversionToInteger) ==> trapcode_code(t)
            == lucet_trapcode::BadConversionToInteger,
        t == Some(TrapCode::Interrupt) ==> trapcode_code(t) == lucet_trapcode::Interrupt,
        t == Some(TrapCode::TableOutOfBounds) ==> trapcode_code(t)
            == lucet_trapcode::TableOutOfBounds,
        t == Some(TrapCode::Unreachable) ==> trapcode_code(t) == lucet_trapcode::Unreachable,
{
}

/// A C signal handler's answer keeps its meaning: `Continue` lets the guest continue as if
/// nothing happened, `Terminate` terminates the instance, and `Default` records the fault and
/// returns to the host; distinct answers stay distinct.
pub proof fn lemma_c_signal_behavior_keeps_its_meaning(
    sb: lucet_signal_behavior,
    other: lucet_signal_behavior,
    trapcode: Option<TrapCode>,
    rip_addr: usize,
    siginfo: FaultSignal,
    alarm_active: bool,
    location: AddrLocation,
)
    ensures
        signal_behavior_of(sb) == signal_behavior_of(other) ==> sb == other,
        ({
            let outcome = guest_signal_outcome(
                GuestSignal::Fault { behavior: signal_behavior_of(sb), trapcode, rip_addr, siginfo },
                alarm_active,
                location,
            );
            &&& sb == lucet_signal_behavior::Continue <==> outcome is None
            &&& sb == lucet_signal_behavior::Terminate <==> outcome == Some(
                State::Terminating { details: TerminationDetails::Signal },
            )
            &&& sb == lucet_signal_behavior::Default <==> outcome matches Some(State::Faulted { .. })
        }),
{
}

/// A value passed to C is tagged with the C value type of its own name, or, for a C integer type,
/// of the fixed-width integer of its size and signedness, and its bits are the value itself:
/// unsigned values and pointers zero-extended, signed values sign-extended, booleans as 0 or 1.
pub proof fn lemma_c_val_keeps_type_and_value(v: Val)
    ensures
        v matches Val::CPtr(a) ==> val_to_c(v).ty == lucet_val_type::C_Ptr && val_to_c(v).inner_val == a,
        v matches Val::GuestPtr(a) ==> val_to_c(v).ty == lucet_val_type::GuestPtr
            && val_to_c(v).inner_val == a,
        v matches Val::U8(a) ==> val_to_c(v).ty == lucet_val_type::U8 && val_to_c(v).inner_val == a,
        v matches Val::U16(a) ==> val_to_c(v).ty == lucet_val_type::U16 && val_to_c(v).inner_val == a,
        v matches Val::U32(a) ==> val_to_c(v).ty == lucet_val_type::U32 && val_to_c(v).inner_val == a,
        v matches Val::U64(a) ==> val_to_c(v).ty == lucet_val_type::U64 && val_to_c(v).inner_val == a,
        v matches Val::USize(a) ==> val_to_c(v).ty == lucet_val_type::USize && val_to_c(v).inner_val
            == a,
        v matches Val::CUChar(a) ==> val_to_c(v).ty == lucet_val_type::U8 && val_to_c(v).inner_val
            == a,
        v matches Val::CUShort(a) ==> val_to_c(v).ty == lucet_val_type::U16 && val_to_c(v).inner_val
            == a,
        v matches Val::CUInt(a) ==> val_to_c(v).ty == lucet_val_type::U32 && val_to_c(v).inner_val
            == a,
        v matches Val::CULong(a) ==> val_to_c(v).ty == lucet_val_type::U64 && val_to_c(v).inner_val
            == a,
        v matches Val::CULongLong(a) ==> val_to_c(v).ty == lucet_val_type::U64
            && val_to_c(v).inner_val == a,
        v matches Val::I8(a) ==> val_to_c(v).ty == lucet_val_type::I8 && (val_to_c(v).inner_val as i64)
            == a,
        v matches Val::I16(a) ==> val_to_c(v).ty == lucet_val_type::I16 && (val_to_c(
            v,
        ).inner_val as i64) == a,
        v matches Val::I32(a) ==> val_to_c(v).ty == lucet_val_type::I32 && (val_to_c(
            v,
        ).inner_val as i64) == a,
        v matches Val::I64(a) ==> val_to_c(v).ty == lucet_val_type::I64 && (val_to_c(
            v,
        ).inner_val as i64) == a,
        v matches Val::ISize(a) ==> val_to_c(v).ty == lucet_val_type::ISize && (val_to_c(
            v,
        ).inner_val as i64) == a,
        v matches Val::CChar(a) ==> val_to_c(v).ty == lucet_val_type::I8 && (val_to_c(
            v,
        ).inner_val as i64) == a,
        v matches Val::CShort(a) ==> val_to_c(v).ty == lucet_val_type::I16 && (val_to_c(
            v,
        ).inner_val as i64) == a,
        v matches Val::CInt(a) ==> val_to_c(v).ty == lucet_val_type::I32 && (val_to_c(
            v,
        ).inner_val as i64) == a,
        v matches Val::CLong(a) ==> val_to_c(v).ty == lucet_val_type::I64 && (val_to_c(
            v,
        ).inner_val as i64) == a,
        v matches Val::CLongLong(a) ==> val_to_c(v).ty == lucet_val_type::I64 && (val_to_c(
            v,
        ).inner_val as i64) == a,
        v matches Val::Bool(a) ==> val_to_c(v).ty == lucet_val_type::Bool && val_to_c(v).inner_val
            == (if a {
            1int
        } else {
            0int
        }),
        v matches Val::F32(a) ==> val_to_c(v).ty == lucet_val_type::F32 && val_to_c(v).inner_val == a,
        v matches Val::F64(a) ==> val_to_c(v).ty == lucet_val_type::F64 && val_to_c(v).inner_val == a,
{
    match v {
        Val::I8(a) => {
            assert(((a as i64) as u64) as i64 == a as i64) by (bit_vector);
        },
        Val::I16(a) => {
            assert(((a as i64) as u64) as i64 == a as i64) by (bit_vector);
        },
        Val::I32(a) => {
            assert(((a as i64) as u64) as i64 == a as i64) by (bit_vector);
        },
        Val::I64(a) => {
            assert((a as u64) as i64 == a) by (bit_vector);
        },
        Val::ISize(a) => {
            assert(((a as i64) as u64) as i64 == a as i64) by (bit_vector);
        },
        Val::CChar(a) => {
            assert(((a as i64) as u64) as i64 == a as i64) by (bit_vector);
        },
        Val::CShort(a) => {
            assert(((a as i64) as u64) as i64 == a as i64) by (bit_vector);
        },
        Val::CInt(a) => {
            assert(((a as i64) as u64) as i64 == a as i64) by (bit_vector);
        },
        Val::CLong(a) => {
            assert((a as u64) as i64 == a) by (bit_vector);
        },
        Val::CLongLong(a) => {
            assert((a as u64) as i64 == a) by (bit_vector);
        },
        _ => {},
    }
}

} // verus!
