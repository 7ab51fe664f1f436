//! Typed values for passing into and returning from sandboxed programs.
use vstd::prelude::*;

verus! {

/// The WebAssembly types of values.
#[derive(Copy, Clone, Debug, PartialEq, Eq, Structural)]
pub enum ValueType {
    I32,
    I64,
    F32,
    F64,
}

/// Typed values used for passing arguments into new contexts, and for reading return values from
/// completed contexts.
///
/// C pointers are carried as addresses, and floating-point values as their IEEE-754 bit patterns.
#[derive(Clone, Copy, Debug)]
pub enum Val {
    CPtr(usize),
    GuestPtr(u32),
    U8(u8),
    U16(u16),
    U32(u32),
    U64(u64),
    I8(i8),
    I16(i16),
    I32(i32),
    I64(i64),
    USize(usize),
    ISize(isize),
    CUChar(u8),
    CUShort(u16),
    CUInt(u32),
    CULong(u64),
    CULongLong(u64),
    CChar(i8),
    CShort(i16),
    CInt(i32),
    CLong(i64),
    CLongLong(i64),
    Bool(bool),
    F32(u32),
    F64(u64),
}

/// Register representation of a `Val`: floating-point values go in SSE registers (a 128-bit
/// pattern), all other values in general-purpose registers.
#[derive(Clone, Copy, Debug)]
pub enum RegVal {
    GpReg(u64),
    FpReg(u128),
}

/// The SSE register holding the single-precision value with bits `bits` in each of its four lanes.
pub open spec fn broadcast_f32(bits: u32) -> u128 {
    (bits as u128) | ((bits as u128) << 32u128) | ((bits as u128) << 64u128) | ((bits as u128)
        << 96u128)
}

/// The SSE register holding the double-precision value with bits `bits` in each of its two lanes.
pub open spec fn broadcast_f64(bits: u64) -> u128 {
    (bits as u128) | ((bits as u128) << 64u128)
}

impl Val {
    pub open spec fn value_type_spec(self) -> ValueType {
        match self {
            Val::CPtr(_) => ValueType::I64,
            Val::GuestPtr(_) => ValueType::I32,
            Val::U8(_) => ValueType::I32,
            Val::U16(_) => ValueType::I32,
            Val::U32(_) => ValueType::I32,
            Val::U64(_) => ValueType::I64,
            Val::I8(_) => ValueType::I32,
            Val::I16(_) => ValueType::I32,
            Val::I32(_) => ValueType::I32,
            Val::I64(_) => ValueType::I64,
            Val::USize(_) => ValueType::I64,
            Val::ISize(_) => ValueType::I64,
            Val::CUChar(_) => ValueType::I32,
            Val::CUShort(_) => ValueType::I32,
            Val::CUInt(_) => ValueType::I32,
            Val::CULong(_) => ValueType::I64,
            Val::CULongLong(_) => ValueType::I64,
            Val::CChar(_) => ValueType::I32,
            Val::CShort(_) => ValueType::I32,
            Val::CInt(_) => ValueType::I32,
            Val::CLong(_) => ValueType::I64,
            Val::CLongLong(_) => ValueType::I64,
            Val::Bool(_) => ValueType::I32,
            Val::F32(_) => ValueType::F32,
            Val::F64(_) => ValueType::F64,
        }
    }

    /// The WebAssembly type a value is passed as: pointer-sized and 64-bit integers as `i64`,
    /// smaller integers and booleans as `i32`.
    pub fn value_type(&self) -> (r: ValueType)
        ensures
            r == self.value_type_spec(),
    {
        match self {
            Val::CPtr(_) => ValueType::I64,
            Val::GuestPtr(_) => ValueType::I32,
            Val::U8(_) => ValueType::I32,
            Val::U16(_) => ValueType::I32,
            Val::U32(_) => ValueType::I32,
            Val::U64(_) => ValueType::I64,
            Val::I8(_) => ValueType::I32,
            Val::I16(_) => ValueType::I32,
            Val::I32(_) => ValueType::I32,
            Val::I64(_) => ValueType::I64,
            Val::USize(_) => ValueType::I64,
            Val::ISize(_) => ValueType::I64,
            Val::CUChar(_) => ValueType::I32,
            Val::CUShort(_) => ValueType::I32,
            Val::CUInt(_) => ValueType::I32,
            Val::CULong(_) => ValueType::I64,
            Val::CULongLong(_) => ValueType::I64,
            Val::CChar(_) => ValueType::I32,
            Val::CShort(_) => ValueType::I32,
            Val::CInt(_) => ValueType::I32,
            Val::CLong(_) => ValueType::I64,
            Val::CLongLong(_) => ValueType::I64,
            Val::Bool(_) => ValueType::I32,
            Val::F32(_) => ValueType::F32,
            Val::F64(_) => ValueType::F64,
        }
    }

    pub open spec fn to_stack_spec(self) -> u64 {
        match self {
            Val::CPtr(x) => x as u64,
            Val::GuestPtr(x) => x as u64,
            Val::U8(x) => x as u64,
            Val::U16(x) => x as u64,
            Val::U32(x) => x as u64,
            Val::U64(x) => x as u64,
            Val::I8(x) => x as u64,
            Val::I16(x) => x as u64,
            Val::I32(x) => x as u64,
            Val::I64(x) => x as u64,
            Val::USize(x) => x as u64,
            Val::ISize(x) => x as u64,
            Val::CUChar(x) => x as u64,
            Val::CUShort(x) => x as u64,
            Val::CUInt(x) => x as u64,
            Val::CULong(x) => x as u64,
            Val::CULongLong(x) => x as u64,
            Val::CChar(x) => x as u64,
            Val::CShort(x) => x as u64,
            Val::CInt(x) => x as u64,
            Val::CLong(x) => x as u64,
            Val::CLongLong(x) => x as u64,
            Val::Bool(b) => if b { 1 } else { 0 },
            Val::F32(bits) => bits as u64,
            Val::F64(bits) => bits,
        }
    }

    /// The representation of a `Val` when spilled onto the stack.
    pub fn to_stack(&self) -> (r: u64)
        ensures
            r == self.to_stack_spec(),
    {
        match self {
            Val::CPtr(x) => *x as u64,
            Val::GuestPtr(x) => *x as u64,
            Val::U8(x) => *x as u64,
            Val::U16(x) => *x as u64,
            Val::U32(x) => *x as u64,
            Val::U64(x) => *x as u64,
            Val::I8(x) => *x as u64,
            Val::I16(x) => *x as u64,
            Val::I32(x) => *x as u64,
            Val::I64(x) => *x as u64,
            Val::USize(x) => *x as u64,
            Val::ISize(x) => *x as u64,
            Val::CUChar(x) => *x as u64,
            Val::CUShort(x) => *x as u64,
            Val::CUInt(x) => *x as u64,
            Val::CULong(x) => *x as u64,
            Val::CULongLong(x) => *x as u64,
            Val::CChar(x) => *x as u64,
            Val::CShort(x) => *x as u64,
            Val::CInt(x) => *x as u64,
            Val::CLong(x) => *x as u64,
            Val::CLongLong(x) => *x as u64,
            Val::Bool(false) => 0u64,
            Val::Bool(true) => 1u64,
            Val::F32(bits) => *bits as u64,
            Val::F64(bits) => *bits,
        }
    }

    /// The representation of a `Val` when stored in an argument register.
    pub fn to_reg(&self) -> (r: RegVal)
        ensures
            r == (match *self {
                Val::F32(bits) => RegVal::FpReg(broadcast_f32(bits)),
                Val::F64(bits) => RegVal::FpReg(broadcast_f64(bits)),
                v => RegVal::GpReg(v.to_stack_spec()),
            }),
    {
        match self {
            Val::CPtr(x) => RegVal::GpReg(*x as u64),
            Val::GuestPtr(x) => RegVal::GpReg(*x as u64),
            Val::U8(x) => RegVal::GpReg(*x as u64),
            Val::U16(x) => RegVal::GpReg(*x as u64),
            Val::U32(x) => RegVal::GpReg(*x as u64),
            Val::U64(x) => RegVal::GpReg(*x as u64),
            Val::I8(x) => RegVal::GpReg(*x as u64),
            Val::I16(x) => RegVal::GpReg(*x as u64),
            Val::I32(x) => RegVal::GpReg(*x as u64),
            Val::I64(x) => RegVal::GpReg(*x as u64),
            Val::USize(x) => RegVal::GpReg(*x as u64),
            Val::ISize(x) => RegVal::GpReg(*x as u64),
            Val::CUChar(x) => RegVal::GpReg(*x as u64),
            Val::CUShort(x) => RegVal::GpReg(*x as u64),
            Val::CUInt(x) => RegVal::GpReg(*x as u64),
            Val::CULong(x) => RegVal::GpReg(*x as u64),
            Val::CULongLong(x) => RegVal::GpReg(*x as u64),
            Val::CChar(x) => RegVal::GpReg(*x as u64),
            Val::CShort(x) => RegVal::GpReg(*x as u64),
            Val::CInt(x) => RegVal::GpReg(*x as u64),
            Val::CLong(x) => RegVal::GpReg(*x as u64),
            Val::CLongLong(x) => RegVal::GpReg(*x as u64),
            Val::Bool(false) => RegVal::GpReg(0u64),
            Val::Bool(true) => RegVal::GpReg(1u64),
            Val::F32(bits) => {
                let b = *bits as u128;
                RegVal::FpReg(b | (b << 32u128) | (b << 64u128) | (b << 96u128))
            },
            Val::F64(bits) => {
                let b = *bits as u128;
                RegVal::FpReg(b | (b << 64u128))
            },
        }
    }
}

/// An untyped value returned by guest function calls: the SSE return register (as a 128-bit
/// pattern) and the general-purpose return register.
#[derive(Clone, Copy, Debug)]
pub struct UntypedRetVal {
    fp: u128,
    gp: u64,
}

impl UntypedRetVal {
    pub closed spec fn fp_spec(self) -> u128 {
        self.fp
    }

    pub closed spec fn gp_spec(self) -> u64 {
        self.gp
    }

    pub fn new(gp: u64, fp: u128) -> (r: UntypedRetVal)
        ensures
            r.gp_spec() == gp,
            r.fp_spec() == fp,
    {
        UntypedRetVal { gp, fp }
    }

    /// The general-purpose return register.
    pub fn gp(&self) -> (r: u64)
        ensures
            r == self.gp_spec(),
    {
        self.gp
    }

    /// The SSE return register.
    pub fn fp(&self) -> (r: u128)
        ensures
            r == self.fp_spec(),
    {
        self.fp
    }

    /// The bits of the single-precision value returned in the lowest lane of the SSE register.
    pub fn f32_bits(&self) -> (r: u32)
        ensures
            r == self.fp_spec() as u32,
    {
        self.fp as u32
    }

    /// The bits of the double-precision value returned in the lowest lane of the SSE register.
    pub fn f64_bits(&self) -> (r: u64)
        ensures
            r == self.fp_spec() as u64,
    {
        self.fp as u64
    }

    /// The zero return value.
    pub fn default() -> (r: UntypedRetVal)
        ensures
            r.gp_spec() == 0,
            r.fp_spec() == 0,
    {
        UntypedRetVal { fp: 0, gp: 0 }
    }
}

impl From<UntypedRetVal> for u8 {
    fn from(retval: UntypedRetVal) -> (r: u8) {
        retval.gp as u8
    }
}

impl vstd::std_specs::convert::FromSpecImpl<UntypedRetVal> for u8 {
    open spec fn obeys_from_spec() -> bool {
        true
    }

    open spec fn from_spec(retval: UntypedRetVal) -> u8 {
        retval.gp_spec() as u8
    }
}

impl From<UntypedRetVal> for u16 {
    fn from(retval: UntypedRetVal) -> (r: u16) {
        retval.gp as u16
    }
}

impl vstd::std_specs::convert::FromSpecImpl<UntypedRetVal> for u16 {
    open spec fn obeys_from_spec() -> bool {
        true
    }

    open spec fn from_spec(retval: UntypedRetVal) -> u16 {
        retval.gp_spec() as u16
    }
}

impl From<UntypedRetVal> for u32 {
    fn from(retval: UntypedRetVal) -> (r: u32) {
        retval.gp as u32
    }
}

impl vstd::std_specs::convert::FromSpecImpl<UntypedRetVal> for u32 {
    open spec fn obeys_from_spec() -> bool {
        true
    }

    open spec fn from_spec(retval: UntypedRetVal) -> u32 {
        retval.gp_spec() as u32
    }
}

impl From<UntypedRetVal> for u64 {
    fn from(retval: UntypedRetVal) -> (r: u64) {
        retval.gp as u64
    }
}

impl vstd::std_specs::convert::FromSpecImpl<UntypedRetVal> for u64 {
    open spec fn obeys_from_spec() -> bool {
        true
    }

    open spec fn from_spec(retval: UntypedRetVal) -> u64 {
        retval.gp_spec() as u64
    }
}

impl From<UntypedRetVal> for i8 {
    fn from(retval: UntypedRetVal) -> (r: i8) {
        retval.gp as i8
    }
}

impl vstd::std_specs::convert::FromSpecImpl<UntypedRetVal> for i8 {
    open spec fn obeys_from_spec() -> bool {
        true
    }

    open spec fn from_spec(retval: UntypedRetVal) -> i8 {
        retval.gp_spec() as i8
    }
}

impl From<UntypedRetVal> for i16 {
    fn from(retval: UntypedRetVal) -> (r: i16) {
        retval.gp as i16
    }
}

impl vstd::std_specs::convert::FromSpecImpl<UntypedRetVal> for i16 {
    open spec fn obeys_from_spec() -> bool {
        true
    }

    open spec fn from_spec(retval: UntypedRetVal) -> i16 {
        retval.gp_spec() as i16
    }
}

impl From<UntypedRetVal> for i32 {
    fn from(retval: UntypedRetVal) -> (r: i32) {
        retval.gp as i32
    }
}

impl vstd::std_specs::convert::FromSpecImpl<UntypedRetVal> for i32 {
    open spec fn obeys_from_spec() -> bool {
        true
    }

    open spec fn from_spec(retval: UntypedRetVal) -> i32 {
        retval.gp_spec() as i32
    }
}

impl From<UntypedRetVal> for i64 {
    fn from(retval: UntypedRetVal) -> (r: i64) {
        retval.gp as i64
    }
}

impl vstd::std_specs::convert::FromSpecImpl<UntypedRetVal> for i64 {
    open spec fn obeys_from_spec() -> bool {
        true
    }

    open spec fn from_spec(retval: UntypedRetVal) -> i64 {
        retval.gp_spec() as i64
    }
}

impl From<UntypedRetVal> for bool {
    fn from(retval: UntypedRetVal) -> (r: bool) {
        retval.gp != 0
    }
}

impl vstd::std_specs::convert::FromSpecImpl<UntypedRetVal> for bool {
    open spec fn obeys_from_spec() -> bool {
        true
    }

    open spec fn from_spec(retval: UntypedRetVal) -> bool {
        retval.gp_spec() != 0
    }
}

impl From<u8> for Val {
    fn from(x: u8) -> (r: Val) {
        Val::U8(x)
    }
}

impl vstd::std_specs::convert::FromSpecImpl<u8> for Val {
    open spec fn obeys_from_spec() -> bool {
        true
    }

    open spec fn from_spec(x: u8) -> Val {
        Val::U8(x)
    }
}

impl From<u16> for Val {
    fn from(x: u16) -> (r: Val) {
        Val::U16(x)
    }
}

impl vstd::std_specs::convert::FromSpecImpl<u16> for Val {
    open spec fn obeys_from_spec() -> bool {
        true
    }

    open spec fn from_spec(x: u16) -> Val {
        Val::U16(x)
    }
}

impl From<u32> for Val {
    fn from(x: u32) -> (r: Val) {
        Val::U32(x)
    }
}

impl vstd::std_specs::convert::FromSpecImpl<u32> for Val {
    open spec fn obeys_from_spec() -> bool {
        true
    }

    open spec fn from_spec(x: u32) -> Val {
        Val::U32(x)
    }
}

impl From<u64> for Val {
    fn from(x: u64) -> (r: Val) {
        Val::U64(x)
    }
}

impl vstd::std_specs::convert::FromSpecImpl<u64> for Val {
    open spec fn obeys_from_spec() -> bool {
        true
    }

    open spec fn from_spec(x: u64) -> Val {
        Val::U64(x)
    }
}

impl From<i8> for Val {
    fn from(x: i8) -> (r: Val) {
        Val::I8(x)
    }
}

impl vstd::std_specs::convert::FromSpecImpl<i8> for Val {
    open spec fn obeys_from_spec() -> bool {
        true
    }

    open spec fn from_spec(x: i8) -> Val {
        Val::I8(x)
    }
}

impl From<i16> for Val {
    fn from(x: i16) -> (r: Val) {
        Val::I16(x)
    }
}

impl vstd::std_specs::convert::FromSpecImpl<i16> for Val {
    open spec fn obeys_from_spec() -> bool {
        true
    }

    open spec fn from_spec(x: i16) -> Val {
        Val::I16(x)
    }
}

impl From<i32> for Val {
    fn from(x: i32) -> (r: Val) {
        Val::I32(x)
    }
}

impl vstd::std_specs::convert::FromSpecImpl<i32> for Val {
    open spec fn obeys_from_spec() -> bool {
        true
    }

    open spec fn from_spec(x: i32) -> Val {
        Val::I32(x)
    }
}

impl From<i64> for Val {
    fn from(x: i64) -> (r: Val) {
        Val::I64(x)
    }
}

impl vstd::std_specs::convert::FromSpecImpl<i64> for Val {
    open spec fn obeys_from_spec() -> bool {
        true
    }

    open spec fn from_spec(x: i64) -> Val {
        Val::I64(x)
    }
}

impl From<usize> for Val {
    fn from(x: usize) -> (r: Val) {
        Val::USize(x)
    }
}

impl vstd::std_specs::convert::FromSpecImpl<usize> for Val {
    open spec fn obeys_from_spec() -> bool {
        true
    }

    open spec fn from_spec(x: usize) -> Val {
        Val::USize(x)
    }
}

impl From<isize> for Val {
    fn from(x: isize) -> (r: Val) {
        Val::ISize(x)
    }
}

impl vstd::std_specs::convert::FromSpecImpl<isize> for Val {
    open spec fn obeys_from_spec() -> bool {
        true
    }

    open spec fn from_spec(x: isize) -> Val {
        Val::ISize(x)
    }
}

impl From<bool> for Val {
    fn from(x: bool) -> (r: Val) {
        Val::Bool(x)
    }
}

impl vstd::std_specs::convert::FromSpecImpl<bool> for Val {
    open spec fn obeys_from_spec() -> bool {
        true
    }

    open spec fn from_spec(x: bool) -> Val {
        Val::Bool(x)
    }
}

/// Values are passed to the guest as the WebAssembly type of their width: 64-bit and
/// pointer-sized integers as `i64`, integers of 32 bits or fewer, booleans and guest pointers as
/// `i32`, and floating-point values as the float type of their width.
pub proof fn lemma_value_type_by_width(v: Val)
    ensures
        v is I64 || v is U64 || v is ISize || v is USize || v is CPtr || v is CLong || v is CLongLong
            || v is CULong || v is CULongLong ==> v.value_type_spec() == ValueType::I64,
        v is I32 || v is U32 || v is I16 || v is U16 || v is I8 || v is U8 || v is CInt || v is CUInt
            || v is CShort || v is CUShort || v is CChar || v is CUChar || v is Bool || v is GuestPtr
            ==> v.value_type_spec() == ValueType::I32,
        v is F32 ==> v.value_type_spec() == ValueType::F32,
        v is F64 ==> v.value_type_spec() == ValueType::F64,
{
}

} // verus!
