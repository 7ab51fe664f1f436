//! Dynamically typed values passed between guest code and the host: what a guest yields, what it
//! is resumed with, and what a terminating hostcall provides. Each value carries its type, so it
//! can be read back only as the type it was made from.
use vstd::prelude::*;

use crate::future::{ResumeVal, YieldedFuture};

verus! {

/// A marker value for a yield or a resume that carries no value.
#[derive(Copy, Clone, Debug, PartialEq, Eq, Structural)]
pub struct EmptyYieldVal;

/// A trap raised by a hostcall; `I32Exit` carries the exit code of a guest that called `proc_exit`.
#[derive(Clone, Debug)]
pub enum Trap {
    I32Exit(i32),
    String(String),
}

/// The dynamic type of a value passed between the guest context and the host.
#[derive(Copy, Clone, Debug, PartialEq, Eq, Structural)]
pub enum DynKind {
    Empty,
    Bool,
    U8,
    U32,
    U64,
    I32,
    I64,
    USize,
    String,
    Bytes,
    Trap,
    Future,
    Resume,
}

impl DynKind {
    /// The name of the Rust type that values of this kind have, as `std::any::type_name` gives it.
    pub open spec fn rust_type_spec(self) -> &'static str {
        match self {
            DynKind::Empty => "lucet_runtime_internals::dynval::EmptyYieldVal",
            DynKind::Bool => "bool",
            DynKind::U8 => "u8",
            DynKind::U32 => "u32",
            DynKind::U64 => "u64",
            DynKind::I32 => "i32",
            DynKind::I64 => "i64",
            DynKind::USize => "usize",
            DynKind::String => "alloc::string::String",
            DynKind::Bytes => "alloc::vec::Vec<u8>",
            DynKind::Trap => "lucet_runtime_internals::dynval::Trap",
            DynKind::Future => "lucet_runtime_internals::future::YieldedFuture",
            DynKind::Resume => "lucet_runtime_internals::future::ResumeVal",
        }
    }

    pub fn rust_type(self) -> (r: &'static str)
        ensures
            r == self.rust_type_spec(),
    {
        match self {
            DynKind::Empty => "lucet_runtime_internals::dynval::EmptyYieldVal",
            DynKind::Bool => "bool",
            DynKind::U8 => "u8",
            DynKind::U32 => "u32",
            DynKind::U64 => "u64",
            DynKind::I32 => "i32",
            DynKind::I64 => "i64",
            DynKind::USize => "usize",
            DynKind::String => "alloc::string::String",
            DynKind::Bytes => "alloc::vec::Vec<u8>",
            DynKind::Trap => "lucet_runtime_internals::dynval::Trap",
            DynKind::Future => "lucet_runtime_internals::future::YieldedFuture",
            DynKind::Resume => "lucet_runtime_internals::future::ResumeVal",
        }
    }
}

/// A dynamically typed value passed between the guest context and the host: what a guest yields,
/// what the host resumes it with, and what a terminating hostcall provides.
#[derive(Debug)]
pub enum DynVal {
    Empty(EmptyYieldVal),
    Bool(bool),
    U8(u8),
    U32(u32),
    U64(u64),
    I32(i32),
    I64(i64),
    USize(usize),
    String(String),
    Bytes(Vec<u8>),
    Trap(Trap),
    Future(YieldedFuture),
    Resume(ResumeVal),
}

impl DynVal {
    pub open spec fn kind_spec(self) -> DynKind {
        match self {
            DynVal::Empty(_) => DynKind::Empty,
            DynVal::Bool(_) => DynKind::Bool,
            DynVal::U8(_) => DynKind::U8,
            DynVal::U32(_) => DynKind::U32,
            DynVal::U64(_) => DynKind::U64,
            DynVal::I32(_) => DynKind::I32,
            DynVal::I64(_) => DynKind::I64,
            DynVal::USize(_) => DynKind::USize,
            DynVal::String(_) => DynKind::String,
            DynVal::Bytes(_) => DynKind::Bytes,
            DynVal::Trap(_) => DynKind::Trap,
            DynVal::Future(_) => DynKind::Future,
            DynVal::Resume(_) => DynKind::Resume,
        }
    }

    /// The dynamic type of this value.
    pub fn kind(&self) -> (k: DynKind)
        ensures
            k == self.kind_spec(),
    {
        match self {
            DynVal::Empty(_) => DynKind::Empty,
            DynVal::Bool(_) => DynKind::Bool,
            DynVal::U8(_) => DynKind::U8,
            DynVal::U32(_) => DynKind::U32,
            DynVal::U64(_) => DynKind::U64,
            DynVal::I32(_) => DynKind::I32,
            DynVal::I64(_) => DynKind::I64,
            DynVal::USize(_) => DynKind::USize,
            DynVal::String(_) => DynKind::String,
            DynVal::Bytes(_) => DynKind::Bytes,
            DynVal::Trap(_) => DynKind::Trap,
            DynVal::Future(_) => DynKind::Future,
            DynVal::Resume(_) => DynKind::Resume,
        }
    }

    /// Is this value of type `A`?
    pub fn is<A: DynValue>(&self) -> (r: bool)
        ensures
            r == (self.kind_spec() == A::dyn_kind()),
    {
        let k = A::kind();
        self.kind() == k
    }

    /// A reference to the value if it is of type `A`.
    pub fn downcast_ref<A: DynValue>(&self) -> (r: Option<&A>)
        ensures
            r is Some <==> self.kind_spec() == A::dyn_kind(),
            r matches Some(v) ==> v.to_dyn_spec() == *self,
    {
        A::ref_from_dyn(self)
    }
}

/// The types whose values can be carried by a `DynVal`.
pub trait DynValue: Sized {
    spec fn dyn_kind() -> DynKind;

    spec fn to_dyn_spec(self) -> DynVal;

    /// Distinct values are carried by distinct `DynVal`s, and each by one of its own kind.
    proof fn lemma_to_dyn(a: Self, b: Self)
        ensures
            a.to_dyn_spec().kind_spec() == Self::dyn_kind(),
            a.to_dyn_spec() == b.to_dyn_spec() ==> a == b,
    ;

    fn kind() -> (k: DynKind)
        ensures
            k == Self::dyn_kind(),
    ;

    fn into_dyn(self) -> (d: DynVal)
        ensures
            d == self.to_dyn_spec(),
    ;

    fn from_dyn(d: DynVal) -> (r: Result<Self, DynVal>)
        ensures
            r is Ok <==> d.kind_spec() == Self::dyn_kind(),
            r matches Ok(v) ==> v.to_dyn_spec() == d,
            r matches Err(e) ==> e == d,
    ;

    fn ref_from_dyn(d: &DynVal) -> (r: Option<&Self>)
        ensures
            r is Some <==> d.kind_spec() == Self::dyn_kind(),
            r matches Some(v) ==> v.to_dyn_spec() == *d,
    ;
}

} // verus!

verus! {

impl DynValue for EmptyYieldVal {
    open spec fn dyn_kind() -> DynKind {
        DynKind::Empty
    }

    open spec fn to_dyn_spec(self) -> DynVal {
        DynVal::Empty(self)
    }

    proof fn lemma_to_dyn(a: Self, b: Self) {
    }

    fn kind() -> (k: DynKind) {
        DynKind::Empty
    }

    fn into_dyn(self) -> (d: DynVal) {
        DynVal::Empty(self)
    }

    fn from_dyn(d: DynVal) -> (r: Result<Self, DynVal>) {
        match d {
            DynVal::Empty(x) => Ok(x),
            other => Err(other),
        }
    }

    fn ref_from_dyn(d: &DynVal) -> (r: Option<&Self>) {
        match d {
            DynVal::Empty(x) => Some(x),
            _ => None,
        }
    }
}

impl DynValue for bool {
    open spec fn dyn_kind() -> DynKind {
        DynKind::Bool
    }

    open spec fn to_dyn_spec(self) -> DynVal {
        DynVal::Bool(self)
    }

    proof fn lemma_to_dyn(a: Self, b: Self) {
    }

    fn kind() -> (k: DynKind) {
        DynKind::Bool
    }

    fn into_dyn(self) -> (d: DynVal) {
        DynVal::Bool(self)
    }

    fn from_dyn(d: DynVal) -> (r: Result<Self, DynVal>) {
        match d {
            DynVal::Bool(x) => Ok(x),
            other => Err(other),
        }
    }

    fn ref_from_dyn(d: &DynVal) -> (r: Option<&Self>) {
        match d {
            DynVal::Bool(x) => Some(x),
            _ => None,
        }
    }
}

impl DynValue for u8 {
    open spec fn dyn_kind() -> DynKind {
        DynKind::U8
    }

    open spec fn to_dyn_spec(self) -> DynVal {
        DynVal::U8(self)
    }

    proof fn lemma_to_dyn(a: Self, b: Self) {
    }

    fn kind() -> (k: DynKind) {
        DynKind::U8
    }

    fn into_dyn(self) -> (d: DynVal) {
        DynVal::U8(self)
    }

    fn from_dyn(d: DynVal) -> (r: Result<Self, DynVal>) {
        match d {
            DynVal::U8(x) => Ok(x),
            other => Err(other),
        }
    }

    fn ref_from_dyn(d: &DynVal) -> (r: Option<&Self>) {
        match d {
            DynVal::U8(x) => Some(x),
            _ => None,
        }
    }
}

impl DynValue for u32 {
    open spec fn dyn_kind() -> DynKind {
        DynKind::U32
    }

    open spec fn to_dyn_spec(self) -> DynVal {
        DynVal::U32(self)
    }

    proof fn lemma_to_dyn(a: Self, b: Self) {
    }

    fn kind() -> (k: DynKind) {
        DynKind::U32
    }

    fn into_dyn(self) -> (d: DynVal) {
        DynVal::U32(self)
    }

    fn from_dyn(d: DynVal) -> (r: Result<Self, DynVal>) {
        match d {
            DynVal::U32(x) => Ok(x),
            other => Err(other),
        }
    }

    fn ref_from_dyn(d: &DynVal) -> (r: Option<&Self>) {
        match d {
            DynVal::U32(x) => Some(x),
            _ => None,
        }
    }
}

impl DynValue for u64 {
    open spec fn dyn_kind() -> DynKind {
        DynKind::U64
    }

    open spec fn to_dyn_spec(self) -> DynVal {
        DynVal::U64(self)
    }

    proof fn lemma_to_dyn(a: Self, b: Self) {
    }

    fn kind() -> (k: DynKind) {
        DynKind::U64
    }

    fn into_dyn(self) -> (d: DynVal) {
        DynVal::U64(self)
    }

    fn from_dyn(d: DynVal) -> (r: Result<Self, DynVal>) {
        match d {
            DynVal::U64(x) => Ok(x),
            other => Err(other),
        }
    }

    fn ref_from_dyn(d: &DynVal) -> (r: Option<&Self>) {
        match d {
            DynVal::U64(x) => Some(x),
            _ => None,
        }
    }
}

impl DynValue for i32 {
    open spec fn dyn_kind() -> DynKind {
        DynKind::I32
    }

    open spec fn to_dyn_spec(self) -> DynVal {
        DynVal::I32(self)
    }

    proof fn lemma_to_dyn(a: Self, b: Self) {
    }

    fn kind() -> (k: DynKind) {
        DynKind::I32
    }

    fn into_dyn(self) -> (d: DynVal) {
        DynVal::I32(self)
    }

    fn from_dyn(d: DynVal) -> (r: Result<Self, DynVal>) {
        match d {
            DynVal::I32(x) => Ok(x),
            other => Err(other),
        }
    }

    fn ref_from_dyn(d: &DynVal) -> (r: Option<&Self>) {
        match d {
            DynVal::I32(x) => Some(x),
            _ => None,
        }
    }
}

impl DynValue for i64 {
    open spec fn dyn_kind() -> DynKind {
        DynKind::I64
    }

    open spec fn to_dyn_spec(self) -> DynVal {
        DynVal::I64(self)
    }

    proof fn lemma_to_dyn(a: Self, b: Self) {
    }

    fn kind() -> (k: DynKind) {
        DynKind::I64
    }

    fn into_dyn(self) -> (d: DynVal) {
        DynVal::I64(self)
    }

    fn from_dyn(d: DynVal) -> (r: Result<Self, DynVal>) {
        match d {
            DynVal::I64(x) => Ok(x),
            other => Err(other),
        }
    }

    fn ref_from_dyn(d: &DynVal) -> (r: Option<&Self>) {
        match d {
            DynVal::I64(x) => Some(x),
            _ => None,
        }
    }
}

impl DynValue for usize {
    open spec fn dyn_kind() -> DynKind {
        DynKind::USize
    }

    open spec fn to_dyn_spec(self) -> DynVal {
        DynVal::USize(self)
    }

    proof fn lemma_to_dyn(a: Self, b: Self) {
    }

    fn kind() -> (k: DynKind) {
        DynKind::USize
    }

    fn into_dyn(self) -> (d: DynVal) {
        DynVal::USize(self)
    }

    fn from_dyn(d: DynVal) -> (r: Result<Self, DynVal>) {
        match d {
            DynVal::USize(x) => Ok(x),
            other => Err(other),
        }
    }

    fn ref_from_dyn(d: &DynVal) -> (r: Option<&Self>) {
        match d {
            DynVal::USize(x) => Some(x),
            _ => None,
        }
    }
}

impl DynValue for String {
    open spec fn dyn_kind() -> DynKind {
        DynKind::String
    }

    open spec fn to_dyn_spec(self) -> DynVal {
        DynVal::String(self)
    }

    proof fn lemma_to_dyn(a: Self, b: Self) {
    }

    fn kind() -> (k: DynKind) {
        DynKind::String
    }

    fn into_dyn(self) -> (d: DynVal) {
        DynVal::String(self)
    }

    fn from_dyn(d: DynVal) -> (r: Result<Self, DynVal>) {
        match d {
            DynVal::String(x) => Ok(x),
            other => Err(other),
        }
    }

    fn ref_from_dyn(d: &DynVal) -> (r: Option<&Self>) {
        match d {
            DynVal::String(x) => Some(x),
            _ => None,
        }
    }
}

impl DynValue for Vec<u8> {
    open spec fn dyn_kind() -> DynKind {
        DynKind::Bytes
    }

    open spec fn to_dyn_spec(self) -> DynVal {
        DynVal::Bytes(self)
    }

    proof fn lemma_to_dyn(a: Self, b: Self) {
    }

    fn kind() -> (k: DynKind) {
        DynKind::Bytes
    }

    fn into_dyn(self) -> (d: DynVal) {
        DynVal::Bytes(self)
    }

    fn from_dyn(d: DynVal) -> (r: Result<Self, DynVal>) {
        match d {
            DynVal::Bytes(x) => Ok(x),
            other => Err(other),
        }
    }

    fn ref_from_dyn(d: &DynVal) -> (r: Option<&Self>) {
        match d {
            DynVal::Bytes(x) => Some(x),
            _ => None,
        }
    }
}

impl DynValue for Trap {
    open spec fn dyn_kind() -> DynKind {
        DynKind::Trap
    }

    open spec fn to_dyn_spec(self) -> DynVal {
        DynVal::Trap(self)
    }

    proof fn lemma_to_dyn(a: Self, b: Self) {
    }

    fn kind() -> (k: DynKind) {
        DynKind::Trap
    }

    fn into_dyn(self) -> (d: DynVal) {
        DynVal::Trap(self)
    }

    fn from_dyn(d: DynVal) -> (r: Result<Self, DynVal>) {
        match d {
            DynVal::Trap(x) => Ok(x),
            other => Err(other),
        }
    }

    fn ref_from_dyn(d: &DynVal) -> (r: Option<&Self>) {
        match d {
            DynVal::Trap(x) => Some(x),
            _ => None,
        }
    }
}

} // verus!
