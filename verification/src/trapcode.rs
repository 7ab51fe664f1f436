//! The WebAssembly traps a fault can be attributed to.
use vstd::prelude::*;

verus! {

/// The type of a WebAssembly trap.
#[derive(Copy, Clone, Debug, PartialEq, Eq, Structural)]
pub enum TrapCode {
    StackOverflow,
    HeapOutOfBounds,
    OutOfBounds,
    IndirectCallToNull,
    BadSignature,
    IntegerOverflow,
    IntegerDivByZero,
    BadConversionToInteger,
    Interrupt,
    TableOutOfBounds,
    Unreachable,
}

impl TrapCode {
    /// The numeric code of each trap, as laid out in compiled trap tables.
    pub open spec fn code(self) -> u32 {
        match self {
            TrapCode::StackOverflow => 0,
            TrapCode::HeapOutOfBounds => 1,
            TrapCode::OutOfBounds => 2,
            TrapCode::IndirectCallToNull => 3,
            TrapCode::BadSignature => 4,
            TrapCode::IntegerOverflow => 5,
            TrapCode::IntegerDivByZero => 6,
            TrapCode::BadConversionToInteger => 7,
            TrapCode::Interrupt => 8,
            TrapCode::TableOutOfBounds => 9,
            TrapCode::Unreachable => 10,
        }
    }

    /// Decode a trap code from its numeric representation.
    pub fn try_from_u32(v: u32) -> (r: Option<TrapCode>)
        ensures
            r matches Some(t) ==> t.code() == v,
            r is None <==> v > 10,
    {
        match v {
            0 => Some(TrapCode::StackOverflow),
            1 => Some(TrapCode::HeapOutOfBounds),
            2 => Some(TrapCode::OutOfBounds),
            3 => Some(TrapCode::IndirectCallToNull),
            4 => Some(TrapCode::BadSignature),
            5 => Some(TrapCode::IntegerOverflow),
            6 => Some(TrapCode::IntegerDivByZero),
            7 => Some(TrapCode::BadConversionToInteger),
            8 => Some(TrapCode::Interrupt),
            9 => Some(TrapCode::TableOutOfBounds),
            10 => Some(TrapCode::Unreachable),
            _ => None,
        }
    }

    /// The numeric representation of this trap code.
    pub fn to_u32(self) -> (r: u32)
        ensures
            r == self.code(),
    {
        match self {
            TrapCode::StackOverflow => 0,
            TrapCode::HeapOutOfBounds => 1,
            TrapCode::OutOfBounds => 2,
            TrapCode::IndirectCallToNull => 3,
            TrapCode::BadSignature => 4,
            TrapCode::IntegerOverflow => 5,
            TrapCode::IntegerDivByZero => 6,
            TrapCode::BadConversionToInteger => 7,
            TrapCode::Interrupt => 8,
            TrapCode::TableOutOfBounds => 9,
            TrapCode::Unreachable => 10,
        }
    }
}

/// Decoding the numeric representation of a trap code gives the trap code back.
pub proof fn lemma_trapcode_roundtrip(t: TrapCode)
    ensures
        t.code() <= 10,
        forall|u: TrapCode| #[trigger] u.code() == t.code() ==> u == t,
{
}

/// The trap codes in the order of their numeric codes in compiled trap tables.
pub open spec fn trapcodes_by_number() -> Seq<TrapCode> {
    seq![
        TrapCode::StackOverflow,
        TrapCode::HeapOutOfBounds,
        TrapCode::OutOfBounds,
        TrapCode::IndirectCallToNull,
        TrapCode::BadSignature,
        TrapCode::IntegerOverflow,
        TrapCode::IntegerDivByZero,
        TrapCode::BadConversionToInteger,
        TrapCode::Interrupt,
        TrapCode::TableOutOfBounds,
        TrapCode::Unreachable,
    ]
}

/// The numeric code of each trap is its position in the fixed numbering of compiled trap tables
/// (stack overflow 0, heap out of bounds 1, out of bounds 2, indirect call to null 3, bad
/// signature 4, integer overflow 5, integer division by zero 6, bad conversion to integer 7,
/// interrupt 8, table out of bounds 9, unreachable 10): encoding a trap gives its position, and
/// decoding a number up to 10 gives the trap at that position.
pub proof fn lemma_trapcode_numbering(t: TrapCode, n: u32)
    ensures
        trapcodes_by_number().len() == 11,
        trapcodes_by_number()[t.code() as int] == t,
        n <= 10 ==> (forall|u: TrapCode| u.code() == n ==> u == trapcodes_by_number()[n as int]),
        n <= 10 ==> trapcodes_by_number()[n as int].code() == n,
{
}

} // verus!
