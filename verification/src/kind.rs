//! The mathematical picture of a stored value: which type it has and what it
//! holds.

use vstd::prelude::*;

verus! {

/// The type of a stored value, as its cell records it.
///
/// Two types never share a kind: a borrowed string (`Str`) and an owned one
/// (`Text`) are as different as a `bool` and an `i32`.
pub enum Kind {
    Bool,
    Char,
    I8,
    I16,
    I32,
    I64,
    I128,
    Isize,
    U8,
    U16,
    U32,
    U64,
    U128,
    Usize,
    Str,
    Text,
    Bytes,
}

/// What a cell holds: a value together with its type.
///
/// Strings and byte vectors appear by their contents.
pub enum Datum {
    Bool(bool),
    Char(char),
    I8(i8),
    I16(i16),
    I32(i32),
    I64(i64),
    I128(i128),
    Isize(isize),
    U8(u8),
    U16(u16),
    U32(u32),
    U64(u64),
    U128(u128),
    Usize(usize),
    Str(Seq<char>),
    Text(Seq<char>),
    Bytes(Seq<u8>),
}

impl Datum {
    /// The type that the cell records for this content.
    pub open spec fn kind(self) -> Kind {
        match self {
            Datum::Bool(_) => Kind::Bool,
            Datum::Char(_) => Kind::Char,
            Datum::I8(_) => Kind::I8,
            Datum::I16(_) => Kind::I16,
            Datum::I32(_) => Kind::I32,
            Datum::I64(_) => Kind::I64,
            Datum::I128(_) => Kind::I128,
            Datum::Isize(_) => Kind::Isize,
            Datum::U8(_) => Kind::U8,
            Datum::U16(_) => Kind::U16,
            Datum::U32(_) => Kind::U32,
            Datum::U64(_) => Kind::U64,
            Datum::U128(_) => Kind::U128,
            Datum::Usize(_) => Kind::Usize,
            Datum::Str(_) => Kind::Str,
            Datum::Text(_) => Kind::Text,
            Datum::Bytes(_) => Kind::Bytes,
        }
    }
}

} // verus!
