//! The cell that holds one parameter value, and the types it can hold.

use crate::kind::Datum;
use crate::kind::Kind;
use vstd::prelude::*;

mod scalar;
mod text;

verus! {

/// The contents of a cell: the value, tagged with its type.
#[derive(Debug)]
enum Content {
    Bool(bool),
    Char(char),
    I8(i8),
    I16(i16),
    I32(i32),
    I64(i64),
    I128(i128),
    Isize(isize),
    U8(u8),
    U16(u16),
    U32(u32),
    U64(u64),
    U128(u128),
    Usize(usize),
    Str(&'static str),
    Text(String),
    Bytes(Vec<u8>),
}

/// A parameter value.
///
/// A cell holds exactly one value and remembers its type. It gives the value
/// back only to a request for that same type.
#[derive(Debug)]
pub struct Value {
    content: Content,
}

impl View for Value {
    type V = Datum;

    closed spec fn view(&self) -> Datum {
        match self.content {
            Content::Bool(x) => Datum::Bool(x),
            Content::Char(x) => Datum::Char(x),
            Content::I8(x) => Datum::I8(x),
            Content::I16(x) => Datum::I16(x),
            Content::I32(x) => Datum::I32(x),
            Content::I64(x) => Datum::I64(x),
            Content::I128(x) => Datum::I128(x),
            Content::Isize(x) => Datum::Isize(x),
            Content::U8(x) => Datum::U8(x),
            Content::U16(x) => Datum::U16(x),
            Content::U32(x) => Datum::U32(x),
            Content::U64(x) => Datum::U64(x),
            Content::U128(x) => Datum::U128(x),
            Content::Usize(x) => Datum::Usize(x),
            Content::Str(x) => Datum::Str(x@),
            Content::Text(x) => Datum::Text(x@),
            Content::Bytes(x) => Datum::Bytes(x@),
        }
    }
}

/// A type whose values a cell can hold.
pub trait Storable: Sized {
    /// The kind that a cell records for a value of this type.
    spec fn kind() -> Kind;

    /// What a cell that holds `self` shows.
    spec fn datum(self) -> Datum;

    /// A value is always shown under the kind of its type.
    proof fn lemma_kind(self)
        ensures
            self.datum().kind() == Self::kind(),
    ;

    /// Puts `self` into a new cell.
    fn into_value(self) -> (v: Value)
        ensures
            v@ == self.datum(),
    ;

    /// Borrows the value in `v`, if it has this type.
    fn from_value(v: &Value) -> (r: Option<&Self>)
        ensures
            match r {
                Some(x) => x.datum() == v@,
                None => v@.kind() != Self::kind(),
            },
    ;

    /// Borrows the value in `v` for writing, if it has this type. Whatever is
    /// written is what the cell holds afterwards; a cell of another type is
    /// left alone.
    fn from_value_mut(v: &mut Value) -> (r: Option<&mut Self>)
        ensures
            match r {
                Some(x) => x.datum() == old(v)@ && final(v)@ == final(x).datum(),
                None => old(v)@.kind() != Self::kind() && final(v)@ == old(v)@,
            },
    ;

    /// Makes a second value equal to `self`.
    fn duplicate(&self) -> (r: Self)
        ensures
            r.datum() == self.datum(),
    ;
}

impl Value {
    /// Get the value.
    ///
    /// Gives a duplicate of what the cell holds if that is a `T`, and nothing
    /// if the cell holds a value of another type.
    pub fn get<T: Storable>(&self) -> (r: Option<T>)
        ensures
            r is Some <==> self@.kind() == T::kind(),
            r matches Some(x) ==> x.datum() == self@,
    {
        match T::from_value(self) {
            Some(x) => {
                proof {
                    x.lemma_kind();
                }
                Some(x.duplicate())
            },
            None => None,
        }
    }

    /// Get a reference to the value.
    ///
    /// Lends what the cell holds if that is a `T`, and nothing if the cell
    /// holds a value of another type.
    pub fn get_ref<T: Storable>(&self) -> (r: Option<&T>)
        ensures
            r is Some <==> self@.kind() == T::kind(),
            r matches Some(x) ==> x.datum() == self@,
    {
        match T::from_value(self) {
            Some(x) => {
                proof {
                    x.lemma_kind();
                }
                Some(x)
            },
            None => None,
        }
    }

    /// Get a mutable reference to the value.
    ///
    /// Lends what the cell holds for writing if that is a `T`; what the
    /// borrower leaves there is what the cell holds afterwards. A cell that
    /// holds a value of another type lends nothing and stays as it is.
    pub fn get_mut<T: Storable>(&mut self) -> (r: Option<&mut T>)
        ensures
            r is Some <==> old(self)@.kind() == T::kind(),
            match r {
                Some(x) => x.datum() == old(self)@ && final(self)@ == final(x).datum(),
                None => final(self)@ == old(self)@,
            },
    {
        match T::from_value_mut(self) {
            Some(x) => {
                proof {
                    (*x).lemma_kind();
                }
                Some(x)
            },
            None => None,
        }
    }

    /// Set the value.
    ///
    /// Whatever the cell held before, of whatever type, is dropped.
    pub fn set<T: Storable>(&mut self, value: T)
        ensures
            final(self)@ == value.datum(),
    {
        *self = value.into_value();
    }
}

} // verus!
