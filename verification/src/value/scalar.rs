//! Cells of the scalar types: `bool`, `char` and the integers.

use crate::kind::Datum;
use crate::kind::Kind;
use crate::value::Content;
use crate::value::Storable;
use crate::value::Value;
use vstd::prelude::*;

verus! {

impl Storable for bool {
    open spec fn kind() -> Kind {
        Kind::Bool
    }

    open spec fn datum(self) -> Datum {
        Datum::Bool(self)
    }

    proof fn lemma_kind(self) {
    }

    fn into_value(self) -> (v: Value) {
        Value { content: Content::Bool(self) }
    }

    fn from_value(v: &Value) -> (r: Option<&Self>) {
        match &v.content {
            Content::Bool(x) => Some(x),
            _ => None,
        }
    }

    fn from_value_mut(v: &mut Value) -> (r: Option<&mut Self>) {
        match &mut v.content {
            Content::Bool(x) => Some(x),
            _ => None,
        }
    }

    fn duplicate(&self) -> (r: Self) {
        *self
    }
}

impl Storable for char {
    open spec fn kind() -> Kind {
        Kind::Char
    }

    open spec fn datum(self) -> Datum {
        Datum::Char(self)
    }

    proof fn lemma_kind(self) {
    }

    fn into_value(self) -> (v: Value) {
        Value { content: Content::Char(self) }
    }

    fn from_value(v: &Value) -> (r: Option<&Self>) {
        match &v.content {
            Content::Char(x) => Some(x),
            _ => None,
        }
    }

    fn from_value_mut(v: &mut Value) -> (r: Option<&mut Self>) {
        match &mut v.content {
            Content::Char(x) => Some(x),
            _ => None,
        }
    }

    fn duplicate(&self) -> (r: Self) {
        *self
    }
}

impl Storable for i8 {
    open spec fn kind() -> Kind {
        Kind::I8
    }

    open spec fn datum(self) -> Datum {
        Datum::I8(self)
    }

    proof fn lemma_kind(self) {
    }

    fn into_value(self) -> (v: Value) {
        Value { content: Content::I8(self) }
    }

    fn from_value(v: &Value) -> (r: Option<&Self>) {
        match &v.content {
            Content::I8(x) => Some(x),
            _ => None,
        }
    }

    fn from_value_mut(v: &mut Value) -> (r: Option<&mut Self>) {
        match &mut v.content {
            Content::I8(x) => Some(x),
            _ => None,
        }
    }

    fn duplicate(&self) -> (r: Self) {
        *self
    }
}

impl Storable for i16 {
    open spec fn kind() -> Kind {
        Kind::I16
    }

    open spec fn datum(self) -> Datum {
        Datum::I16(self)
    }

    proof fn lemma_kind(self) {
    }

    fn into_value(self) -> (v: Value) {
        Value { content: Content::I16(self) }
    }

    fn from_value(v: &Value) -> (r: Option<&Self>) {
        match &v.content {
            Content::I16(x) => Some(x),
            _ => None,
        }
    }

    fn from_value_mut(v: &mut Value) -> (r: Option<&mut Self>) {
        match &mut v.content {
            Content::I16(x) => Some(x),
            _ => None,
        }
    }

    fn duplicate(&self) -> (r: Self) {
        *self
    }
}

impl Storable for i32 {
    open spec fn kind() -> Kind {
        Kind::I32
    }

    open spec fn datum(self) -> Datum {
        Datum::I32(self)
    }

    proof fn lemma_kind(self) {
    }

    fn into_value(self) -> (v: Value) {
        Value { content: Content::I32(self) }
    }

    fn from_value(v: &Value) -> (r: Option<&Self>) {
        match &v.content {
            Content::I32(x) => Some(x),
            _ => None,
        }
    }

    fn from_value_mut(v: &mut Value) -> (r: Option<&mut Self>) {
        match &mut v.content {
            Content::I32(x) => Some(x),
            _ => None,
        }
    }

    fn duplicate(&self) -> (r: Self) {
        *self
    }
}

impl Storable for i64 {
    open spec fn kind() -> Kind {
        Kind::I64
    }

    open spec fn datum(self) -> Datum {
        Datum::I64(self)
    }

    proof fn lemma_kind(self) {
    }

    fn into_value(self) -> (v: Value) {
        Value { content: Content::I64(self) }
    }

    fn from_value(v: &Value) -> (r: Option<&Self>) {
        match &v.content {
            Content::I64(x) => Some(x),
            _ => None,
        }
    }

    fn from_value_mut(v: &mut Value) -> (r: Option<&mut Self>) {
        match &mut v.content {
            Content::I64(x) => Some(x),
            _ => None,
        }
    }

    fn duplicate(&self) -> (r: Self) {
        *self
    }
}

impl Storable for i128 {
    open spec fn kind() -> Kind {
        Kind::I128
    }

    open spec fn datum(self) -> Datum {
        Datum::I128(self)
    }

    proof fn lemma_kind(self) {
    }

    fn into_value(self) -> (v: Value) {
        Value { content: Content::I128(self) }
    }

    fn from_value(v: &Value) -> (r: Option<&Self>) {
        match &v.content {
            Content::I128(x) => Some(x),
            _ => None,
        }
    }

    fn from_value_mut(v: &mut Value) -> (r: Option<&mut Self>) {
        match &mut v.content {
            Content::I128(x) => Some(x),
            _ => None,
        }
    }

    fn duplicate(&self) -> (r: Self) {
        *self
    }
}

impl Storable for isize {
    open spec fn kind() -> Kind {
        Kind::Isize
    }

    open spec fn datum(self) -> Datum {
        Datum::Isize(self)
    }

    proof fn lemma_kind(self) {
    }

    fn into_value(self) -> (v: Value) {
        Value { content: Content::Isize(self) }
    }

    fn from_value(v: &Value) -> (r: Option<&Self>) {
        match &v.content {
            Content::Isize(x) => Some(x),
            _ => None,
        }
    }

    fn from_value_mut(v: &mut Value) -> (r: Option<&mut Self>) {
        match &mut v.content {
            Content::Isize(x) => Some(x),
            _ => None,
        }
    }

    fn duplicate(&self) -> (r: Self) {
        *self
    }
}

impl Storable for u8 {
    open spec fn kind() -> Kind {
        Kind::U8
    }

    open spec fn datum(self) -> Datum {
        Datum::U8(self)
    }

    proof fn lemma_kind(self) {
    }

    fn into_value(self) -> (v: Value) {
        Value { content: Content::U8(self) }
    }

    fn from_value(v: &Value) -> (r: Option<&Self>) {
        match &v.content {
            Content::U8(x) => Some(x),
            _ => None,
        }
    }

    fn from_value_mut(v: &mut Value) -> (r: Option<&mut Self>) {
        match &mut v.content {
            Content::U8(x) => Some(x),
            _ => None,
        }
    }

    fn duplicate(&self) -> (r: Self) {
        *self
    }
}

impl Storable for u16 {
    open spec fn kind() -> Kind {
        Kind::U16
    }

    open spec fn datum(self) -> Datum {
        Datum::U16(self)
    }

    proof fn lemma_kind(self) {
    }

    fn into_value(self) -> (v: Value) {
        Value { content: Content::U16(self) }
    }

    fn from_value(v: &Value) -> (r: Option<&Self>) {
        match &v.content {
            Content::U16(x) => Some(x),
            _ => None,
        }
    }

    fn from_value_mut(v: &mut Value) -> (r: Option<&mut Self>) {
        match &mut v.content {
            Content::U16(x) => Some(x),
            _ => None,
        }
    }

    fn duplicate(&self) -> (r: Self) {
        *self
    }
}

impl Storable for u32 {
    open spec fn kind() -> Kind {
        Kind::U32
    }

    open spec fn datum(self) -> Datum {
        Datum::U32(self)
    }

    proof fn lemma_kind(self) {
    }

    fn into_value(self) -> (v: Value) {
        Value { content: Content::U32(self) }
    }

    fn from_value(v: &Value) -> (r: Option<&Self>) {
        match &v.content {
            Content::U32(x) => Some(x),
            _ => None,
        }
    }

    fn from_value_mut(v: &mut Value) -> (r: Option<&mut Self>) {
        match &mut v.content {
            Content::U32(x) => Some(x),
            _ => None,
        }
    }

    fn duplicate(&self) -> (r: Self) {
        *self
    }
}

impl Storable for u64 {
    open spec fn kind() -> Kind {
        Kind::U64
    }

    open spec fn datum(self) -> Datum {
        Datum::U64(self)
    }

    proof fn lemma_kind(self) {
    }

    fn into_value(self) -> (v: Value) {
        Value { content: Content::U64(self) }
    }

    fn from_value(v: &Value) -> (r: Option<&Self>) {
        match &v.content {
            Content::U64(x) => Some(x),
            _ => None,
        }
    }

    fn from_value_mut(v: &mut Value) -> (r: Option<&mut Self>) {
        match &mut v.content {
            Content::U64(x) => Some(x),
            _ => None,
        }
    }

    fn duplicate(&self) -> (r: Self) {
        *self
    }
}

impl Storable for u128 {
    open spec fn kind() -> Kind {
        Kind::U128
    }

    open spec fn datum(self) -> Datum {
        Datum::U128(self)
    }

    proof fn lemma_kind(self) {
    }

    fn into_value(self) -> (v: Value) {
        Value { content: Content::U128(self) }
    }

    fn from_value(v: &Value) -> (r: Option<&Self>) {
        match &v.content {
            Content::U128(x) => Some(x),
            _ => None,
        }
    }

    fn from_value_mut(v: &mut Value) -> (r: Option<&mut Self>) {
        match &mut v.content {
            Content::U128(x) => Some(x),
            _ => None,
        }
    }

    fn duplicate(&self) -> (r: Self) {
        *self
    }
}

impl Storable for usize {
    open spec fn kind() -> Kind {
        Kind::Usize
    }

    open spec fn datum(self) -> Datum {
        Datum::Usize(self)
    }

    proof fn lemma_kind(self) {
    }

    fn into_value(self) -> (v: Value) {
        Value { content: Content::Usize(self) }
    }

    fn from_value(v: &Value) -> (r: Option<&Self>) {
        match &v.content {
            Content::Usize(x) => Some(x),
            _ => None,
        }
    }

    fn from_value_mut(v: &mut Value) -> (r: Option<&mut Self>) {
        match &mut v.content {
            Content::Usize(x) => Some(x),
            _ => None,
        }
    }

    fn duplicate(&self) -> (r: Self) {
        *self
    }
}

} // verus!
