//! Cells of strings and byte vectors.

use crate::kind::Datum;
use crate::kind::Kind;
use crate::value::Content;
use crate::value::Storable;
use crate::value::Value;
use vstd::prelude::*;

verus! {

impl Storable for &'static str {
    open spec fn kind() -> Kind {
        Kind::Str
    }

    open spec fn datum(self) -> Datum {
        Datum::Str(self@)
    }

    proof fn lemma_kind(self) {
    }

    fn into_value(self) -> (v: Value) {
        Value { content: Content::Str(self) }
    }

    fn from_value(v: &Value) -> (r: Option<&Self>) {
        match &v.content {
            Content::Str(x) => Some(x),
            _ => None,
        }
    }

    fn from_value_mut(v: &mut Value) -> (r: Option<&mut Self>) {
        match &mut v.content {
            Content::Str(x) => Some(x),
            _ => None,
        }
    }

    fn duplicate(&self) -> (r: Self) {
        *self
    }
}

impl Storable for String {
    open spec fn kind() -> Kind {
        Kind::Text
    }

    open spec fn datum(self) -> Datum {
        Datum::Text(self@)
    }

    proof fn lemma_kind(self) {
    }

    fn into_value(self) -> (v: Value) {
        Value { content: Content::Text(self) }
    }

    fn from_value(v: &Value) -> (r: Option<&Self>) {
        match &v.content {
            Content::Text(x) => Some(x),
            _ => None,
        }
    }

    fn from_value_mut(v: &mut Value) -> (r: Option<&mut Self>) {
        match &mut v.content {
            Content::Text(x) => Some(x),
            _ => None,
        }
    }

    fn duplicate(&self) -> (r: Self) {
        self.clone()
    }
}

impl Storable for Vec<u8> {
    open spec fn kind() -> Kind {
        Kind::Bytes
    }

    open spec fn datum(self) -> Datum {
        Datum::Bytes(self@)
    }

    proof fn lemma_kind(self) {
    }

    fn into_value(self) -> (v: Value) {
        Value { content: Content::Bytes(self) }
    }

    fn from_value(v: &Value) -> (r: Option<&Self>) {
        match &v.content {
            Content::Bytes(x) => Some(x),
            _ => None,
        }
    }

    fn from_value_mut(v: &mut Value) -> (r: Option<&mut Self>) {
        match &mut v.content {
            Content::Bytes(x) => Some(x),
            _ => None,
        }
    }

    fn duplicate(&self) -> (r: Self) {
        self.clone()
    }
}

} // verus!
