//! Host scalars as values: each integer type and strings become the value
//! of their kind.

use vstd::prelude::*;
use vstd::std_specs::convert::FromSpecImpl;
use vstd::string::*;
use crate::text::owned;
use crate::value::{Value, ValueView};

verus! {

impl From<i8> for Value {
    fn from(item: i8) -> (r: Value) {
        Value::Int8(item)
    }
}

impl FromSpecImpl<i8> for Value {
    open spec fn obeys_from_spec() -> bool {
        true
    }

    open spec fn from_spec(item: i8) -> Value {
        Value::Int8(item)
    }
}

impl From<i16> for Value {
    fn from(item: i16) -> (r: Value) {
        Value::Int16(item)
    }
}

impl FromSpecImpl<i16> for Value {
    open spec fn obeys_from_spec() -> bool {
        true
    }

    open spec fn from_spec(item: i16) -> Value {
        Value::Int16(item)
    }
}

impl From<i32> for Value {
    fn from(item: i32) -> (r: Value) {
        Value::Int32(item)
    }
}

impl FromSpecImpl<i32> for Value {
    open spec fn obeys_from_spec() -> bool {
        true
    }

    open spec fn from_spec(item: i32) -> Value {
        Value::Int32(item)
    }
}

impl From<i64> for Value {
    fn from(item: i64) -> (r: Value) {
        Value::Int64(item)
    }
}

impl FromSpecImpl<i64> for Value {
    open spec fn obeys_from_spec() -> bool {
        true
    }

    open spec fn from_spec(item: i64) -> Value {
        Value::Int64(item)
    }
}

impl From<u8> for Value {
    fn from(item: u8) -> (r: Value) {
        Value::UInt8(item)
    }
}

impl FromSpecImpl<u8> for Value {
    open spec fn obeys_from_spec() -> bool {
        true
    }

    open spec fn from_spec(item: u8) -> Value {
        Value::UInt8(item)
    }
}

impl From<u16> for Value {
    fn from(item: u16) -> (r: Value) {
        Value::UInt16(item)
    }
}

impl FromSpecImpl<u16> for Value {
    open spec fn obeys_from_spec() -> bool {
        true
    }

    open spec fn from_spec(item: u16) -> Value {
        Value::UInt16(item)
    }
}

impl From<u32> for Value {
    fn from(item: u32) -> (r: Value) {
        Value::UInt32(item)
    }
}

impl FromSpecImpl<u32> for Value {
    open spec fn obeys_from_spec() -> bool {
        true
    }

    open spec fn from_spec(item: u32) -> Value {
        Value::UInt32(item)
    }
}

impl From<u64> for Value {
    fn from(item: u64) -> (r: Value) {
        Value::UInt64(item)
    }
}

impl FromSpecImpl<u64> for Value {
    open spec fn obeys_from_spec() -> bool {
        true
    }

    open spec fn from_spec(item: u64) -> Value {
        Value::UInt64(item)
    }
}

impl From<i128> for Value {
    fn from(item: i128) -> (r: Value) {
        Value::Int128(item)
    }
}

impl FromSpecImpl<i128> for Value {
    open spec fn obeys_from_spec() -> bool {
        true
    }

    open spec fn from_spec(item: i128) -> Value {
        Value::Int128(item)
    }
}

impl From<String> for Value {
    fn from(item: String) -> (r: Value) {
        Value::String(item)
    }
}

impl FromSpecImpl<String> for Value {
    open spec fn obeys_from_spec() -> bool {
        true
    }

    open spec fn from_spec(item: String) -> Value {
        Value::String(item)
    }
}

impl From<&str> for Value {
    fn from(item: &str) -> (r: Value)
        ensures
            r@ == ValueView::String(item@),
    {
        Value::String(owned(item))
    }
}

impl FromSpecImpl<&str> for Value {
    /// The string of a slice is a new one with the same characters, which
    /// the slice alone does not determine: see the contract of `from`.
    open spec fn obeys_from_spec() -> bool {
        false
    }

    open spec fn from_spec(item: &str) -> Value {
        arbitrary()
    }
}

} // verus!
