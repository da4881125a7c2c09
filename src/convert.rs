//! Conversions into `Any`.
use vstd::prelude::*;

use crate::function::Function;
use crate::text::char_text;
use crate::value::{Any, Array, Dict, Null, Pair, Val};

verus! {

impl From<i8> for Any {
    fn from(v: i8) -> (r: Any) {
        Any::I8(v)
    }
}

impl vstd::std_specs::convert::FromSpecImpl<i8> for Any {
    open spec fn obeys_from_spec() -> bool {
        true
    }

    open spec fn from_spec(v: i8) -> Any {
        Any::I8(v)
    }
}

impl From<i16> for Any {
    fn from(v: i16) -> (r: Any) {
        Any::I16(v)
    }
}

impl vstd::std_specs::convert::FromSpecImpl<i16> for Any {
    open spec fn obeys_from_spec() -> bool {
        true
    }

    open spec fn from_spec(v: i16) -> Any {
        Any::I16(v)
    }
}

impl From<i32> for Any {
    fn from(v: i32) -> (r: Any) {
        Any::I32(v)
    }
}

impl vstd::std_specs::convert::FromSpecImpl<i32> for Any {
    open spec fn obeys_from_spec() -> bool {
        true
    }

    open spec fn from_spec(v: i32) -> Any {
        Any::I32(v)
    }
}

impl From<i64> for Any {
    fn from(v: i64) -> (r: Any) {
        Any::I64(v)
    }
}

impl vstd::std_specs::convert::FromSpecImpl<i64> for Any {
    open spec fn obeys_from_spec() -> bool {
        true
    }

    open spec fn from_spec(v: i64) -> Any {
        Any::I64(v)
    }
}

impl From<isize> for Any {
    fn from(v: isize) -> (r: Any) {
        Any::Isize(v)
    }
}

impl vstd::std_specs::convert::FromSpecImpl<isize> for Any {
    open spec fn obeys_from_spec() -> bool {
        true
    }

    open spec fn from_spec(v: isize) -> Any {
        Any::Isize(v)
    }
}

impl From<u8> for Any {
    fn from(v: u8) -> (r: Any) {
        Any::U8(v)
    }
}

impl vstd::std_specs::convert::FromSpecImpl<u8> for Any {
    open spec fn obeys_from_spec() -> bool {
        true
    }

    open spec fn from_spec(v: u8) -> Any {
        Any::U8(v)
    }
}

impl From<u16> for Any {
    fn from(v: u16) -> (r: Any) {
        Any::U16(v)
    }
}

impl vstd::std_specs::convert::FromSpecImpl<u16> for Any {
    open spec fn obeys_from_spec() -> bool {
        true
    }

    open spec fn from_spec(v: u16) -> Any {
        Any::U16(v)
    }
}

impl From<u32> for Any {
    fn from(v: u32) -> (r: Any) {
        Any::U32(v)
    }
}

impl vstd::std_specs::convert::FromSpecImpl<u32> for Any {
    open spec fn obeys_from_spec() -> bool {
        true
    }

    open spec fn from_spec(v: u32) -> Any {
        Any::U32(v)
    }
}

impl From<u64> for Any {
    fn from(v: u64) -> (r: Any) {
        Any::U64(v)
    }
}

impl vstd::std_specs::convert::FromSpecImpl<u64> for Any {
    open spec fn obeys_from_spec() -> bool {
        true
    }

    open spec fn from_spec(v: u64) -> Any {
        Any::U64(v)
    }
}

impl From<usize> for Any {
    fn from(v: usize) -> (r: Any) {
        Any::Usize(v)
    }
}

impl vstd::std_specs::convert::FromSpecImpl<usize> for Any {
    open spec fn obeys_from_spec() -> bool {
        true
    }

    open spec fn from_spec(v: usize) -> Any {
        Any::Usize(v)
    }
}

impl From<bool> for Any {
    fn from(v: bool) -> (r: Any) {
        Any::Bool(v)
    }
}

impl vstd::std_specs::convert::FromSpecImpl<bool> for Any {
    open spec fn obeys_from_spec() -> bool {
        true
    }

    open spec fn from_spec(v: bool) -> Any {
        Any::Bool(v)
    }
}

impl From<String> for Any {
    fn from(v: String) -> (r: Any) {
        Any::String(v)
    }
}

impl vstd::std_specs::convert::FromSpecImpl<String> for Any {
    open spec fn obeys_from_spec() -> bool {
        true
    }

    open spec fn from_spec(v: String) -> Any {
        Any::String(v)
    }
}

impl From<Null> for Any {
    fn from(v: Null) -> (r: Any) {
        Any::Null(v)
    }
}

impl vstd::std_specs::convert::FromSpecImpl<Null> for Any {
    open spec fn obeys_from_spec() -> bool {
        true
    }

    open spec fn from_spec(v: Null) -> Any {
        Any::Null(v)
    }
}

impl From<Array> for Any {
    fn from(v: Array) -> (r: Any) {
        Any::Array(v)
    }
}

impl vstd::std_specs::convert::FromSpecImpl<Array> for Any {
    open spec fn obeys_from_spec() -> bool {
        true
    }

    open spec fn from_spec(v: Array) -> Any {
        Any::Array(v)
    }
}

impl From<Dict> for Any {
    fn from(v: Dict) -> (r: Any) {
        Any::Dict(v)
    }
}

impl vstd::std_specs::convert::FromSpecImpl<Dict> for Any {
    open spec fn obeys_from_spec() -> bool {
        true
    }

    open spec fn from_spec(v: Dict) -> Any {
        Any::Dict(v)
    }
}

impl From<Function> for Any {
    fn from(v: Function) -> (r: Any) {
        Any::Function(v)
    }
}

impl vstd::std_specs::convert::FromSpecImpl<Function> for Any {
    open spec fn obeys_from_spec() -> bool {
        true
    }

    open spec fn from_spec(v: Function) -> Any {
        Any::Function(v)
    }
}

impl From<Pair> for Any {
    fn from(v: Pair) -> (r: Any) {
        Any::Pair(Box::new(v))
    }
}

impl vstd::std_specs::convert::FromSpecImpl<Pair> for Any {
    open spec fn obeys_from_spec() -> bool {
        true
    }

    open spec fn from_spec(v: Pair) -> Any {
        Any::Pair(Box::new(v))
    }
}

impl From<Vec<Any>> for Array {
    fn from(v: Vec<Any>) -> (r: Array) {
        Array(v)
    }
}

impl vstd::std_specs::convert::FromSpecImpl<Vec<Any>> for Array {
    open spec fn obeys_from_spec() -> bool {
        true
    }

    open spec fn from_spec(v: Vec<Any>) -> Array {
        Array(v)
    }
}

impl From<Vec<Any>> for Any {
    fn from(v: Vec<Any>) -> (r: Any) {
        Any::Array(Array(v))
    }
}

impl vstd::std_specs::convert::FromSpecImpl<Vec<Any>> for Any {
    open spec fn obeys_from_spec() -> bool {
        true
    }

    open spec fn from_spec(v: Vec<Any>) -> Any {
        Any::Array(Array(v))
    }
}

impl From<(Any, Any)> for Pair {
    fn from(v: (Any, Any)) -> (r: Pair) {
        Pair(v.0, v.1)
    }
}

impl vstd::std_specs::convert::FromSpecImpl<(Any, Any)> for Pair {
    open spec fn obeys_from_spec() -> bool {
        true
    }

    open spec fn from_spec(v: (Any, Any)) -> Pair {
        Pair(v.0, v.1)
    }
}

/// A string slice becomes an owned string.
impl<'a> From<&'a str> for Any {
    fn from(v: &'a str) -> (r: Any)
        ensures
            r@ == Val::String(v@),
    {
        Any::String(String::from_str(v))
    }
}

/// A character becomes a string that holds it alone.
impl From<char> for Any {
    fn from(v: char) -> (r: Any)
        ensures
            r@ == Val::String(seq![v]),
    {
        Any::String(char_text(v))
    }
}

/// What the conversion gives is stated on `from` itself: a string value
/// is not a spec expression.
impl<'a>  vstd::std_specs::convert::FromSpecImpl<&'a str> for Any {
    open spec fn obeys_from_spec() -> bool {
        false
    }

    open spec fn from_spec(v: &'a str) -> Any {
        arbitrary()
    }
}

/// What the conversion gives is stated on `from` itself: a string value
/// is not a spec expression.
impl vstd::std_specs::convert::FromSpecImpl<char> for Any {
    open spec fn obeys_from_spec() -> bool {
        false
    }

    open spec fn from_spec(v: char) -> Any {
        arbitrary()
    }
}

} // verus!
