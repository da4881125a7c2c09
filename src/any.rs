//! The operations of `Any`: construction, tag tests, casts, and the array,
//! map and function operations, which do nothing (or give null) on a value
//! of another kind.
use vstd::prelude::*;

use crate::cast::{
    array_of, boolean_of, dict_of, integer_defined, integer_of, pair_of, real_of, Anyable, Model,
    Real, ToArray, ToBoolean, ToFloat, ToFunction, ToInteger, ToMap, ToPair,
};
use crate::collections::{distinct_keys, first_key, lacks_key, without_key};
use crate::float::{is_nan32, is_nan64, is_zero32, is_zero64, nan32, nan64, truncate32, truncate64};
use crate::function::Function;
use crate::text::{byte_length, char_text, chars_of, utf8_len};
use crate::value::{entry_views, lemma_entry_views, lemma_views, views, Any, Array, Dict, Kind, Null, Pair, Val};

verus! {

impl Model for Any {
    open spec fn model(&self) -> Val {
        self@
    }
}

/// The null value.
pub fn null() -> (r: Any)
    ensures
        r@ == Val::Null,
{
    Any::Null(Null)
}

impl Any {
    /// Stores `value` under the tag of its kind.
    pub fn new<T: Anyable>(value: T) -> (r: Any)
        ensures
            r@ == value.model(),
    {
        value.into_any()
    }

    /// The tag, fixed when the value was made.
    pub fn type_id(&self) -> (r: Kind)
        ensures
            r == self@.kind(),
    {
        match self {
            Any::I8(_) => Kind::I8,
            Any::I16(_) => Kind::I16,
            Any::I32(_) => Kind::I32,
            Any::I64(_) => Kind::I64,
            Any::Isize(_) => Kind::Isize,
            Any::U8(_) => Kind::U8,
            Any::U16(_) => Kind::U16,
            Any::U32(_) => Kind::U32,
            Any::U64(_) => Kind::U64,
            Any::Usize(_) => Kind::Usize,
            Any::F32(_) => Kind::F32,
            Any::F64(_) => Kind::F64,
            Any::String(_) => Kind::String,
            Any::Str(_) => Kind::Str,
            Any::Bool(_) => Kind::Bool,
            Any::Array(_) => Kind::Array,
            Any::Dict(_) => Kind::Dict,
            Any::Pair(_) => Kind::Pair,
            Any::Null(_) => Kind::Null,
            Any::Function(_) => Kind::Function,
        }
    }

    pub fn is_integer(&self) -> (r: bool)
        ensures
            r == self@.kind().is_integer_kind(),
    {
        match self {
            Any::I8(_) | Any::I16(_) | Any::I32(_) | Any::I64(_) | Any::Isize(_) => true,
            Any::U8(_) | Any::U16(_) | Any::U32(_) | Any::U64(_) | Any::Usize(_) => true,
            _ => false,
        }
    }

    pub fn is_float(&self) -> (r: bool)
        ensures
            r == self@.kind().is_float_kind(),
    {
        match self {
            Any::F32(_) | Any::F64(_) => true,
            _ => false,
        }
    }

    pub fn is_number(&self) -> (r: bool)
        ensures
            r == (self@.kind().is_integer_kind() || self@.kind().is_float_kind()),
    {
        self.is_integer() || self.is_float()
    }

    /// True only for a float whose value is NaN.
    pub fn is_nan(&self) -> (r: bool)
        ensures
            r == (match self@ {
                Val::F32(b) => nan32(b),
                Val::F64(b) => nan64(b),
                _ => false,
            }),
    {
        match self {
            Any::F32(b) => is_nan32(*b),
            Any::F64(b) => is_nan64(*b),
            _ => false,
        }
    }

    pub fn is_string(&self) -> (r: bool)
        ensures
            r == self@.kind().is_string_kind(),
    {
        match self {
            Any::String(_) | Any::Str(_) => true,
            _ => false,
        }
    }

    pub fn is_array(&self) -> (r: bool)
        ensures
            r == (self@.kind() == Kind::Array),
    {
        match self {
            Any::Array(_) => true,
            _ => false,
        }
    }

    pub fn is_map(&self) -> (r: bool)
        ensures
            r == (self@.kind() == Kind::Dict),
    {
        match self {
            Any::Dict(_) => true,
            _ => false,
        }
    }

    pub fn is_null(&self) -> (r: bool)
        ensures
            r == (self@.kind() == Kind::Null),
    {
        match self {
            Any::Null(_) => true,
            _ => false,
        }
    }

    pub fn is_boolean(&self) -> (r: bool)
        ensures
            r == (self@.kind() == Kind::Bool),
    {
        match self {
            Any::Bool(_) => true,
            _ => false,
        }
    }

    pub fn is_function(&self) -> (r: bool)
        ensures
            r == (self@.kind() == Kind::Function),
    {
        match self {
            Any::Function(_) => true,
            _ => false,
        }
    }
}

// casts: each delegates to the capability of the stored kind
impl Any {
    /// The value as an integer; a string must parse as one.
    pub fn to_integer(&self) -> (r: i64)
        requires
            integer_defined(self@),
        ensures
            r as int == integer_of(self@),
    {
        match self {
            Any::I8(v) => v.to_integer(),
            Any::I16(v) => v.to_integer(),
            Any::I32(v) => v.to_integer(),
            Any::I64(v) => v.to_integer(),
            Any::Isize(v) => v.to_integer(),
            Any::U8(v) => v.to_integer(),
            Any::U16(v) => v.to_integer(),
            Any::U32(v) => v.to_integer(),
            Any::U64(v) => v.to_integer(),
            Any::Usize(v) => v.to_integer(),
            Any::F32(b) => truncate32(*b),
            Any::F64(b) => truncate64(*b),
            Any::String(v) => v.to_integer(),
            Any::Str(v) => v.to_integer(),
            Any::Bool(v) => v.to_integer(),
            Any::Array(v) => v.to_integer(),
            Any::Dict(v) => v.to_integer(),
            Any::Pair(v) => v.to_integer(),
            Any::Null(v) => v.to_integer(),
            Any::Function(v) => v.to_integer(),
        }
    }

    /// The value as a number for the host to read as an `f64`.
    pub fn to_float(&self) -> (r: Real)
        ensures
            r@ == real_of(self@),
    {
        match self {
            Any::I8(v) => v.to_float(),
            Any::I16(v) => v.to_float(),
            Any::I32(v) => v.to_float(),
            Any::I64(v) => v.to_float(),
            Any::Isize(v) => v.to_float(),
            Any::U8(v) => v.to_float(),
            Any::U16(v) => v.to_float(),
            Any::U32(v) => v.to_float(),
            Any::U64(v) => v.to_float(),
            Any::Usize(v) => v.to_float(),
            Any::F32(b) => Real::Single(*b),
            Any::F64(b) => Real::Double(*b),
            Any::String(v) => v.to_float(),
            Any::Str(v) => v.to_float(),
            Any::Bool(v) => v.to_float(),
            Any::Array(v) => v.to_float(),
            Any::Dict(v) => v.to_float(),
            Any::Pair(v) => v.to_float(),
            Any::Null(v) => v.to_float(),
            Any::Function(v) => v.to_float(),
        }
    }

    pub fn to_array(&self) -> (r: Array)
        ensures
            r@ == array_of(self@),
    {
        match self {
            Any::I8(v) => v.to_array(),
            Any::I16(v) => v.to_array(),
            Any::I32(v) => v.to_array(),
            Any::I64(v) => v.to_array(),
            Any::Isize(v) => v.to_array(),
            Any::U8(v) => v.to_array(),
            Any::U16(v) => v.to_array(),
            Any::U32(v) => v.to_array(),
            Any::U64(v) => v.to_array(),
            Any::Usize(v) => v.to_array(),
            Any::F32(b) => {
                let mut a = Array::new();
                a.push(Any::F32(*b));
                proof {
                    assert(a@ =~= seq![self@]);
                }
                a
            },
            Any::F64(b) => {
                let mut a = Array::new();
                a.push(Any::F64(*b));
                proof {
                    assert(a@ =~= seq![self@]);
                }
                a
            },
            Any::String(v) => v.to_array(),
            Any::Str(v) => {
                let mut a = Array::new();
                a.push(Any::Str(v.clone()));
                proof {
                    assert(a@ =~= seq![self@]);
                }
                a
            },
            Any::Bool(v) => v.to_array(),
            Any::Array(v) => v.to_array(),
            Any::Dict(v) => v.to_array(),
            Any::Pair(v) => v.to_array(),
            Any::Null(v) => v.to_array(),
            Any::Function(v) => v.to_array(),
        }
    }

    pub fn to_map(&self) -> (r: Dict)
        ensures
            r@ == dict_of(self@),
    {
        match self {
            Any::Dict(v) => v.to_map(),
            _ => Dict::new(),
        }
    }

    pub fn to_boolean(&self) -> (r: bool)
        ensures
            r == boolean_of(self@),
    {
        match self {
            Any::I8(v) => v.to_boolean(),
            Any::I16(v) => v.to_boolean(),
            Any::I32(v) => v.to_boolean(),
            Any::I64(v) => v.to_boolean(),
            Any::Isize(v) => v.to_boolean(),
            Any::U8(v) => v.to_boolean(),
            Any::U16(v) => v.to_boolean(),
            Any::U32(v) => v.to_boolean(),
            Any::U64(v) => v.to_boolean(),
            Any::Usize(v) => v.to_boolean(),
            Any::F32(b) => !is_zero32(*b),
            Any::F64(b) => !is_zero64(*b),
            Any::String(v) => v.to_boolean(),
            Any::Str(v) => v.to_boolean(),
            Any::Bool(v) => v.to_boolean(),
            Any::Array(v) => v.to_boolean(),
            Any::Dict(v) => v.to_boolean(),
            Any::Pair(v) => v.to_boolean(),
            Any::Null(v) => v.to_boolean(),
            Any::Function(v) => v.to_boolean(),
        }
    }

    pub fn to_pair(&self) -> (r: Pair)
        ensures
            (r.0@, r.1@) == pair_of(self@),
    {
        match self {
            Any::Array(v) => v.to_pair(),
            Any::Pair(v) => v.to_pair(),
            _ => Pair(null(), null()),
        }
    }

    /// The stored function, or one that returns null.
    pub fn to_function(&self) -> (r: Function)
        ensures
            self@ matches Val::Function(n) ==> r.arity() == n,
            *self matches Any::Function(f) ==> r.callee() == f.callee(),
            !(self@ is Function) ==> r.arity() == 0,
    {
        match self {
            Any::Function(f) => f.share(),
            _ => Null.to_function(),
        }
    }
}

// array operations
impl Any {
    /// Appends to an array; no effect on another kind.
    pub fn push(&mut self, value: Any)
        ensures
            old(self)@ matches Val::Array(s) ==> final(self)@ == Val::Array(s.push(value@)),
            !(old(self)@ is Array) ==> final(self)@ == old(self)@,
    {
        match self {
            Any::Array(a) => a.push(value),
            _ => {},
        }
    }

    /// Removes the last element of an array; `None` when empty or not an
    /// array.
    pub fn pop(&mut self) -> (r: Option<Any>)
        ensures
            old(self)@ matches Val::Array(s) ==> (if s.len() == 0 {
                r is None && final(self)@ == old(self)@
            } else {
                r is Some && r.unwrap()@ == s.last() && final(self)@ == Val::Array(s.drop_last())
            }),
            !(old(self)@ is Array) ==> r is None && final(self)@ == old(self)@,
    {
        match self {
            Any::Array(a) => a.pop(),
            _ => None,
        }
    }

    /// Inserts at the head of an array; no effect on another kind.
    pub fn unshift(&mut self, value: Any)
        ensures
            old(self)@ matches Val::Array(s) ==> final(self)@ == Val::Array(seq![value@] + s),
            !(old(self)@ is Array) ==> final(self)@ == old(self)@,
    {
        match self {
            Any::Array(a) => a.unshift(value),
            _ => {},
        }
    }

    /// Removes the first element of an array; `None` when empty or not an
    /// array.
    pub fn shift(&mut self) -> (r: Option<Any>)
        ensures
            old(self)@ matches Val::Array(s) ==> (if s.len() == 0 {
                r is None && final(self)@ == old(self)@
            } else {
                r is Some && r.unwrap()@ == s[0] && final(self)@ == Val::Array(
                    s.subrange(1, s.len() as int),
                )
            }),
            !(old(self)@ is Array) ==> r is None && final(self)@ == old(self)@,
    {
        match self {
            Any::Array(a) => a.shift(),
            _ => None,
        }
    }

    /// Reverses an array in place and returns a copy of it; null (and no
    /// change) for another kind.
    pub fn reverse(&mut self) -> (r: Any)
        ensures
            old(self)@ matches Val::Array(s) ==> final(self)@ == Val::Array(s.reverse()) && r@
                == final(self)@,
            !(old(self)@ is Array) ==> final(self)@ == old(self)@ && r@ == Val::Null,
    {
        match self {
            Any::Array(a) => {
                a.reverse();
                Any::Array(a.copy())
            },
            _ => null(),
        }
    }
}

// map operations
impl Any {
    /// Sets `key` to `value` in a map; no effect on another kind.
    pub fn set(&mut self, key: Any, value: Any)
        ensures
            old(self)@ matches Val::Dict(m) ==> (final(self)@ is Dict && (forall|i: int|
                first_key(m, key@, i) ==> final(self)@ == Val::Dict(
                    m.update(i, (m[i].0, value@)),
                )) && (lacks_key(m, key@) ==> final(self)@ == Val::Dict(m.push((key@, value@))))),
            old(self)@ matches Val::Dict(m) ==> (distinct_keys(m) ==> (final(self)@ matches Val::Dict(
                n,
            ) && distinct_keys(n))),
            !(old(self)@ is Dict) ==> final(self)@ == old(self)@,
    {
        match self {
            Any::Dict(m) => m.set(key, value),
            _ => {},
        }
    }

    /// The value of `key` in a map; null when absent or not a map.
    pub fn get(&self, key: Any) -> (r: Any)
        ensures
            self@ matches Val::Dict(m) ==> (lacks_key(m, key@) ==> r@ == Val::Null) && (forall|i: int|
                first_key(m, key@, i) ==> r@ == m[i].1),
            !(self@ is Dict) ==> r@ == Val::Null,
    {
        match self {
            Any::Dict(m) => match m.get(&key) {
                Some(v) => {
                    proof {
                        assert(self@ == Val::Dict(m@));
                        assert forall|i: int| first_key(m@, key@, i) implies v@ == m@[i].1 by {
                            let j = choose|j: int| first_key(m@, key@, j) && v@ == m@[j].1;
                            crate::collections::lemma_first_key_unique(m@, key@, i, j);
                        }
                        if lacks_key(m@, key@) {
                            let j = choose|j: int| first_key(m@, key@, j) && v@ == m@[j].1;
                            assert(!crate::value::same(m@[j].0, key@));
                        }
                    }
                    v.duplicate()
                },
                None => null(),
            },
            _ => null(),
        }
    }

    /// Removes `key` from a map and returns its value; null when absent or
    /// not a map.
    pub fn delete(&mut self, key: Any) -> (r: Any)
        ensures
            old(self)@ matches Val::Dict(m) ==> final(self)@ == Val::Dict(without_key(m, key@)) && (
            lacks_key(m, key@) ==> r@ == Val::Null) && (forall|i: int|
                first_key(m, key@, i) ==> r@ == m[i].1),
            old(self)@ matches Val::Dict(m) ==> (distinct_keys(m) ==> distinct_keys(
                without_key(m, key@),
            )),
            !(old(self)@ is Dict) ==> final(self)@ == old(self)@ && r@ == Val::Null,
    {
        match self {
            Any::Dict(m) => match m.delete(&key) {
                Some(v) => v,
                None => null(),
            },
            _ => null(),
        }
    }
}

/// The number of elements, of entries, or of UTF-8 bytes of a string, or
/// `None` for a kind without a length.
pub open spec fn length_of(v: Val) -> Option<nat> {
    match v {
        Val::Array(s) => Some(s.len()),
        Val::Dict(m) => Some(m.len()),
        Val::String(s) => Some(utf8_len(s)),
        Val::Str(s) => Some(utf8_len(s)),
        _ => None,
    }
}

/// The position an index key stands for: its integer value, or -1 when it
/// has none (a string that is not a number).
pub open spec fn position_of(key: Val) -> int {
    if integer_defined(key) { integer_of(key) } else { -1 }
}

/// What reading `v[key]` gives.
pub open spec fn index_of(v: Val, key: Val) -> Val {
    match v {
        Val::Array(s) => {
            let p = position_of(key);
            if 0 <= p < s.len() { s[p] } else { Val::Null }
        },
        Val::Dict(m) => if exists|i: int| first_key(m, key, i) {
            m[choose|i: int| first_key(m, key, i)].1
        } else {
            Val::Null
        },
        _ => Val::Null,
    }
}

/// The values that iterating over `v` produces: the elements of an array,
/// the entries of a map as pairs, the characters of a string as strings.
pub open spec fn items_of(v: Val) -> Seq<Val> {
    match v {
        Val::Array(s) => s,
        Val::Dict(m) => Seq::new(m.len(), |i: int| Val::Pair(Box::new(m[i].0), Box::new(m[i].1))),
        Val::String(s) => Seq::new(s.len(), |i: int| Val::String(seq![s[i]])),
        Val::Str(s) => Seq::new(s.len(), |i: int| Val::String(seq![s[i]])),
        _ => Seq::empty(),
    }
}

pub open spec fn iterable(v: Val) -> bool {
    v is Array || v is Dict || v is String || v is Str
}

fn string_length(s: &String) -> (r: usize)
    ensures
        r == utf8_len(s@) as usize,
{
    let n = byte_length(s);
    #[verifier::truncate]
    (n as usize)
}

fn string_items(s: &String) -> (r: Vec<Any>)
    ensures
        views(r@) == Seq::new(s@.len(), |i: int| Val::String(seq![s@[i]])),
{
    let cs = chars_of(s);
    let mut out: Vec<Any> = Vec::new();
    let mut i: usize = 0;
    while i < cs.len()
        invariant
            cs@ == s@,
            i <= cs.len(),
            out@.len() == i,
            forall|k: int| 0 <= k < i ==> #[trigger] out@[k]@ == Val::String(seq![s@[k]]),
        decreases cs.len() - i,
    {
        out.push(Any::String(char_text(cs[i])));
        i = i + 1;
    }
    proof {
        lemma_views(out@);
        assert(views(out@) =~= Seq::new(s@.len(), |i: int| Val::String(seq![s@[i]])));
    }
    out
}

impl Any {
    /// The length as a `usize` value, or null for a kind without one.
    pub fn length(&self) -> (r: Any)
        ensures
            length_of(self@) matches Some(n) ==> r@ == Val::Usize(n as usize),
            length_of(self@) is None ==> r@ == Val::Null,
    {
        match self {
            Any::Array(a) => Any::Usize(a.length()),
            Any::Dict(m) => Any::Usize(m.length()),
            Any::String(s) | Any::Str(s) => Any::Usize(string_length(s)),
            _ => null(),
        }
    }

    /// Whether the length is zero, as a boolean value, or null for a kind
    /// without a length.
    pub fn is_empty(&self) -> (r: Any)
        ensures
            length_of(self@) matches Some(n) ==> r@ == Val::Bool(n == 0),
            length_of(self@) is None ==> r@ == Val::Null,
    {
        match self {
            Any::Array(a) => Any::Bool(a.is_empty()),
            Any::Dict(m) => Any::Bool(m.is_empty()),
            Any::String(s) | Any::Str(s) => Any::Bool(byte_length(s) == 0),
            _ => null(),
        }
    }

    /// Calls a function value with `args`; null for another kind.
    pub fn call(&self, args: Any) -> (r: Any)
        ensures
            !(self@ is Function) ==> r@ == Val::Null,
    {
        match self {
            Any::Function(f) => f.call(args),
            _ => null(),
        }
    }

    /// Reads `self[key]`: an array element by position, a map value by key;
    /// null when out of range, absent, or on any other kind.
    pub fn index(&self, key: &Any) -> (r: Any)
        ensures
            r@ == index_of(self@, key@),
    {
        match self {
            Any::Array(a) => {
                proof {
                    lemma_views(a.0@);
                }
                let p: i64 = if key.is_string() {
                    let parsed = match key {
                        Any::String(t) | Any::Str(t) => crate::text::parse_integer(t),
                        _ => None,
                    };
                    match parsed {
                        Some(v) => v,
                        None => -1,
                    }
                } else {
                    key.to_integer()
                };
                if 0 <= p && (p as u64) < (a.0.len() as u64) {
                    a.0[p as usize].duplicate()
                } else {
                    null()
                }
            },
            Any::Dict(m) => {
                match m.get(key) {
                    Some(v) => {
                        proof {
                            let j = choose|j: int| first_key(m@, key@, j) && v@ == m@[j].1;
                            let i = choose|i: int| first_key(m@, key@, i);
                            crate::collections::lemma_first_key_unique(m@, key@, i, j);
                        }
                        v.duplicate()
                    },
                    None => {
                        proof {
                            if exists|i: int| first_key(m@, key@, i) {
                                let i = choose|i: int| first_key(m@, key@, i);
                                assert(!crate::value::same(m@[i].0, key@));
                            }
                        }
                        null()
                    },
                }
            },
            _ => null(),
        }
    }

    /// Writes `self[key] = value`. On an array the position must already
    /// exist: a write outside it is refused and the array is unchanged. On
    /// a map the key is inserted when absent. Nothing is written on any
    /// other kind. Returns whether the value was stored.
    pub fn index_set(&mut self, key: &Any, value: Any) -> (r: bool)
        ensures
            old(self)@ matches Val::Array(s) ==> ({
                let p = position_of(key@);
                if 0 <= p < s.len() {
                    r && final(self)@ == Val::Array(s.update(p, value@))
                } else {
                    !r && final(self)@ == old(self)@
                }
            }),
            old(self)@ matches Val::Dict(m) ==> r && (forall|i: int|
                first_key(m, key@, i) ==> final(self)@ == Val::Dict(m.update(i, (m[i].0, value@))))
                && (lacks_key(m, key@) ==> final(self)@ == Val::Dict(m.push((key@, value@)))),
            old(self)@ matches Val::Dict(m) ==> (distinct_keys(m) ==> (final(self)@ matches Val::Dict(
                n,
            ) && distinct_keys(n))),
            !(old(self)@ is Array || old(self)@ is Dict) ==> !r && final(self)@ == old(self)@,
    {
        let p: i64 = if key.is_string() {
            let parsed = match key {
                Any::String(t) | Any::Str(t) => crate::text::parse_integer(t),
                _ => None,
            };
            match parsed {
                Some(v) => v,
                None => -1,
            }
        } else {
            key.to_integer()
        };
        match self {
            Any::Array(a) => {
                proof {
                    lemma_views(a.0@);
                }
                if 0 <= p && (p as u64) < (a.0.len() as u64) {
                    let ghost before = a.0@;
                    let ghost vv = value@;
                    a.0.set(p as usize, value);
                    proof {
                        lemma_views(a.0@);
                        assert(views(a.0@) =~= views(before).update(p as int, vv));
                    }
                    true
                } else {
                    false
                }
            },
            Any::Dict(m) => {
                m.set(key.duplicate(), value);
                true
            },
            _ => false,
        }
    }

    /// The values that iterating produces; only arrays, maps and strings
    /// can be iterated.
    pub fn items(&self) -> (r: Vec<Any>)
        requires
            iterable(self@),
        ensures
            views(r@) == items_of(self@),
    {
        match self {
            Any::Array(a) => a.copy().0,
            Any::Dict(m) => {
                proof {
                    lemma_entry_views(m.0@);
                }
                let mut out: Vec<Any> = Vec::new();
                let mut i: usize = 0;
                while i < m.0.len()
                    invariant
                        *self == Any::Dict(*m),
                        i <= m.0.len(),
                        entry_views(m.0@).len() == m.0.len(),
                        forall|k: int| 0 <= k < m.0.len() ==> #[trigger] entry_views(m.0@)[k] == (m.0@[k].0@, m.0@[k].1@),
                        out@.len() == i,
                        forall|k: int| 0 <= k < i ==> #[trigger] out@[k]@ == Val::Pair(Box::new(m.0@[k].0@), Box::new(m.0@[k].1@)),
                    decreases m.0.len() - i,
                {
                    let e = Pair(m.0[i].0.duplicate(), m.0[i].1.duplicate());
                    out.push(Any::Pair(Box::new(e)));
                    i = i + 1;
                }
                proof {
                    lemma_views(out@);
                    assert(views(out@) =~= items_of(self@));
                }
                out
            },
            Any::String(s) | Any::Str(s) => string_items(s),
            _ => Vec::new(),
        }
    }
}

} // verus!
