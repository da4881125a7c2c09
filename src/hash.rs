//! A hash code consistent with equality: equal values hash alike.
use vstd::prelude::*;

use crate::float::{
    canonical32, canonical64, is_zero32, is_zero64, lemma_eq32_canonical, lemma_eq64_canonical,
};
use crate::render::{all_text, all_text_pieces, join_pieces, joined, render, width};
use crate::text::chars_of;
use crate::value::{lemma_views, same, views, Any, Kind, Val};

verus! {

pub open spec fn mix(h: u64, x: u64) -> u64 {
    h.wrapping_mul(31).wrapping_add(x)
}

pub open spec fn kind_code(k: Kind) -> u64 {
    match k {
        Kind::I8 => 1,
        Kind::I16 => 2,
        Kind::I32 => 3,
        Kind::I64 => 4,
        Kind::Isize => 5,
        Kind::U8 => 6,
        Kind::U16 => 7,
        Kind::U32 => 8,
        Kind::U64 => 9,
        Kind::Usize => 10,
        Kind::F32 => 11,
        Kind::F64 => 12,
        Kind::String => 13,
        Kind::Str => 14,
        Kind::Bool => 15,
        Kind::Array => 16,
        Kind::Dict => 17,
        Kind::Pair => 18,
        Kind::Null => 19,
        Kind::Function => 20,
    }
}

pub open spec fn text_hash(s: Seq<char>) -> u64
    decreases s.len(),
{
    if s.len() == 0 {
        0
    } else {
        mix(text_hash(s.drop_last()), s.last() as u64)
    }
}

/// The hash code of a value: its tag, then its content. A map hashes by its
/// size alone, so that the order of its entries does not matter; a pair by
/// its rendered text, or by its tag alone when that holds a float.
pub open spec fn hash_of(v: Val) -> u64
    decreases v, width(v),
{
    let t = kind_code(v.kind());
    match v {
        Val::I8(x) => mix(t, x as u64),
        Val::I16(x) => mix(t, x as u64),
        Val::I32(x) => mix(t, x as u64),
        Val::I64(x) => mix(t, x as u64),
        Val::Isize(x) => mix(t, x as u64),
        Val::U8(x) => mix(t, x as u64),
        Val::U16(x) => mix(t, x as u64),
        Val::U32(x) => mix(t, x as u64),
        Val::U64(x) => mix(t, x),
        Val::Usize(x) => mix(t, x as u64),
        Val::F32(b) => mix(t, canonical32(b) as u64),
        Val::F64(b) => mix(t, canonical64(b)),
        Val::String(s) => mix(t, text_hash(s)),
        Val::Str(s) => mix(t, text_hash(s)),
        Val::Bool(b) => mix(t, if b { 1 } else { 0 }),
        Val::Array(s) => mix(t, hash_items(v, s.len())),
        Val::Dict(m) => mix(t, m.len() as u64),
        Val::Pair(_, _) => if all_text(render(v)) { mix(t, text_hash(joined(render(v)))) } else { t },
        _ => t,
    }
}

/// The hashes of the first `n` elements of an array, combined in order.
pub open spec fn hash_items(v: Val, n: nat) -> u64
    decreases v, n,
{
    match v {
        Val::Array(s) => if n == 0 || n > s.len() {
            0
        } else {
            mix(hash_items(v, (n - 1) as nat), hash_of(s[n - 1]))
        },
        _ => 0,
    }
}

fn kind_code_of(k: Kind) -> (r: u64)
    ensures
        r == kind_code(k),
{
    match k {
        Kind::I8 => 1,
        Kind::I16 => 2,
        Kind::I32 => 3,
        Kind::I64 => 4,
        Kind::Isize => 5,
        Kind::U8 => 6,
        Kind::U16 => 7,
        Kind::U32 => 8,
        Kind::U64 => 9,
        Kind::Usize => 10,
        Kind::F32 => 11,
        Kind::F64 => 12,
        Kind::String => 13,
        Kind::Str => 14,
        Kind::Bool => 15,
        Kind::Array => 16,
        Kind::Dict => 17,
        Kind::Pair => 18,
        Kind::Null => 19,
        Kind::Function => 20,
    }
}

fn mixed(h: u64, x: u64) -> (r: u64)
    ensures
        r == mix(h, x),
{
    h.wrapping_mul(31).wrapping_add(x)
}

fn hash_text(s: &String) -> (r: u64)
    ensures
        r == text_hash(s@),
{
    let cs = chars_of(s);
    let mut h: u64 = 0;
    let mut i: usize = 0;
    while i < cs.len()
        invariant
            cs@ == s@,
            i <= cs.len(),
            h == text_hash(s@.subrange(0, i as int)),
        decreases cs.len() - i,
    {
        proof {
            assert(s@.subrange(0, i + 1).drop_last() =~= s@.subrange(0, i as int));
        }
        h = mixed(h, cs[i] as u64);
        i = i + 1;
    }
    proof {
        assert(s@.subrange(0, s@.len() as int) =~= s@);
    }
    h
}

impl Any {
    /// The hash code; see `hash_of`.
    pub fn hash_code(&self) -> (r: u64)
        ensures
            r == hash_of(self@),
        decreases self,
    {
        let t = kind_code_of(self.type_id());
        match self {
            Any::I8(x) => mixed(t, *x as u64),
            Any::I16(x) => mixed(t, *x as u64),
            Any::I32(x) => mixed(t, *x as u64),
            Any::I64(x) => mixed(t, *x as u64),
            Any::Isize(x) => mixed(t, *x as u64),
            Any::U8(x) => mixed(t, *x as u64),
            Any::U16(x) => mixed(t, *x as u64),
            Any::U32(x) => mixed(t, *x as u64),
            Any::U64(x) => mixed(t, *x),
            Any::Usize(x) => mixed(t, *x as u64),
            Any::F32(b) => mixed(t, if is_zero32(*b) { 0 } else { *b as u64 }),
            Any::F64(b) => mixed(t, if is_zero64(*b) { 0 } else { *b }),
            Any::String(s) | Any::Str(s) => mixed(t, hash_text(s)),
            Any::Bool(b) => mixed(t, if *b { 1 } else { 0 }),
            Any::Array(a) => {
                proof {
                    lemma_views(a.0@);
                }
                let mut h: u64 = 0;
                let mut i: usize = 0;
                while i < a.0.len()
                    invariant
                        *self == Any::Array(*a),
                        self@ == Val::Array(views(a.0@)),
                        views(a.0@).len() == a.0.len(),
                        forall|k: int| 0 <= k < a.0.len() ==> #[trigger] views(a.0@)[k] == a.0@[k]@,
                        i <= a.0.len(),
                        h == hash_items(self@, i as nat),
                    decreases a.0.len() - i,
                {
                    proof {
                        assert(decreases_to!(*self => self->Array_0));
                        assert(decreases_to!(*a => a.0));
                        assert(decreases_to!(a.0 => a.0@));
                        assert(decreases_to!(a.0@ => a.0@[i as int]));
                    }
                    let e = a.0[i].hash_code();
                    h = mixed(h, e);
                    i = i + 1;
                }
                mixed(t, h)
            },
            Any::Dict(m) => {
                proof {
                    crate::value::lemma_entry_views(m.0@);
                }
                mixed(t, m.0.len() as u64)
            },
            Any::Pair(_) => {
                let pieces = self.render();
                if all_text_pieces(&pieces) {
                    mixed(t, hash_text(&join_pieces(&pieces)))
                } else {
                    t
                }
            },
            _ => t,
        }
    }
}

/// Feeds the hash code to the hasher, so that equal values hash alike.
impl core::hash::Hash for Any {
    fn hash<H: core::hash::Hasher>(&self, state: &mut H) {
        feed(state, self.hash_code());
    }
}

/// Relies on `Hasher::write_u64`: hands the code to the hasher.
#[verifier::external_body]
fn feed<H: core::hash::Hasher>(state: &mut H, code: u64) {
    state.write_u64(code)
}

/// Equal values have equal hash codes.
pub proof fn lemma_hash_agrees(a: Val, b: Val)
    requires
        same(a, b),
    ensures
        hash_of(a) == hash_of(b),
    decreases a, width(a),
{
    match (a, b) {
        (Val::F32(x), Val::F32(y)) => lemma_eq32_canonical(x, y),
        (Val::F64(x), Val::F64(y)) => lemma_eq64_canonical(x, y),
        (Val::Array(x), Val::Array(y)) => {
            lemma_hash_items_agree(a, b, x.len());
        },
        (Val::Pair(_, _), Val::Pair(_, _)) => {
            if all_text(render(a)) != all_text(render(b)) {
                assert(render(a) != render(b));
            }
        },
        _ => {},
    }
}

proof fn lemma_hash_items_agree(a: Val, b: Val, n: nat)
    requires
        a is Array,
        b is Array,
        same(a, b),
        n <= a->Array_0.len(),
    ensures
        hash_items(a, n) == hash_items(b, n),
    decreases a, n,
{
    if n > 0 {
        let x = a->Array_0;
        let y = b->Array_0;
        lemma_hash_items_agree(a, b, (n - 1) as nat);
        assert(same(x[n - 1], y[n - 1]));
        lemma_hash_agrees(x[n - 1], y[n - 1]);
    }
}

} // verus!
