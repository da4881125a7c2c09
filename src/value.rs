use vstd::prelude::*;

use crate::float::{eq32, eq64, equal32, equal64};
use crate::function::Function;
use crate::render::{all_text, all_text_pieces, join_pieces, joined, render, same_pieces};

verus! {

/// The mathematical content of a value: what every contract speaks of.
/// Floats are held as their IEEE-754 bit patterns.
pub enum Val {
    I8(i8),
    I16(i16),
    I32(i32),
    I64(i64),
    Isize(isize),
    U8(u8),
    U16(u16),
    U32(u32),
    U64(u64),
    Usize(usize),
    F32(u32),
    F64(u64),
    String(Seq<char>),
    Str(Seq<char>),
    Bool(bool),
    Array(Seq<Val>),
    Dict(Seq<(Val, Val)>),
    Pair(Box<Val>, Box<Val>),
    Null,
    Function(usize),
}

/// The runtime tag of a value.
#[derive(PartialEq, Eq, Structural, Clone, Copy, Debug)]
pub enum Kind {
    I8,
    I16,
    I32,
    I64,
    Isize,
    U8,
    U16,
    U32,
    U64,
    Usize,
    F32,
    F64,
    String,
    Str,
    Bool,
    Array,
    Dict,
    Pair,
    Null,
    Function,
}

/// The null value.
#[derive(PartialEq, Eq, Structural, Clone, Copy, Debug)]
pub struct Null;

/// An ordered sequence of values.
pub struct Array(pub Vec<Any>);

/// A map from values to values, in insertion order. Its operations keep
/// the keys pairwise unequal (see `distinct_keys`).
pub struct Dict(pub Vec<(Any, Any)>);

/// Two values, first and second.
pub struct Pair(pub Any, pub Any);

/// A value of any kind, tagged by the kind it was made from.
pub enum Any {
    I8(i8),
    I16(i16),
    I32(i32),
    I64(i64),
    Isize(isize),
    U8(u8),
    U16(u16),
    U32(u32),
    U64(u64),
    Usize(usize),
    /// An `f32`, held as its bit pattern.
    F32(u32),
    /// An `f64`, held as its bit pattern.
    F64(u64),
    String(String),
    /// A string that was made from a string slice; it has its own tag.
    Str(String),
    Bool(bool),
    Array(Array),
    Dict(Dict),
    Pair(Box<Pair>),
    Null(Null),
    Function(Function),
}

pub open spec fn views(s: Seq<Any>) -> Seq<Val>
    decreases s,
{
    if s.len() == 0 {
        Seq::empty()
    } else {
        views(s.subrange(0, s.len() - 1)).push(s[s.len() - 1].view_of())
    }
}

pub open spec fn entry_views(s: Seq<(Any, Any)>) -> Seq<(Val, Val)>
    decreases s,
{
    if s.len() == 0 {
        Seq::empty()
    } else {
        entry_views(s.subrange(0, s.len() - 1)).push(
            (s[s.len() - 1].0.view_of(), s[s.len() - 1].1.view_of()),
        )
    }
}

impl Any {
    pub open spec fn view_of(&self) -> Val
        decreases self,
    {
        match self {
            Any::I8(v) => Val::I8(*v),
            Any::I16(v) => Val::I16(*v),
            Any::I32(v) => Val::I32(*v),
            Any::I64(v) => Val::I64(*v),
            Any::Isize(v) => Val::Isize(*v),
            Any::U8(v) => Val::U8(*v),
            Any::U16(v) => Val::U16(*v),
            Any::U32(v) => Val::U32(*v),
            Any::U64(v) => Val::U64(*v),
            Any::Usize(v) => Val::Usize(*v),
            Any::F32(v) => Val::F32(*v),
            Any::F64(v) => Val::F64(*v),
            Any::String(s) => Val::String(s@),
            Any::Str(s) => Val::Str(s@),
            Any::Bool(b) => Val::Bool(*b),
            Any::Array(a) => Val::Array(views(a.0@)),
            Any::Dict(m) => Val::Dict(entry_views(m.0@)),
            Any::Pair(p) => Val::Pair(Box::new(p.0.view_of()), Box::new(p.1.view_of())),
            Any::Null(_) => Val::Null,
            Any::Function(f) => Val::Function(f.arity()),
        }
    }
}

impl View for Array {
    type V = Seq<Val>;

    open spec fn view(&self) -> Seq<Val> {
        views(self.0@)
    }
}

impl View for Dict {
    type V = Seq<(Val, Val)>;

    open spec fn view(&self) -> Seq<(Val, Val)> {
        entry_views(self.0@)
    }
}

impl View for Any {
    type V = Val;

    open spec fn view(&self) -> Val {
        self.view_of()
    }
}

impl Val {
    pub open spec fn kind(self) -> Kind {
        match self {
            Val::I8(_) => Kind::I8,
            Val::I16(_) => Kind::I16,
            Val::I32(_) => Kind::I32,
            Val::I64(_) => Kind::I64,
            Val::Isize(_) => Kind::Isize,
            Val::U8(_) => Kind::U8,
            Val::U16(_) => Kind::U16,
            Val::U32(_) => Kind::U32,
            Val::U64(_) => Kind::U64,
            Val::Usize(_) => Kind::Usize,
            Val::F32(_) => Kind::F32,
            Val::F64(_) => Kind::F64,
            Val::String(_) => Kind::String,
            Val::Str(_) => Kind::Str,
            Val::Bool(_) => Kind::Bool,
            Val::Array(_) => Kind::Array,
            Val::Dict(_) => Kind::Dict,
            Val::Pair(_, _) => Kind::Pair,
            Val::Null => Kind::Null,
            Val::Function(_) => Kind::Function,
        }
    }
}

impl Kind {
    pub open spec fn is_integer_kind(self) -> bool {
        match self {
            Kind::I8 | Kind::I16 | Kind::I32 | Kind::I64 | Kind::Isize => true,
            Kind::U8 | Kind::U16 | Kind::U32 | Kind::U64 | Kind::Usize => true,
            _ => false,
        }
    }

    pub open spec fn is_float_kind(self) -> bool {
        self == Kind::F32 || self == Kind::F64
    }

    pub open spec fn is_string_kind(self) -> bool {
        self == Kind::String || self == Kind::Str
    }
}

pub proof fn lemma_views(s: Seq<Any>)
    ensures
        views(s).len() == s.len(),
        forall|i: int| 0 <= i < s.len() ==> #[trigger] views(s)[i] == s[i]@,
    decreases s.len(),
{
    if s.len() > 0 {
        lemma_views(s.subrange(0, s.len() - 1));
        assert forall|i: int| 0 <= i < s.len() implies #[trigger] views(s)[i] == s[i]@ by {
            if i < s.len() - 1 {
                assert(s.subrange(0, s.len() - 1)[i] == s[i]);
            }
        }
    }
}

pub proof fn lemma_entry_views(s: Seq<(Any, Any)>)
    ensures
        entry_views(s).len() == s.len(),
        forall|i: int|
            0 <= i < s.len() ==> #[trigger] entry_views(s)[i] == (s[i].0@, s[i].1@),
    decreases s.len(),
{
    if s.len() > 0 {
        lemma_entry_views(s.subrange(0, s.len() - 1));
        assert forall|i: int| 0 <= i < s.len() implies #[trigger] entry_views(s)[i] == (
            s[i].0@,
            s[i].1@,
        ) by {
            if i < s.len() - 1 {
                assert(s.subrange(0, s.len() - 1)[i] == s[i]);
            }
        }
    }
}

/// Two views are equal when they have the same length and agree pointwise.
pub proof fn lemma_views_ext(s: Seq<Any>, t: Seq<Any>)
    requires
        s.len() == t.len(),
        forall|i: int| 0 <= i < s.len() ==> s[i]@ == t[i]@,
    ensures
        views(s) == views(t),
{
    lemma_views(s);
    lemma_views(t);
    assert(views(s) =~= views(t));
}

pub proof fn lemma_entry_views_ext(s: Seq<(Any, Any)>, t: Seq<(Any, Any)>)
    requires
        s.len() == t.len(),
        forall|i: int| 0 <= i < s.len() ==> s[i].0@ == t[i].0@ && s[i].1@ == t[i].1@,
    ensures
        entry_views(s) == entry_views(t),
{
    lemma_entry_views(s);
    lemma_entry_views(t);
    assert(entry_views(s) =~= entry_views(t));
}

impl Any {
    /// A copy with the same content; a function value shares its callable.
    pub fn duplicate(&self) -> (r: Any)
        ensures
            r@ == self@,
            *self matches Any::Function(f) ==> (r matches Any::Function(g) && g.callee() == f.callee()),
        decreases self,
    {
        match self {
            Any::I8(v) => Any::I8(*v),
            Any::I16(v) => Any::I16(*v),
            Any::I32(v) => Any::I32(*v),
            Any::I64(v) => Any::I64(*v),
            Any::Isize(v) => Any::Isize(*v),
            Any::U8(v) => Any::U8(*v),
            Any::U16(v) => Any::U16(*v),
            Any::U32(v) => Any::U32(*v),
            Any::U64(v) => Any::U64(*v),
            Any::Usize(v) => Any::Usize(*v),
            Any::F32(v) => Any::F32(*v),
            Any::F64(v) => Any::F64(*v),
            Any::String(s) => Any::String(s.clone()),
            Any::Str(s) => Any::Str(s.clone()),
            Any::Bool(b) => Any::Bool(*b),
            Any::Array(a) => {
                let mut out: Vec<Any> = Vec::new();
                let mut i: usize = 0;
                while i < a.0.len()
                    invariant
                        *self == Any::Array(*a),
                        i <= a.0.len(),
                        out.len() == i,
                        forall|j: int| 0 <= j < i ==> out@[j]@ == a.0@[j]@,
                    decreases a.0.len() - i,
                {
                    proof {
                        assert(decreases_to!(*self => self->Array_0));
                        assert(decreases_to!(*a => a.0));
                        assert(decreases_to!(a.0 => a.0@));
                        assert(decreases_to!(a.0@ => a.0@[i as int]));
                    }
                    let c = a.0[i].duplicate();
                    out.push(c);
                    i = i + 1;
                }
                proof {
                    lemma_views_ext(out@, a.0@);
                }
                Any::Array(Array(out))
            },
            Any::Dict(m) => {
                let mut out: Vec<(Any, Any)> = Vec::new();
                let mut i: usize = 0;
                while i < m.0.len()
                    invariant
                        *self == Any::Dict(*m),
                        i <= m.0.len(),
                        out.len() == i,
                        forall|j: int|
                            0 <= j < i ==> out@[j].0@ == m.0@[j].0@ && out@[j].1@ == m.0@[j].1@,
                    decreases m.0.len() - i,
                {
                    proof {
                        assert(decreases_to!(*self => self->Dict_0));
                        assert(decreases_to!(*m => m.0));
                        assert(decreases_to!(m.0 => m.0@));
                        assert(decreases_to!(m.0@ => m.0@[i as int]));
                        assert(decreases_to!(m.0@[i as int] => m.0@[i as int].0));
                        assert(decreases_to!(m.0@[i as int] => m.0@[i as int].1));
                    }
                    let k = m.0[i].0.duplicate();
                    let v = m.0[i].1.duplicate();
                    out.push((k, v));
                    i = i + 1;
                }
                proof {
                    lemma_entry_views_ext(out@, m.0@);
                }
                Any::Dict(Dict(out))
            },
            Any::Pair(p) => {
                let a = p.0.duplicate();
                let b = p.1.duplicate();
                Any::Pair(Box::new(Pair(a, b)))
            },
            Any::Null(_) => Any::Null(Null),
            Any::Function(f) => Any::Function(f.share()),
        }
    }
}

impl Clone for Any {
    fn clone(&self) -> (r: Any)
        ensures
            r@ == self@,
            *self matches Any::Function(f) ==> (r matches Any::Function(g) && g.callee() == f.callee()),
    {
        self.duplicate()
    }
}

/// Two values render alike: the same text where neither holds a float,
/// else the same pieces, floats compared by bits.
pub open spec fn same_rendering(a: Val, b: Val) -> bool {
    let (ra, rb) = (render(a), render(b));
    if all_text(ra) && all_text(rb) {
        joined(ra) == joined(rb)
    } else {
        ra == rb
    }
}

/// Equality of values: the tags must match; numbers compare by value
/// (floats as IEEE `==`), strings by content, arrays element by element,
/// maps as sets of entries whatever their order, pairs by their rendering;
/// any two nulls are equal and so are any two functions.
pub open spec fn same(a: Val, b: Val) -> bool
    decreases a,
{
    match (a, b) {
        (Val::I8(x), Val::I8(y)) => x == y,
        (Val::I16(x), Val::I16(y)) => x == y,
        (Val::I32(x), Val::I32(y)) => x == y,
        (Val::I64(x), Val::I64(y)) => x == y,
        (Val::Isize(x), Val::Isize(y)) => x == y,
        (Val::U8(x), Val::U8(y)) => x == y,
        (Val::U16(x), Val::U16(y)) => x == y,
        (Val::U32(x), Val::U32(y)) => x == y,
        (Val::U64(x), Val::U64(y)) => x == y,
        (Val::Usize(x), Val::Usize(y)) => x == y,
        (Val::F32(x), Val::F32(y)) => eq32(x, y),
        (Val::F64(x), Val::F64(y)) => eq64(x, y),
        (Val::String(x), Val::String(y)) => x == y,
        (Val::Str(x), Val::Str(y)) => x == y,
        (Val::Bool(x), Val::Bool(y)) => x == y,
        (Val::Array(x), Val::Array(y)) => x.len() == y.len() && forall|i: int|
            #![trigger x[i]]
            0 <= i < x.len() ==> same(x[i], y[i]),
        (Val::Dict(x), Val::Dict(y)) => x.len() == y.len() && forall|i: int|
            #![trigger x[i]]
            0 <= i < x.len() ==> has_entry(x[i], y),
        (Val::Pair(_, _), Val::Pair(_, _)) => same_rendering(a, b),
        (Val::Null, Val::Null) => true,
        (Val::Function(_), Val::Function(_)) => true,
        _ => false,
    }
}

/// `y` holds an entry equal to `e`, key and value.
pub open spec fn has_entry(e: (Val, Val), y: Seq<(Val, Val)>) -> bool
    decreases e,
{
    exists|j: int| #![trigger y[j]] 0 <= j < y.len() && same(e.0, y[j].0) && same(e.1, y[j].1)
}

/// The value holds no NaN, at any depth.
pub open spec fn nan_free(v: Val) -> bool
    decreases v,
{
    match v {
        Val::F32(b) => !crate::float::nan32(b),
        Val::F64(b) => !crate::float::nan64(b),
        Val::Array(s) => forall|i: int| #![trigger s[i]] 0 <= i < s.len() ==> nan_free(s[i]),
        Val::Dict(m) => forall|i: int|
            #![trigger m[i]]
            0 <= i < m.len() ==> nan_free(m[i].0) && nan_free(m[i].1),
        Val::Pair(a, b) => nan_free(*a) && nan_free(*b),
        _ => true,
    }
}

/// A value with no NaN in it equals itself.
pub proof fn lemma_same_reflexive(v: Val)
    requires
        nan_free(v),
    ensures
        same(v, v),
    decreases v,
{
    match v {
        Val::Array(s) => {
            assert forall|i: int| 0 <= i < s.len() implies same(#[trigger] s[i], s[i]) by {
                lemma_same_reflexive(s[i]);
            }
        },
        Val::Dict(m) => {
            assert forall|i: int| 0 <= i < m.len() implies has_entry(#[trigger] m[i], m) by {
                lemma_same_reflexive(m[i].0);
                lemma_same_reflexive(m[i].1);
            }
        },
        _ => {},
    }
}

impl Any {
    /// Equality of values; see `same`.
    pub fn equals(&self, other: &Any) -> (r: bool)
        ensures
            r == same(self@, other@),
        decreases self,
    {
        match (self, other) {
            (Any::I8(x), Any::I8(y)) => *x == *y,
            (Any::I16(x), Any::I16(y)) => *x == *y,
            (Any::I32(x), Any::I32(y)) => *x == *y,
            (Any::I64(x), Any::I64(y)) => *x == *y,
            (Any::Isize(x), Any::Isize(y)) => *x == *y,
            (Any::U8(x), Any::U8(y)) => *x == *y,
            (Any::U16(x), Any::U16(y)) => *x == *y,
            (Any::U32(x), Any::U32(y)) => *x == *y,
            (Any::U64(x), Any::U64(y)) => *x == *y,
            (Any::Usize(x), Any::Usize(y)) => *x == *y,
            (Any::F32(x), Any::F32(y)) => equal32(*x, *y),
            (Any::F64(x), Any::F64(y)) => equal64(*x, *y),
            (Any::String(x), Any::String(y)) => *x == *y,
            (Any::Str(x), Any::Str(y)) => *x == *y,
            (Any::Bool(x), Any::Bool(y)) => *x == *y,
            (Any::Array(x), Any::Array(y)) => {
                proof {
                    lemma_views(x.0@);
                    lemma_views(y.0@);
                    assert(self@ == Val::Array(views(x.0@)));
                    assert(other@ == Val::Array(views(y.0@)));
                }
                if x.0.len() != y.0.len() {
                    return false;
                }
                let mut i: usize = 0;
                while i < x.0.len()
                    invariant
                        *self == Any::Array(*x),
                        *other == Any::Array(*y),
                        self@ == Val::Array(views(x.0@)),
                        other@ == Val::Array(views(y.0@)),
                        x.0.len() == y.0.len(),
                        views(x.0@).len() == x.0.len(),
                        views(y.0@).len() == y.0.len(),
                        forall|k: int| 0 <= k < x.0.len() ==> #[trigger] views(x.0@)[k] == x.0@[k]@,
                        forall|k: int| 0 <= k < y.0.len() ==> #[trigger] views(y.0@)[k] == y.0@[k]@,
                        i <= x.0.len(),
                        forall|k: int| 0 <= k < i ==> same(x.0@[k]@, y.0@[k]@),
                    decreases x.0.len() - i,
                {
                    proof {
                        assert(decreases_to!(*self => self->Array_0));
                        assert(decreases_to!(*x => x.0));
                        assert(decreases_to!(x.0 => x.0@));
                        assert(decreases_to!(x.0@ => x.0@[i as int]));
                    }
                    if !x.0[i].equals(&y.0[i]) {
                        proof {
                            let vx = views(x.0@);
                            let vy = views(y.0@);
                            assert(!same(vx[i as int], vy[i as int]));
                            assert(0 <= i < vx.len());
                            assert(vx.len() == vy.len());
                            assert(same(Val::Array(vx), Val::Array(vy)) ==> same(vx[i as int], vy[i as int]));
                            assert(!same(Val::Array(vx), Val::Array(vy)));
                        }
                        return false;
                    }
                    i = i + 1;
                }
                proof {
                    assert forall|k: int| 0 <= k < views(x.0@).len() implies #[trigger] same(
                        views(x.0@)[k],
                        views(y.0@)[k],
                    ) by {
                        assert(same(x.0@[k]@, y.0@[k]@));
                    }
                }
                true
            },
            (Any::Dict(x), Any::Dict(y)) => {
                proof {
                    lemma_entry_views(x.0@);
                    lemma_entry_views(y.0@);
                    assert(self@ == Val::Dict(entry_views(x.0@)));
                    assert(other@ == Val::Dict(entry_views(y.0@)));
                }
                if x.0.len() != y.0.len() {
                    return false;
                }
                let ghost xs = entry_views(x.0@);
                let ghost ys = entry_views(y.0@);
                let mut i: usize = 0;
                while i < x.0.len()
                    invariant
                        *self == Any::Dict(*x),
                        *other == Any::Dict(*y),
                        self@ == Val::Dict(xs),
                        other@ == Val::Dict(ys),
                        xs == entry_views(x.0@),
                        ys == entry_views(y.0@),
                        x.0.len() == y.0.len(),
                        xs.len() == x.0.len(),
                        ys.len() == y.0.len(),
                        forall|k: int| 0 <= k < x.0.len() ==> #[trigger] xs[k] == (x.0@[k].0@, x.0@[k].1@),
                        forall|k: int| 0 <= k < y.0.len() ==> #[trigger] ys[k] == (y.0@[k].0@, y.0@[k].1@),
                        i <= x.0.len(),
                        forall|k: int|
                            #![trigger xs[k]]
                            0 <= k < i ==> has_entry(xs[k], ys),
                    decreases x.0.len() - i,
                {
                    let mut j: usize = 0;
                    let mut found = false;
                    while j < y.0.len() && !found
                        invariant
                            *self == Any::Dict(*x),
                            *other == Any::Dict(*y),
                            self@ == Val::Dict(xs),
                            other@ == Val::Dict(ys),
                            i < x.0.len(),
                            j <= y.0.len(),
                            ys.len() == y.0.len(),
                            xs.len() == x.0.len(),
                            forall|k: int| 0 <= k < x.0.len() ==> #[trigger] xs[k] == (x.0@[k].0@, x.0@[k].1@),
                            forall|k: int| 0 <= k < y.0.len() ==> #[trigger] ys[k] == (y.0@[k].0@, y.0@[k].1@),
                            found ==> has_entry(xs[i as int], ys),
                            forall|k: int|
                                #![trigger xs[k]]
                                0 <= k < i ==> has_entry(xs[k], ys),
                            !found ==> forall|m: int|
                                0 <= m < j ==> !(same(xs[i as int].0, #[trigger] ys[m].0) && same(
                                    xs[i as int].1,
                                    ys[m].1,
                                )),
                        decreases y.0.len() - j + (if found { 0int } else { 1int }),
                    {
                        proof {
                            assert(decreases_to!(*self => self->Dict_0));
                            assert(decreases_to!(*x => x.0));
                            assert(decreases_to!(x.0 => x.0@));
                            assert(decreases_to!(x.0@ => x.0@[i as int]));
                            assert(decreases_to!(x.0@[i as int] => x.0@[i as int].0));
                            assert(decreases_to!(x.0@[i as int] => x.0@[i as int].1));
                        }
                        let hit = x.0[i].0.equals(&y.0[j].0) && x.0[i].1.equals(&y.0[j].1);
                        if hit {
                            proof {
                                assert(same(xs[i as int].0, ys[j as int].0));
                                assert(has_entry(xs[i as int], ys));
                            }
                            found = true;
                        } else {
                            j = j + 1;
                        }
                    }
                    if !found {
                        proof {
                            assert(!has_entry(xs[i as int], ys));
                        }
                        return false;
                    }
                    i = i + 1;
                }
                true
            },
            (Any::Pair(_), Any::Pair(_)) => {
                let pa = self.render();
                let pb = other.render();
                if all_text_pieces(&pa) && all_text_pieces(&pb) {
                    join_pieces(&pa) == join_pieces(&pb)
                } else {
                    same_pieces(&pa, &pb)
                }
            },
            (Any::Null(_), Any::Null(_)) => true,
            (Any::Function(_), Any::Function(_)) => true,
            _ => false,
        }
    }
}

impl PartialEq for Any {
    fn eq(&self, other: &Any) -> (r: bool) {
        self.equals(other)
    }
}

impl vstd::std_specs::cmp::PartialEqSpecImpl for Any {
    open spec fn obeys_eq_spec() -> bool {
        true
    }

    open spec fn eq_spec(&self, other: &Any) -> bool {
        same(self@, other@)
    }
}

} // verus!
