//! Arithmetic over two values: null propagates, equal tags use the kind's
//! own operation, and mixed tags go by a fixed ladder of representations.
//! Float arithmetic is handed to the host as an `Outcome::Float`.
use vstd::prelude::*;

use crate::any::null;
use crate::cast::{boolean_of, integer_of, real_of, Real, RealVal};
use crate::render::{all_text, all_text_pieces, chunks, join_pieces, joined, render, Chunk, Piece};
use crate::value::{lemma_views, views, Any, Array, Kind, Val};

verus! {

/// A binary arithmetic operation.
#[derive(PartialEq, Eq, Structural, Clone, Copy, Debug)]
pub enum Op {
    Add,
    Sub,
    Mul,
    Div,
}

/// A fatal error of integer arithmetic.
#[derive(PartialEq, Eq, Structural, Clone, Copy, Debug)]
pub enum Fault {
    DivisionByZero,
    Overflow,
}

/// What an arithmetic operation gives.
pub enum Outcome {
    /// The result.
    Value(Any),
    /// Float arithmetic for the host: read both operands as `f64`, apply
    /// the operation, and store the result as an `f64`.
    Float(Op, Real, Real),
    /// A string for the host to finish: format the float pieces and join.
    Text(Vec<Piece>),
    /// Integer overflow. (Division by zero is never handed out: the
    /// operations require that it does not happen.)
    Fault(Fault),
}

pub enum Reckoned {
    Value(Val),
    Float(Op, RealVal, RealVal),
    Text(Seq<Chunk>),
    Fault(Fault),
}

impl View for Outcome {
    type V = Reckoned;

    open spec fn view(&self) -> Reckoned {
        match self {
            Outcome::Value(v) => Reckoned::Value(v@),
            Outcome::Float(op, a, b) => Reckoned::Float(*op, a@, b@),
            Outcome::Text(p) => Reckoned::Text(chunks(p@)),
            Outcome::Fault(f) => Reckoned::Fault(*f),
        }
    }
}

/// The bits of the `f64` NaN that unsupported operations give.
pub open spec fn nan_bits() -> u64 {
    0x7ff8_0000_0000_0000u64
}

/// Integer division truncating toward zero.
pub open spec fn quotient(x: int, d: int) -> int {
    if x == 0 {
        0
    } else if x > 0 && d > 0 {
        x / d
    } else if x < 0 && d < 0 {
        (-x) / (-d)
    } else if x < 0 {
        -((-x) / d)
    } else {
        -(x / (-d))
    }
}

pub open spec fn in_i64(x: int) -> bool {
    i64::MIN <= x <= i64::MAX
}

/// `op` on two integers as `i64`.
pub open spec fn integer_outcome(op: Op, x: int, y: int) -> Reckoned {
    let r = match op {
        Op::Add => x + y,
        Op::Sub => x - y,
        Op::Mul => x * y,
        Op::Div => quotient(x, y),
    };
    if op == Op::Div && y == 0 {
        Reckoned::Fault(Fault::DivisionByZero)
    } else if in_i64(r) {
        Reckoned::Value(Val::I64(r as i64))
    } else {
        Reckoned::Fault(Fault::Overflow)
    }
}

/// The two renderings joined: a string when no float is in them.
pub open spec fn concat_outcome(a: Val, b: Val) -> Reckoned {
    let c = render(a) + render(b);
    if all_text(c) {
        Reckoned::Value(Val::String(joined(c)))
    } else {
        Reckoned::Text(c)
    }
}

pub open spec fn nan_outcome() -> Reckoned {
    Reckoned::Value(Val::F64(nan_bits()))
}

/// A rung of the ladder below the string rung.
pub open spec fn on_integer_rung(k: Kind) -> bool {
    match k {
        Kind::I64 | Kind::I32 | Kind::I16 | Kind::I8 => true,
        Kind::U64 | Kind::U32 | Kind::U16 | Kind::U8 => true,
        _ => false,
    }
}

/// Two values of the same tag.
pub open spec fn same_kind_outcome(op: Op, a: Val, b: Val) -> Reckoned {
    match (a, b) {
        (Val::F32(_), _) | (Val::F64(_), _) => Reckoned::Float(op, real_of(a), real_of(b)),
        (Val::String(x), Val::String(y)) | (Val::Str(x), Val::Str(y)) => if op == Op::Add {
            Reckoned::Value(Val::String(x + y))
        } else {
            nan_outcome()
        },
        (Val::Bool(x), Val::Bool(y)) => if op == Op::Add {
            Reckoned::Value(Val::Bool(x || y))
        } else {
            nan_outcome()
        },
        (Val::Array(x), Val::Array(y)) => if op == Op::Add {
            Reckoned::Value(Val::Array(x + y))
        } else {
            nan_outcome()
        },
        (Val::Dict(_), _) | (Val::Pair(_, _), _) | (Val::Function(_), _) => if op == Op::Add {
            concat_outcome(a, b)
        } else {
            nan_outcome()
        },
        _ => integer_outcome(op, integer_of(a), integer_of(b)),
    }
}

/// What `op` gives on `a` and `b`.
pub open spec fn outcome(op: Op, a: Val, b: Val) -> Reckoned {
    let (ka, kb) = (a.kind(), b.kind());
    if ka == Kind::Null || kb == Kind::Null {
        Reckoned::Value(Val::Null)
    } else if ka == kb {
        same_kind_outcome(op, a, b)
    } else if ka.is_string_kind() || kb.is_string_kind() {
        if op == Op::Add {
            concat_outcome(a, b)
        } else {
            nan_outcome()
        }
    } else if ka.is_float_kind() || kb.is_float_kind() {
        Reckoned::Float(op, real_of(a), real_of(b))
    } else if on_integer_rung(ka) || on_integer_rung(kb) {
        integer_outcome(op, integer_of(a), integer_of(b))
    } else {
        concat_outcome(a, b)
    }
}

fn integer_op(op: Op, x: i64, y: i64) -> (r: Outcome)
    ensures
        r@ == integer_outcome(op, x as int, y as int),
{
    let r = match op {
        Op::Add => x.checked_add(y),
        Op::Sub => x.checked_sub(y),
        Op::Mul => x.checked_mul(y),
        Op::Div => {
            if y == 0 {
                return Outcome::Fault(Fault::DivisionByZero);
            }
            x.checked_div(y)
        },
    };
    match r {
        Some(v) => Outcome::Value(Any::I64(v)),
        None => Outcome::Fault(Fault::Overflow),
    }
}

fn concat(a: &Any, b: &Any) -> (r: Outcome)
    ensures
        r@ == concat_outcome(a@, b@),
{
    let mut p = a.render();
    let q = b.render();
    let mut i: usize = 0;
    let ghost pa = p@;
    while i < q.len()
        invariant
            i <= q.len(),
            chunks(p@) == chunks(pa) + chunks(q@).subrange(0, i as int),
        decreases q.len() - i,
    {
        let piece = match &q[i] {
            Piece::Text(t) => Piece::Text(t.clone()),
            Piece::Single(x) => Piece::Single(*x),
            Piece::Double(x) => Piece::Double(*x),
        };
        let ghost before = p@;
        p.push(piece);
        proof {
            assert(chunks(p@) =~= chunks(before).push(chunks(q@)[i as int]));
            assert(chunks(q@).subrange(0, i + 1) =~= chunks(q@).subrange(0, i as int).push(chunks(q@)[i as int]));
            assert(chunks(p@) =~= chunks(pa) + chunks(q@).subrange(0, i + 1));
        }
        i = i + 1;
    }
    proof {
        assert(chunks(q@).subrange(0, q@.len() as int) =~= chunks(q@));
    }
    if all_text_pieces(&p) {
        Outcome::Value(Any::String(join_pieces(&p)))
    } else {
        Outcome::Text(p)
    }
}

fn nan() -> (r: Outcome)
    ensures
        r@ == nan_outcome(),
{
    Outcome::Value(Any::F64(0x7ff8_0000_0000_0000u64))
}

fn joined_arrays(x: &Array, y: &Array) -> (r: Array)
    ensures
        r@ == x@ + y@,
{
    let mut out = x.copy();
    let mut i: usize = 0;
    proof {
        lemma_views(y.0@);
    }
    while i < y.0.len()
        invariant
            i <= y.0.len(),
            views(y.0@).len() == y.0.len(),
            forall|k: int| 0 <= k < y.0.len() ==> #[trigger] views(y.0@)[k] == y.0@[k]@,
            out@ == x@ + y@.subrange(0, i as int),
        decreases y.0.len() - i,
    {
        out.push(y.0[i].duplicate());
        proof {
            assert(y@.subrange(0, i + 1) =~= y@.subrange(0, i as int).push(y@[i as int]));
            assert(out@ =~= x@ + y@.subrange(0, i + 1));
        }
        i = i + 1;
    }
    proof {
        assert(y@.subrange(0, y@.len() as int) =~= y@);
    }
    out
}

/// Integer division by zero is fatal: `arith` and `div` leave those inputs
/// out, and callers test with `divides_by_zero` first.
pub open spec fn zero_division(op: Op, a: Val, b: Val) -> bool {
    outcome(op, a, b) == Reckoned::Fault(Fault::DivisionByZero)
}

/// Whether `a / b` would divide an integer by zero.
pub fn divides_by_zero(a: &Any, b: &Any) -> (r: bool)
    ensures
        r == zero_division(Op::Div, a@, b@),
{
    match reckon(Op::Div, a, b) {
        Outcome::Fault(Fault::DivisionByZero) => true,
        _ => false,
    }
}

/// `op` on `a` and `b`; see `outcome`.
pub fn arith(op: Op, a: &Any, b: &Any) -> (r: Outcome)
    requires
        !zero_division(op, a@, b@),
    ensures
        r@ == outcome(op, a@, b@),
{
    reckon(op, a, b)
}

fn reckon(op: Op, a: &Any, b: &Any) -> (r: Outcome)
    ensures
        r@ == outcome(op, a@, b@),
{
    let ka = a.type_id();
    let kb = b.type_id();
    if ka == Kind::Null || kb == Kind::Null {
        return Outcome::Value(null());
    }
    if ka == kb {
        match (a, b) {
            (Any::F32(_), _) | (Any::F64(_), _) => Outcome::Float(op, a.to_float(), b.to_float()),
            (Any::String(x), Any::String(y)) | (Any::Str(x), Any::Str(y)) => {
                if op == Op::Add {
                    let mut s = x.clone();
                    s.append(y.as_str());
                    Outcome::Value(Any::String(s))
                } else {
                    nan()
                }
            },
            (Any::Bool(x), Any::Bool(y)) => {
                if op == Op::Add {
                    Outcome::Value(Any::Bool(*x || *y))
                } else {
                    nan()
                }
            },
            (Any::Array(x), Any::Array(y)) => {
                if op == Op::Add {
                    Outcome::Value(Any::Array(joined_arrays(x, y)))
                } else {
                    nan()
                }
            },
            (Any::Dict(_), _) | (Any::Pair(_), _) | (Any::Function(_), _) => {
                if op == Op::Add {
                    concat(a, b)
                } else {
                    nan()
                }
            },
            _ => integer_op(op, a.to_integer(), b.to_integer()),
        }
    } else if a.is_string() || b.is_string() {
        if op == Op::Add {
            concat(a, b)
        } else {
            nan()
        }
    } else if a.is_float() || b.is_float() {
        Outcome::Float(op, a.to_float(), b.to_float())
    } else if integer_rung(ka) || integer_rung(kb) {
        integer_op(op, a.to_integer(), b.to_integer())
    } else {
        concat(a, b)
    }
}

fn integer_rung(k: Kind) -> (r: bool)
    ensures
        r == on_integer_rung(k),
{
    match k {
        Kind::I64 | Kind::I32 | Kind::I16 | Kind::I8 => true,
        Kind::U64 | Kind::U32 | Kind::U16 | Kind::U8 => true,
        _ => false,
    }
}

impl Any {
    pub fn add(self, other: Any) -> (r: Outcome)
        ensures
            r@ == outcome(Op::Add, self@, other@),
    {
        reckon(Op::Add, &self, &other)
    }

    pub fn sub(self, other: Any) -> (r: Outcome)
        ensures
            r@ == outcome(Op::Sub, self@, other@),
    {
        reckon(Op::Sub, &self, &other)
    }

    pub fn mul(self, other: Any) -> (r: Outcome)
        ensures
            r@ == outcome(Op::Mul, self@, other@),
    {
        reckon(Op::Mul, &self, &other)
    }

    /// Integer division by zero is left out; see `divides_by_zero`.
    pub fn div(self, other: Any) -> (r: Outcome)
        requires
            !zero_division(Op::Div, self@, other@),
        ensures
            r@ == outcome(Op::Div, self@, other@),
    {
        arith(Op::Div, &self, &other)
    }

    /// Null for null, else the negation of `to_boolean`.
    pub fn not(self) -> (r: Any)
        ensures
            r@ == (if self@ is Null { Val::Null } else { Val::Bool(!boolean_of(self@)) }),
    {
        if self.is_null() {
            null()
        } else {
            Any::Bool(!self.to_boolean())
        }
    }
}

} // verus!
