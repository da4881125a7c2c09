//! Rendering of values as text: arrays as `[e1, e2]`, maps as `{k: v}`,
//! pairs as `(a, b)`, `null`, `function`, and numbers and booleans in their
//! usual form. A float is handed on as its bits, for the host to format.
use vstd::prelude::*;

use crate::text::{int_text, nat_text, render_signed, render_unsigned};
use crate::value::{entry_views, lemma_entry_views, lemma_views, views, Any, Val};

verus! {

/// One piece of a rendering.
pub enum Piece {
    Text(String),
    /// An `f32` to be formatted, by its bits.
    Single(u32),
    /// An `f64` to be formatted, by its bits.
    Double(u64),
}

pub enum Chunk {
    Text(Seq<char>),
    Single(u32),
    Double(u64),
}

impl View for Piece {
    type V = Chunk;

    open spec fn view(&self) -> Chunk {
        match self {
            Piece::Text(s) => Chunk::Text(s@),
            Piece::Single(b) => Chunk::Single(*b),
            Piece::Double(b) => Chunk::Double(*b),
        }
    }
}

pub open spec fn chunks(p: Seq<Piece>) -> Seq<Chunk> {
    p.map_values(|x: Piece| x@)
}

pub open spec fn lit(s: Seq<char>) -> Seq<Chunk> {
    seq![Chunk::Text(s)]
}

pub open spec fn width(v: Val) -> nat {
    match v {
        Val::Array(s) => s.len() + 1,
        Val::Dict(m) => m.len() + 1,
        _ => 0,
    }
}

/// The rendering of a value.
pub open spec fn render(v: Val) -> Seq<Chunk>
    decreases v, width(v),
{
    match v {
        Val::I8(x) => lit(int_text(x as int)),
        Val::I16(x) => lit(int_text(x as int)),
        Val::I32(x) => lit(int_text(x as int)),
        Val::I64(x) => lit(int_text(x as int)),
        Val::Isize(x) => lit(int_text(x as int)),
        Val::U8(x) => lit(nat_text(x as nat)),
        Val::U16(x) => lit(nat_text(x as nat)),
        Val::U32(x) => lit(nat_text(x as nat)),
        Val::U64(x) => lit(nat_text(x as nat)),
        Val::Usize(x) => lit(nat_text(x as nat)),
        Val::F32(b) => seq![Chunk::Single(b)],
        Val::F64(b) => seq![Chunk::Double(b)],
        Val::String(s) => lit(s),
        Val::Str(s) => lit(s),
        Val::Bool(b) => if b { lit(seq!['t', 'r', 'u', 'e']) } else { lit(seq!['f', 'a', 'l', 's', 'e']) },
        Val::Array(s) => lit(seq!['[']) + render_items(v, s.len()) + lit(seq![']']),
        Val::Dict(m) => lit(seq!['{']) + render_items(v, m.len()) + lit(seq!['}']),
        Val::Pair(a, b) => lit(seq!['(']) + render(*a) + lit(seq![',', ' ']) + render(*b) + lit(seq![')']),
        Val::Null => lit(seq!['n', 'u', 'l', 'l']),
        Val::Function(_) => lit(seq!['f', 'u', 'n', 'c', 't', 'i', 'o', 'n']),
    }
}

/// The first `n` elements (or entries, as `k: v`) of an array or map,
/// separated by `, `.
pub open spec fn render_items(v: Val, n: nat) -> Seq<Chunk>
    decreases v, n,
{
    match v {
        Val::Array(s) => if n == 0 || n > s.len() {
            Seq::empty()
        } else if n == 1 {
            render(s[0])
        } else {
            render_items(v, (n - 1) as nat) + lit(seq![',', ' ']) + render(s[n - 1])
        },
        Val::Dict(m) => if n == 0 || n > m.len() {
            Seq::empty()
        } else {
            let entry = render(m[n - 1].0) + lit(seq![':', ' ']) + render(m[n - 1].1);
            if n == 1 {
                entry
            } else {
                render_items(v, (n - 1) as nat) + lit(seq![',', ' ']) + entry
            }
        },
        _ => Seq::empty(),
    }
}

fn push_piece(out: &mut Vec<Piece>, p: Piece)
    ensures
        chunks(final(out)@) == chunks(old(out)@) + seq![p@],
{
    out.push(p);
    proof {
        assert(chunks(out@) =~= chunks(old(out)@) + seq![p@]);
    }
}

fn push_text(out: &mut Vec<Piece>, t: String)
    ensures
        chunks(final(out)@) == chunks(old(out)@) + lit(t@),
{
    push_piece(out, Piece::Text(t));
}

fn comma() -> (r: String)
    ensures
        r@ == seq![',', ' '],
{
    proof {
        reveal_strlit(", ");
    }
    let r = String::from_str(", ");
    proof {
        assert(r@ =~= seq![',', ' ']);
    }
    r
}

fn text_of(s: &'static str) -> (r: String)
    ensures
        r@ == s@,
{
    String::from_str(s)
}

/// Appends the rendering of `v` to `out`.
pub fn render_into(v: &Any, out: &mut Vec<Piece>)
    ensures
        chunks(final(out)@) == chunks(old(out)@) + render(v@),
    decreases v,
{
    match v {
        Any::I8(x) => push_text(out, render_signed(*x as i64)),
        Any::I16(x) => push_text(out, render_signed(*x as i64)),
        Any::I32(x) => push_text(out, render_signed(*x as i64)),
        Any::I64(x) => push_text(out, render_signed(*x)),
        Any::Isize(x) => push_text(out, render_signed(*x as i64)),
        Any::U8(x) => push_text(out, render_unsigned(*x as u64)),
        Any::U16(x) => push_text(out, render_unsigned(*x as u64)),
        Any::U32(x) => push_text(out, render_unsigned(*x as u64)),
        Any::U64(x) => push_text(out, render_unsigned(*x)),
        Any::Usize(x) => push_text(out, render_unsigned(*x as u64)),
        Any::F32(b) => push_piece(out, Piece::Single(*b)),
        Any::F64(b) => push_piece(out, Piece::Double(*b)),
        Any::String(s) => push_text(out, s.clone()),
        Any::Str(s) => push_text(out, s.clone()),
        Any::Bool(b) => {
            proof {
                reveal_strlit("true");
                reveal_strlit("false");
            }
            let t = if *b { text_of("true") } else { text_of("false") };
            proof {
                assert(*b ==> t@ =~= seq!['t', 'r', 'u', 'e']);
                assert(!*b ==> t@ =~= seq!['f', 'a', 'l', 's', 'e']);
            }
            push_text(out, t);
        },
        Any::Null(_) => {
            proof {
                reveal_strlit("null");
            }
            let t = text_of("null");
            proof {
                assert(t@ =~= seq!['n', 'u', 'l', 'l']);
            }
            push_text(out, t);
        },
        Any::Function(_) => {
            proof {
                reveal_strlit("function");
            }
            let t = text_of("function");
            proof {
                assert(t@ =~= seq!['f', 'u', 'n', 'c', 't', 'i', 'o', 'n']);
            }
            push_text(out, t);
        },
        Any::Pair(p) => {
            proof {
                reveal_strlit("(");
                reveal_strlit(")");
                assert(decreases_to!(*v => v->Pair_0));
            }
            let open = text_of("(");
            let close = text_of(")");
            proof {
                assert(open@ =~= seq!['(']);
                assert(close@ =~= seq![')']);
            }
            let ghost start = chunks(out@);
            push_text(out, open);
            render_into(&p.0, out);
            push_text(out, comma());
            render_into(&p.1, out);
            push_text(out, close);
            proof {
                assert(chunks(out@) =~= start + render(v@));
            }
        },
        Any::Array(a) => {
            proof {
                reveal_strlit("[");
                reveal_strlit("]");
                lemma_views(a.0@);
            }
            let open = text_of("[");
            let close = text_of("]");
            proof {
                assert(open@ =~= seq!['[']);
                assert(close@ =~= seq![']']);
            }
            let ghost start = chunks(out@);
            let ghost s = views(a.0@);
            push_text(out, open);
            let mut i: usize = 0;
            while i < a.0.len()
                invariant
                    *v == Any::Array(*a),
                    v@ == Val::Array(s),
                    s == views(a.0@),
                    s.len() == a.0.len(),
                    forall|k: int| 0 <= k < a.0.len() ==> #[trigger] s[k] == a.0@[k]@,
                    i <= a.0.len(),
                    chunks(out@) == start + lit(seq!['[']) + render_items(v@, i as nat),
                decreases a.0.len() - i,
            {
                proof {
                    assert(decreases_to!(*v => v->Array_0));
                    assert(decreases_to!(*a => a.0));
                    assert(decreases_to!(a.0 => a.0@));
                    assert(decreases_to!(a.0@ => a.0@[i as int]));
                }
                let ghost before = chunks(out@);
                if i > 0 {
                    push_text(out, comma());
                }
                render_into(&a.0[i], out);
                proof {
                    if i == 0 {
                        assert(render_items(v@, 1) == render(s[0]));
                        assert(before =~= start + lit(seq!['[']));
                    } else {
                        assert(render_items(v@, (i + 1) as nat) == render_items(v@, i as nat) + lit(seq![',', ' ']) + render(s[i as int]));
                    }
                    assert(chunks(out@) =~= start + lit(seq!['[']) + render_items(v@, (i + 1) as nat));
                }
                i = i + 1;
            }
            push_text(out, close);
            proof {
                assert(chunks(out@) =~= start + render(v@));
            }
        },
        Any::Dict(m) => {
            proof {
                reveal_strlit("{");
                reveal_strlit("}");
                reveal_strlit(": ");
                lemma_entry_views(m.0@);
            }
            let open = text_of("{");
            let close = text_of("}");
            proof {
                assert(open@ =~= seq!['{']);
                assert(close@ =~= seq!['}']);
            }
            let ghost start = chunks(out@);
            let ghost s = entry_views(m.0@);
            push_text(out, open);
            let mut i: usize = 0;
            while i < m.0.len()
                invariant
                    *v == Any::Dict(*m),
                    v@ == Val::Dict(s),
                    s == entry_views(m.0@),
                    s.len() == m.0.len(),
                    forall|k: int| 0 <= k < m.0.len() ==> #[trigger] s[k] == (m.0@[k].0@, m.0@[k].1@),
                    i <= m.0.len(),
                    chunks(out@) == start + lit(seq!['{']) + render_items(v@, i as nat),
                decreases m.0.len() - i,
            {
                proof {
                    assert(decreases_to!(*v => v->Dict_0));
                    assert(decreases_to!(*m => m.0));
                    assert(decreases_to!(m.0 => m.0@));
                    assert(decreases_to!(m.0@ => m.0@[i as int]));
                    assert(decreases_to!(m.0@[i as int] => m.0@[i as int].0));
                    assert(decreases_to!(m.0@[i as int] => m.0@[i as int].1));
                }
                let ghost before = chunks(out@);
                if i > 0 {
                    push_text(out, comma());
                }
                let ghost mid = chunks(out@);
                render_into(&m.0[i].0, out);
                let colon = text_of(": ");
                proof {
                    reveal_strlit(": ");
                    assert(colon@ =~= seq![':', ' ']);
                }
                push_text(out, colon);
                render_into(&m.0[i].1, out);
                proof {
                    let entry = render(s[i as int].0) + lit(seq![':', ' ']) + render(s[i as int].1);
                    assert(chunks(out@) =~= mid + entry);
                    if i == 0 {
                        assert(render_items(v@, 1) == entry);
                        assert(before =~= start + lit(seq!['{']));
                    } else {
                        assert(render_items(v@, (i + 1) as nat) == render_items(v@, i as nat) + lit(seq![',', ' ']) + entry);
                    }
                    assert(chunks(out@) =~= start + lit(seq!['{']) + render_items(v@, (i + 1) as nat));
                }
                i = i + 1;
            }
            push_text(out, close);
            proof {
                assert(chunks(out@) =~= start + render(v@));
            }
        },
    }
}

/// Every chunk is text: nothing is left for the host to format.
pub open spec fn all_text(c: Seq<Chunk>) -> bool {
    forall|i: int| 0 <= i < c.len() ==> #[trigger] c[i] is Text
}

/// The text of chunks that are all text, joined.
pub open spec fn joined(c: Seq<Chunk>) -> Seq<char>
    decreases c.len(),
{
    if c.len() == 0 {
        Seq::empty()
    } else {
        joined(c.drop_last()) + match c.last() {
            Chunk::Text(t) => t,
            _ => Seq::empty(),
        }
    }
}

/// Whether every piece is text.
pub fn all_text_pieces(p: &Vec<Piece>) -> (r: bool)
    ensures
        r == all_text(chunks(p@)),
{
    let mut i: usize = 0;
    while i < p.len()
        invariant
            i <= p.len(),
            forall|k: int| 0 <= k < i ==> #[trigger] chunks(p@)[k] is Text,
        decreases p.len() - i,
    {
        match &p[i] {
            Piece::Text(_) => {},
            _ => {
                proof {
                    assert(!(chunks(p@)[i as int] is Text));
                }
                return false;
            },
        }
        i = i + 1;
    }
    true
}

/// Whether two renderings are the same, piece for piece.
pub fn same_pieces(p: &Vec<Piece>, q: &Vec<Piece>) -> (r: bool)
    ensures
        r == (chunks(p@) == chunks(q@)),
{
    if p.len() != q.len() {
        proof {
            assert(chunks(p@).len() != chunks(q@).len());
        }
        return false;
    }
    let mut i: usize = 0;
    while i < p.len()
        invariant
            p.len() == q.len(),
            i <= p.len(),
            forall|k: int| 0 <= k < i ==> #[trigger] chunks(p@)[k] == chunks(q@)[k],
        decreases p.len() - i,
    {
        let eq = match (&p[i], &q[i]) {
            (Piece::Text(x), Piece::Text(y)) => *x == *y,
            (Piece::Single(x), Piece::Single(y)) => *x == *y,
            (Piece::Double(x), Piece::Double(y)) => *x == *y,
            _ => false,
        };
        if !eq {
            proof {
                assert(chunks(p@)[i as int] != chunks(q@)[i as int]);
            }
            return false;
        }
        i = i + 1;
    }
    proof {
        assert(chunks(p@) =~= chunks(q@));
    }
    true
}

/// Joins pieces that are all text.
pub fn join_pieces(p: &Vec<Piece>) -> (r: String)
    requires
        all_text(chunks(p@)),
    ensures
        r@ == joined(chunks(p@)),
{
    let mut out = String::new();
    let mut i: usize = 0;
    while i < p.len()
        invariant
            i <= p.len(),
            all_text(chunks(p@)),
            out@ == joined(chunks(p@.subrange(0, i as int))),
        decreases p.len() - i,
    {
        proof {
            assert(chunks(p@.subrange(0, i + 1)).drop_last() =~= chunks(p@.subrange(0, i as int)));
            assert(chunks(p@)[i as int] is Text);
        }
        match &p[i] {
            Piece::Text(t) => {
                out.append(t.as_str());
            },
            _ => {},
        }
        i = i + 1;
    }
    proof {
        assert(p@.subrange(0, p@.len() as int) =~= p@);
    }
    out
}

impl Any {
    /// The rendering of the value, in pieces; floats stay as bits.
    pub fn render(&self) -> (r: Vec<Piece>)
        ensures
            chunks(r@) == render(self@),
    {
        let mut out: Vec<Piece> = Vec::new();
        proof {
            assert(chunks(out@) =~= Seq::<Chunk>::empty());
        }
        render_into(self, &mut out);
        proof {
            assert(Seq::<Chunk>::empty() + render(self@) =~= render(self@));
        }
        out
    }

    /// The rendering of a value that holds no float, as a string.
    pub fn to_str(&self) -> (r: String)
        requires
            all_text(render(self@)),
        ensures
            r@ == joined(render(self@)),
    {
        let p = self.render();
        join_pieces(&p)
    }
}

} // verus!
