//! Laws that relate the operations to one another.
use vstd::prelude::*;

use crate::any::{index_of, position_of};
use crate::cast::integer_of;
use crate::collections::{
    distinct_keys, first_key, flat, lacks_key, lemma_without_key, lemma_without_key_len, without_key,
};
use crate::hash::{hash_of, lemma_hash_agrees};
use crate::ops::{in_i64, outcome, quotient, Op, Reckoned};
use crate::value::{lemma_same_reflexive, nan_free, same, Val};

verus! {

/// The exact value of `op` on two integers.
pub open spec fn exact(op: Op, x: int, y: int) -> int {
    match op {
        Op::Add => x + y,
        Op::Sub => x - y,
        Op::Mul => x * y,
        Op::Div => quotient(x, y),
    }
}

/// Arithmetic on two integers of the same tag is arithmetic on their
/// integer values: whenever the exact result fits in an `i64` (and a
/// divisor is not zero), the result is that number, tagged `i64`.
pub proof fn law_integer_arithmetic(op: Op, a: Val, b: Val)
    requires
        a.kind() == b.kind(),
        a.kind().is_integer_kind(),
        !(op == Op::Div && integer_of(b) == 0),
        in_i64(exact(op, integer_of(a), integer_of(b))),
    ensures
        outcome(op, a, b) matches Reckoned::Value(r) && r is I64 && integer_of(r) == exact(
            op,
            integer_of(a),
            integer_of(b),
        ),
{
}

/// Values of different tags are never equal, whatever their numbers.
pub proof fn law_tags_must_match(a: Val, b: Val)
    requires
        a.kind() != b.kind(),
    ensures
        !same(a, b),
{
}

/// Equal values have equal hash codes.
pub proof fn law_equal_values_hash_alike(a: Val, b: Val)
    requires
        same(a, b),
    ensures
        hash_of(a) == hash_of(b),
{
    lemma_hash_agrees(a, b);
}

/// Pushing `x` onto an array and popping gives back `x` and the array as it
/// was; so does unshifting `x` and shifting.
pub proof fn law_array_round_trip(s: Seq<Val>, x: Val)
    ensures
        s.push(x).len() > 0,
        s.push(x).last() == x,
        s.push(x).drop_last() == s,
        (seq![x] + s).len() > 0,
        (seq![x] + s)[0] == x,
        (seq![x] + s).subrange(1, (seq![x] + s).len() as int) == s,
{
    assert(s.push(x).drop_last() =~= s);
    assert((seq![x] + s).subrange(1, (seq![x] + s).len() as int) =~= s);
}

/// After `set(k, v)` on a map (whose result `m2` is as `set` describes),
/// `get(k)` and `delete(k)` give `v`, and once `k` is deleted no key
/// equals it, so `get(k)` gives null. The key must hold no NaN, since a
/// NaN equals nothing, not even itself.
pub proof fn law_map_round_trip(m: Seq<(Val, Val)>, k: Val, v: Val, m2: Seq<(Val, Val)>)
    requires
        nan_free(k),
        forall|i: int| first_key(m, k, i) ==> m2 == m.update(i, (m[i].0, v)),
        lacks_key(m, k) ==> m2 == m.push((k, v)),
    ensures
        exists|i: int| first_key(m2, k, i) && m2[i].1 == v,
        lacks_key(without_key(m2, k), k),
{
    lemma_same_reflexive(k);
    if lacks_key(m, k) {
        let i = m.len() as int;
        assert(m2[i] == (k, v));
        assert forall|j: int| 0 <= j < i implies !same(#[trigger] m2[j].0, k) by {
            assert(m2[j] == m[j]);
        }
        assert(first_key(m2, k, i));
    } else {
        let j = choose|j: int| 0 <= j < m.len() && same(#[trigger] m[j].0, k);
        let i = first_index(m, k, j);
        assert(m2 == m.update(i, (m[i].0, v)));
        assert forall|a: int| 0 <= a < i implies !same(#[trigger] m2[a].0, k) by {
            assert(m2[a] == m[a]);
        }
        assert(first_key(m2, k, i));
    }
    lemma_without_key(m2, k);
}

/// After `set(k, v)` on a map whose keys are pairwise unequal, with a key
/// that is flat (no array or map) and holds no NaN, `delete(k)` leaves one
/// entry fewer.
pub proof fn law_map_delete_length(m: Seq<(Val, Val)>, k: Val, v: Val, m2: Seq<(Val, Val)>)
    requires
        nan_free(k),
        flat(k),
        distinct_keys(m),
        forall|i: int| first_key(m, k, i) ==> m2 == m.update(i, (m[i].0, v)),
        lacks_key(m, k) ==> m2 == m.push((k, v)),
    ensures
        without_key(m2, k).len() == m2.len() - 1,
{
    law_map_round_trip(m, k, v, m2);
    let i = choose|i: int| first_key(m2, k, i) && m2[i].1 == v;
    assert(same(m2[i].0, k));
    assert(distinct_keys(m2)) by {
        if lacks_key(m, k) {
            assert forall|a: int, b: int| 0 <= a < b < m2.len() implies !same(#[trigger] m2[a].0, #[trigger] m2[b].0) by {
                if b == m.len() {
                    assert(m2[a] == m[a]);
                    assert(!same(m[a].0, k));
                } else {
                    assert(m2[a] == m[a] && m2[b] == m[b]);
                }
            }
        } else {
            let j = choose|j: int| 0 <= j < m.len() && same(#[trigger] m[j].0, k);
            let f = first_index(m, k, j);
            assert(m2 == m.update(f, (m[f].0, v)));
            assert forall|a: int, b: int| 0 <= a < b < m2.len() implies !same(#[trigger] m2[a].0, #[trigger] m2[b].0) by {
                assert(m2[a].0 == m[a].0 && m2[b].0 == m[b].0);
            }
        }
    }
    lemma_without_key_len(m2, k);
}

/// From any position whose key equals `k`, the first such position.
proof fn first_index(m: Seq<(Val, Val)>, k: Val, j: int) -> (i: int)
    requires
        0 <= j < m.len(),
        same(m[j].0, k),
    ensures
        first_key(m, k, i),
    decreases j,
{
    if exists|a: int| 0 <= a < j && same(#[trigger] m[a].0, k) {
        let a = choose|a: int| 0 <= a < j && same(#[trigger] m[a].0, k);
        first_index(m, k, a)
    } else {
        j
    }
}

/// Reading an array outside its positions gives null, never a fault.
pub proof fn law_out_of_range_reads_null(s: Seq<Val>, key: Val)
    requires
        !(0 <= position_of(key) < s.len()),
    ensures
        index_of(Val::Array(s), key) == Val::Null,
{
}

} // verus!
