//! Operations of the three containers: `Array`, `Dict` and `Pair`.
use vstd::prelude::*;

use crate::render::{all_text, render};
use crate::value::{
    entry_views, lemma_entry_views, lemma_views, same, views, Any, Array, Dict, Pair, Val,
};

verus! {

impl Array {
    /// An independent copy with the same elements.
    pub fn copy(&self) -> (r: Array)
        ensures
            r@ == self@,
    {
        let mut out: Vec<Any> = Vec::new();
        let mut i: usize = 0;
        while i < self.0.len()
            invariant
                i <= self.0.len(),
                out.len() == i,
                forall|j: int| 0 <= j < i ==> out@[j]@ == self.0@[j]@,
            decreases self.0.len() - i,
        {
            out.push(self.0[i].duplicate());
            i = i + 1;
        }
        proof {
            crate::value::lemma_views_ext(out@, self.0@);
        }
        Array(out)
    }

    pub fn new() -> (r: Array)
        ensures
            r@ == Seq::<Val>::empty(),
    {
        proof {
            lemma_views(Seq::<Any>::empty());
        }
        let r = Array(Vec::new());
        proof {
            assert(r@ =~= Seq::<Val>::empty());
        }
        r
    }

    /// Appends at the tail.
    pub fn push(&mut self, value: Any)
        ensures
            final(self)@ == old(self)@.push(value@),
    {
        let ghost before = self.0@;
        self.0.push(value);
        proof {
            assert(self.0@.subrange(0, self.0@.len() - 1) =~= before);
        }
    }

    /// Removes and returns the last element; `None` when empty.
    pub fn pop(&mut self) -> (r: Option<Any>)
        ensures
            old(self)@.len() == 0 ==> r is None && final(self)@ == old(self)@,
            old(self)@.len() > 0 ==> r is Some && r.unwrap()@ == old(self)@.last()
                && final(self)@ == old(self)@.drop_last(),
    {
        proof {
            lemma_views(self.0@);
        }
        let ghost before = self.0@;
        let r = self.0.pop();
        proof {
            if before.len() > 0 {
                assert(before.subrange(0, before.len() - 1) =~= self.0@);
                lemma_views(self.0@);
                assert(self@ =~= old(self)@.drop_last());
            }
        }
        r
    }

    /// Removes and returns the first element; `None` when empty.
    pub fn shift(&mut self) -> (r: Option<Any>)
        ensures
            old(self)@.len() == 0 ==> r is None && final(self)@ == old(self)@,
            old(self)@.len() > 0 ==> r is Some && r.unwrap()@ == old(self)@[0]
                && final(self)@ == old(self)@.subrange(1, old(self)@.len() as int),
    {
        proof {
            lemma_views(self.0@);
        }
        if self.0.len() == 0 {
            return None;
        }
        let first = self.0.remove(0);
        proof {
            lemma_views(self.0@);
            assert(self@ =~= old(self)@.subrange(1, old(self)@.len() as int));
        }
        Some(first)
    }

    /// Inserts at the head.
    pub fn unshift(&mut self, value: Any)
        ensures
            final(self)@ == seq![value@] + old(self)@,
    {
        proof {
            lemma_views(self.0@);
        }
        let ghost v = value@;
        self.0.insert(0, value);
        proof {
            lemma_views(self.0@);
            assert(self@ =~= seq![v] + old(self)@);
        }
    }

    pub fn length(&self) -> (r: usize)
        ensures
            r == self@.len(),
    {
        proof {
            lemma_views(self.0@);
        }
        self.0.len()
    }

    pub fn is_empty(&self) -> (r: bool)
        ensures
            r == (self@.len() == 0),
    {
        proof {
            lemma_views(self.0@);
        }
        self.0.len() == 0
    }

    /// Reverses the elements in place.
    pub fn reverse(&mut self)
        ensures
            final(self)@ == old(self)@.reverse(),
    {
        proof {
            lemma_views(self.0@);
        }
        let mut out: Vec<Any> = Vec::new();
        let n = self.0.len();
        let mut i: usize = 0;
        while i < n
            invariant
                n == self.0.len(),
                self.0@ == old(self).0@,
                views(self.0@).len() == n,
                forall|j: int| 0 <= j < n ==> #[trigger] views(self.0@)[j] == self.0@[j]@,
                i <= n,
                out@.len() == i,
                forall|j: int| 0 <= j < i ==> #[trigger] out@[j]@ == self.0@[n - 1 - j]@,
            decreases n - i,
        {
            let x = self.0[n - 1 - i].duplicate();
            out.push(x);
            i = i + 1;
        }
        self.0 = out;
        proof {
            lemma_views(self.0@);
            assert(self@ =~= old(self)@.reverse());
        }
    }
}

/// `i` is the first position whose key equals `k`.
pub open spec fn first_key(s: Seq<(Val, Val)>, k: Val, i: int) -> bool {
    &&& 0 <= i < s.len()
    &&& same(s[i].0, k)
    &&& forall|j: int| 0 <= j < i ==> !same(#[trigger] s[j].0, k)
}

/// At most one position is the first whose key equals `k`.
pub proof fn lemma_first_key_unique(s: Seq<(Val, Val)>, k: Val, i: int, j: int)
    requires
        first_key(s, k, i),
        first_key(s, k, j),
    ensures
        i == j,
{
    if i < j {
        assert(!same(s[i].0, k));
    } else if j < i {
        assert(!same(s[j].0, k));
    }
}

/// No key equals `k`.
pub open spec fn lacks_key(s: Seq<(Val, Val)>, k: Val) -> bool {
    forall|j: int| 0 <= j < s.len() ==> !same(#[trigger] s[j].0, k)
}

/// The entries whose key does not equal `k`, in their order.
pub open spec fn without_key(s: Seq<(Val, Val)>, k: Val) -> Seq<(Val, Val)>
    decreases s.len(),
{
    if s.len() == 0 {
        s
    } else {
        let rest = without_key(s.drop_last(), k);
        if same(s.last().0, k) {
            rest
        } else {
            rest.push(s.last())
        }
    }
}

/// No two keys are equal.
pub open spec fn distinct_keys(s: Seq<(Val, Val)>) -> bool {
    forall|i: int, j: int| 0 <= i < j < s.len() ==> !same(#[trigger] s[i].0, #[trigger] s[j].0)
}

/// Once the entries with key `k` are taken out, no key equals `k`.
pub proof fn lemma_without_key(s: Seq<(Val, Val)>, k: Val)
    ensures
        lacks_key(without_key(s, k), k),
    decreases s.len(),
{
    if s.len() > 0 {
        lemma_without_key(s.drop_last(), k);
    }
}

/// Each entry left by `without_key` comes from `s`, in the same order.
pub proof fn lemma_without_key_order(s: Seq<(Val, Val)>, k: Val) -> (idx: Seq<int>)
    ensures
        idx.len() == without_key(s, k).len(),
        forall|i: int|
            0 <= i < idx.len() ==> 0 <= #[trigger] idx[i] < s.len() && without_key(s, k)[i]
                == s[idx[i]],
        forall|i: int, j: int| 0 <= i < j < idx.len() ==> #[trigger] idx[i] < #[trigger] idx[j],
    decreases s.len(),
{
    if s.len() == 0 {
        Seq::empty()
    } else {
        let rest = lemma_without_key_order(s.drop_last(), k);
        if same(s.last().0, k) {
            rest
        } else {
            let idx = rest.push(s.len() - 1);
            assert forall|i: int| 0 <= i < idx.len() implies 0 <= #[trigger] idx[i] < s.len()
                && without_key(s, k)[i] == s[idx[i]] by {
                if i < rest.len() {
                    assert(s.drop_last()[rest[i]] == s[rest[i]]);
                }
            }
            idx
        }
    }
}

/// Taking out the entries with one key keeps the keys pairwise unequal.
pub proof fn lemma_without_key_distinct(s: Seq<(Val, Val)>, k: Val)
    requires
        distinct_keys(s),
    ensures
        distinct_keys(without_key(s, k)),
{
    let w = without_key(s, k);
    let idx = lemma_without_key_order(s, k);
    assert forall|a: int, b: int| 0 <= a < b < w.len() implies !same(#[trigger] w[a].0, #[trigger] w[b].0) by {
        assert(idx[a] < idx[b]);
        assert(w[a] == s[idx[a]]);
        assert(w[b] == s[idx[b]]);
    }
}

/// A value that holds no array or map at its top: a number, string,
/// boolean, pair, null or function.
pub open spec fn flat(v: Val) -> bool {
    !(v is Array) && !(v is Dict)
}

/// Two values equal to the same flat value equal each other.
pub proof fn lemma_same_through_flat(a: Val, b: Val, k: Val)
    requires
        flat(k),
        same(a, k),
        same(b, k),
    ensures
        same(a, b),
{
    match k {
        Val::Pair(_, _) => {
            if all_text(render(k)) {
                if !all_text(render(a)) {
                    assert(render(a) == render(k));
                }
                if !all_text(render(b)) {
                    assert(render(b) == render(k));
                }
            }
        },
        _ => {},
    }
}

/// With no key equal to `k`, nothing is taken out.
pub proof fn lemma_without_absent_key(s: Seq<(Val, Val)>, k: Val)
    requires
        lacks_key(s, k),
    ensures
        without_key(s, k) == s,
    decreases s.len(),
{
    if s.len() > 0 {
        lemma_without_absent_key(s.drop_last(), k);
        assert(s.drop_last().push(s.last()) =~= s);
    }
}

/// When keys are pairwise unequal and one of them equals the flat key `k`,
/// taking out `k` removes exactly one entry.
pub proof fn lemma_without_key_len(s: Seq<(Val, Val)>, k: Val)
    requires
        distinct_keys(s),
        flat(k),
        exists|i: int| 0 <= i < s.len() && same(#[trigger] s[i].0, k),
    ensures
        without_key(s, k).len() == s.len() - 1,
    decreases s.len(),
{
    let n = s.len() - 1;
    let rest = s.drop_last();
    assert(distinct_keys(rest)) by {
        assert forall|a: int, b: int| 0 <= a < b < rest.len() implies !same(#[trigger] rest[a].0, #[trigger] rest[b].0) by {
            assert(rest[a] == s[a] && rest[b] == s[b]);
        }
    }
    if same(s[n].0, k) {
        assert forall|j: int| 0 <= j < rest.len() implies !same(#[trigger] rest[j].0, k) by {
            assert(rest[j] == s[j]);
            if same(s[j].0, k) {
                lemma_same_through_flat(s[j].0, s[n].0, k);
            }
        }
        lemma_without_absent_key(rest, k);
    } else {
        let i = choose|i: int| 0 <= i < s.len() && same(#[trigger] s[i].0, k);
        assert(i < n);
        assert(rest[i] == s[i]);
        lemma_without_key_len(rest, k);
    }
}

impl Dict {
    /// An independent copy with the same entries.
    pub fn copy(&self) -> (r: Dict)
        ensures
            r@ == self@,
    {
        let mut out: Vec<(Any, Any)> = Vec::new();
        let mut i: usize = 0;
        while i < self.0.len()
            invariant
                i <= self.0.len(),
                out.len() == i,
                forall|j: int|
                    0 <= j < i ==> out@[j].0@ == self.0@[j].0@ && out@[j].1@ == self.0@[j].1@,
            decreases self.0.len() - i,
        {
            out.push((self.0[i].0.duplicate(), self.0[i].1.duplicate()));
            i = i + 1;
        }
        proof {
            crate::value::lemma_entry_views_ext(out@, self.0@);
        }
        Dict(out)
    }

    pub fn new() -> (r: Dict)
        ensures
            r@ == Seq::<(Val, Val)>::empty(),
            distinct_keys(r@),
    {
        proof {
            lemma_entry_views(Seq::<(Any, Any)>::empty());
        }
        let r = Dict(Vec::new());
        proof {
            assert(r@ =~= Seq::<(Val, Val)>::empty());
        }
        r
    }

    /// The first position whose key equals `key`.
    fn position(&self, key: &Any) -> (r: Option<usize>)
        ensures
            r is Some ==> first_key(self@, key@, r.unwrap() as int),
            r is None ==> lacks_key(self@, key@),
    {
        proof {
            lemma_entry_views(self.0@);
        }
        let mut i: usize = 0;
        while i < self.0.len()
            invariant
                i <= self.0.len(),
                self@.len() == self.0.len(),
                forall|j: int| 0 <= j < self.0.len() ==> #[trigger] self@[j] == (self.0@[j].0@, self.0@[j].1@),
                forall|j: int| 0 <= j < i ==> !same(#[trigger] self@[j].0, key@),
            decreases self.0.len() - i,
        {
            if self.0[i].0.equals(key) {
                return Some(i);
            }
            i = i + 1;
        }
        None
    }

    /// Inserts `key` with `value`, or overwrites the value of the first
    /// equal key.
    pub fn set(&mut self, key: Any, value: Any)
        ensures
            forall|i: int| first_key(old(self)@, key@, i) ==> final(self)@ == old(self)@.update(
                i,
                (old(self)@[i].0, value@),
            ),
            lacks_key(old(self)@, key@) ==> final(self)@ == old(self)@.push((key@, value@)),
            distinct_keys(old(self)@) ==> distinct_keys(final(self)@),
    {
        proof {
            lemma_entry_views(self.0@);
        }
        let ghost kv = key@;
        let ghost vv = value@;
        match self.position(&key) {
            Some(i) => {
                let ghost kept = self.0@[i as int].0@;
                let k = self.0[i].0.duplicate();
                self.0.set(i, (k, value));
                proof {
                    lemma_entry_views(self.0@);
                    assert(self@ =~= old(self)@.update(i as int, (kept, vv)));
                    assert forall|a: int| first_key(old(self)@, kv, a) implies self@
                        == old(self)@.update(a, (old(self)@[a].0, vv)) by {
                        if a < i {
                            assert(!same(old(self)@[a].0, kv));
                        } else if a > i {
                            assert(!same(old(self)@[i as int].0, kv));
                        }
                    }
                    assert forall|a: int, b: int| 0 <= a < b < self@.len() && distinct_keys(old(self)@)
                        implies !same(#[trigger] self@[a].0, #[trigger] self@[b].0) by {
                        assert(self@[a].0 == old(self)@[a].0);
                        assert(self@[b].0 == old(self)@[b].0);
                    }
                }
            },
            None => {
                self.0.push((key, value));
                proof {
                    lemma_entry_views(self.0@);
                    assert(self@ =~= old(self)@.push((kv, vv)));
                    assert forall|a: int| first_key(old(self)@, kv, a) implies self@
                        == old(self)@.update(a, (old(self)@[a].0, vv)) by {
                        assert(!same(old(self)@[a].0, kv));
                    }
                    assert forall|a: int, b: int| 0 <= a < b < self@.len() && distinct_keys(old(self)@)
                        implies !same(#[trigger] self@[a].0, #[trigger] self@[b].0) by {
                        if b == self@.len() - 1 {
                            assert(!same(old(self)@[a].0, kv));
                        }
                    }
                }
            },
        }
    }

    /// Removes every entry whose key equals `key`; returns the value of the
    /// first such entry, or `None` when there was none.
    pub fn delete(&mut self, key: &Any) -> (r: Option<Any>)
        ensures
            final(self)@ == without_key(old(self)@, key@),
            distinct_keys(old(self)@) ==> distinct_keys(final(self)@),
            distinct_keys(old(self)@) && flat(key@) && !lacks_key(old(self)@, key@) ==> final(self)@.len()
                == old(self)@.len() - 1,
            lacks_key(old(self)@, key@) ==> r is None,
            forall|i: int| first_key(old(self)@, key@, i) ==> r is Some && r.unwrap()@ == old(self)@[i].1,
    {
        proof {
            lemma_entry_views(self.0@);
        }
        let ghost src = self@;
        let mut found: Option<Any> = None;
        let mut kept: Vec<(Any, Any)> = Vec::new();
        let mut i: usize = 0;
        while i < self.0.len()
            invariant
                self.0@ == old(self).0@,
                src == self@,
                src.len() == self.0.len(),
                forall|j: int| 0 <= j < self.0.len() ==> #[trigger] src[j] == (self.0@[j].0@, self.0@[j].1@),
                i <= self.0.len(),
                entry_views(kept@) == without_key(src.subrange(0, i as int), key@),
                found is None ==> lacks_key(src.subrange(0, i as int), key@),
                found is Some ==> exists|a: int| #[trigger] first_key(src, key@, a) && a < i && found.unwrap()@ == src[a].1,
            decreases self.0.len() - i,
        {
            let ghost pre = src.subrange(0, i as int);
            let ghost post = src.subrange(0, i + 1);
            proof {
                assert(post.drop_last() =~= pre);
                assert(post.last() == src[i as int]);
            }
            if self.0[i].0.equals(key) {
                if found.is_none() {
                    found = Some(self.0[i].1.duplicate());
                    proof {
                        assert forall|j: int| 0 <= j < i implies !same(#[trigger] src[j].0, key@) by {
                            assert(pre[j] == src[j]);
                        }
                        assert(first_key(src, key@, i as int));
                    }
                }
            } else {
                let ghost before = kept@;
                let k = self.0[i].0.duplicate();
                let v = self.0[i].1.duplicate();
                kept.push((k, v));
                proof {
                    assert(kept@.subrange(0, kept@.len() - 1) =~= before);
                }
            }
            proof {
                if found is None {
                    assert forall|j: int| 0 <= j < post.len() implies !same(#[trigger] post[j].0, key@) by {
                        if j < i {
                            assert(post[j] == pre[j]);
                        }
                    }
                }
            }
            i = i + 1;
        }
        proof {
            assert(src.subrange(0, src.len() as int) =~= src);
        }
        self.0 = kept;
        proof {
            assert forall|a: int| first_key(src, key@, a) implies found is Some && found.unwrap()@ == src[a].1 by {
                if found is None {
                    assert(src.subrange(0, src.len() as int)[a] == src[a]);
                } else {
                    let b = choose|b: int| #[trigger] first_key(src, key@, b) && b < src.len() && found.unwrap()@ == src[b].1;
                    if a < b {
                        assert(!same(src[a].0, key@));
                    } else if b < a {
                        assert(!same(src[b].0, key@));
                    }
                }
            }
            if distinct_keys(src) {
                lemma_without_key_distinct(src, key@);
                if flat(key@) && !lacks_key(src, key@) {
                    lemma_without_key_len(src, key@);
                }
            }
            if lacks_key(src, key@) && found is Some {
                let b = choose|b: int| #[trigger] first_key(src, key@, b) && b < src.len() && found.unwrap()@ == src[b].1;
                assert(!same(src[b].0, key@));
            }
        }
        found
    }

    /// The value of the first key equal to `key`.
    pub fn get(&self, key: &Any) -> (r: Option<&Any>)
        ensures
            lacks_key(self@, key@) ==> r is None,
            forall|i: int| first_key(self@, key@, i) ==> r is Some && r.unwrap()@ == self@[i].1,
            r is Some ==> exists|i: int| first_key(self@, key@, i) && r.unwrap()@ == self@[i].1,
    {
        proof {
            lemma_entry_views(self.0@);
        }
        match self.position(key) {
            Some(i) => {
                proof {
                    assert forall|a: int| first_key(self@, key@, a) implies a == i by {
                        if a < i {
                            assert(!same(self@[a].0, key@));
                        } else if a > i {
                            assert(!same(self@[i as int].0, key@));
                        }
                    }
                }
                Some(&self.0[i].1)
            },
            None => None,
        }
    }

    /// The value of the first key equal to `key`, for writing.
    pub fn get_mut(&mut self, key: &Any) -> (r: Option<&mut Any>)
        ensures
            lacks_key(old(self)@, key@) ==> r is None,
            forall|i: int| first_key(old(self)@, key@, i) ==> r is Some && (*r.unwrap())@ == old(self)@[i].1,
    {
        proof {
            lemma_entry_views(self.0@);
        }
        match self.position(key) {
            Some(i) => {
                proof {
                    assert forall|a: int| first_key(old(self)@, key@, a) implies a == i by {
                        lemma_first_key_unique(old(self)@, key@, a, i as int);
                    }
                }
                Some(&mut self.0[i].1)
            },
            None => None,
        }
    }

    pub fn length(&self) -> (r: usize)
        ensures
            r == self@.len(),
    {
        proof {
            lemma_entry_views(self.0@);
        }
        self.0.len()
    }

    pub fn is_empty(&self) -> (r: bool)
        ensures
            r == (self@.len() == 0),
    {
        proof {
            lemma_entry_views(self.0@);
        }
        self.0.len() == 0
    }
}

impl Pair {
    pub fn new(first: Any, second: Any) -> (r: Pair)
        ensures
            r.0@ == first@,
            r.1@ == second@,
    {
        Pair(first, second)
    }

    /// An independent copy.
    pub fn copy(&self) -> (r: Pair)
        ensures
            r.0@ == self.0@,
            r.1@ == self.1@,
    {
        Pair(self.0.duplicate(), self.1.duplicate())
    }

    pub fn to_tuple(&self) -> (r: (Any, Any))
        ensures
            r.0@ == self.0@,
            r.1@ == self.1@,
    {
        (self.0.duplicate(), self.1.duplicate())
    }
}

} // verus!
