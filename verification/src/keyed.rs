//! Keys that route elements to substreams, and the substream limit of `group_by`.
use vstd::prelude::*;
use crate::body::{StreamBody, StreamEnd, select};
use crate::error::StreamError;

verus! {

/// A key type whose equality the library can decide.
pub trait GroupKey: Copy {
    /// Whether `self` and `other` are the same key.
    fn same(&self, other: &Self) -> (r: bool)
        ensures r == (*self == *other);
}

impl GroupKey for u8 {
    fn same(&self, other: &Self) -> (r: bool) { *self == *other }
}

impl GroupKey for u16 {
    fn same(&self, other: &Self) -> (r: bool) { *self == *other }
}

impl GroupKey for u32 {
    fn same(&self, other: &Self) -> (r: bool) { *self == *other }
}

impl GroupKey for u64 {
    fn same(&self, other: &Self) -> (r: bool) { *self == *other }
}

impl GroupKey for usize {
    fn same(&self, other: &Self) -> (r: bool) { *self == *other }
}

impl GroupKey for i32 {
    fn same(&self, other: &Self) -> (r: bool) { *self == *other }
}

impl GroupKey for i64 {
    fn same(&self, other: &Self) -> (r: bool) { *self == *other }
}

impl GroupKey for bool {
    fn same(&self, other: &Self) -> (r: bool) { *self == *other }
}

impl GroupKey for char {
    fn same(&self, other: &Self) -> (r: bool) { *self == *other }
}

/// The distinct keys of `ks`, in order of first occurrence.
pub open spec fn distinct_keys<K>(ks: Seq<K>) -> Seq<K>
    decreases ks.len(),
{
    if ks.len() == 0 {
        Seq::empty()
    } else {
        let d = distinct_keys(ks.drop_last());
        if d.contains(ks.last()) { d } else { d.push(ks.last()) }
    }
}

/// `ks` holds, for each element of `xs`, a possible key that `f` gives it.
pub open spec fn keyed_by<T, K, F: FnMut(&T) -> K>(f: F, xs: Seq<T>, ks: Seq<K>) -> bool {
    ks.len() == xs.len() && forall|i: int| 0 <= i < xs.len() ==> call_ensures(f, (&xs[i],), #[trigger] ks[i])
}

/// `k` is the number of leading elements of `xs` admitted before the distinct keys that `f`
/// gives them would exceed `max`.
pub open spec fn admitted<T, K, F: FnMut(&T) -> K>(f: F, xs: Seq<T>, max: nat, k: int) -> bool {
    &&& 0 <= k <= xs.len()
    &&& exists|ks: Seq<K>| #![auto]
        keyed_by(f, xs.take(if k < xs.len() { k + 1 } else { k }), ks)
        && distinct_keys(ks.take(k)).len() <= max
        && (k < xs.len() ==> distinct_keys(ks).len() > max)
}

/// Whether `key` occurs in `seen`.
fn contains_key<K: GroupKey>(seen: &Vec<K>, key: &K) -> (r: bool)
    ensures r == seen@.contains(*key),
{
    let mut i: usize = 0;
    while i < seen.len()
        invariant
            i <= seen.len(),
            forall|j: int| 0 <= j < i ==> seen@[j] != *key,
        decreases seen.len() - i,
    {
        if seen[i].same(key) {
            proof { assert(seen@[i as int] == *key); }
            return true;
        }
        i = i + 1;
    }
    false
}

/// Routes elements by key and passes them on in arrival order, failing the stream with
/// `SubstreamLimitExceeded` at the first element whose key would open more than `max` substreams.
#[verifier::loop_isolation(false)]
pub fn group_by_elements<T, K: GroupKey, F: FnMut(&T) -> K>(
    body: StreamBody<T>,
    max: usize,
    f: &mut F,
) -> (r: StreamBody<T>)
    requires forall|a: &T| call_requires(*old(f), (a,)),
    ensures
        *final(f) == *old(f),
        exists|k: int| #![auto] admitted(*old(f), body.elements@, max as nat, k)
            && r.elements@ == body.elements@.take(k)
            && r.end == (if k < body.elements@.len() {
                StreamEnd::Failed(StreamError::SubstreamLimitExceeded { max_substreams: max })
            } else {
                body.end
            }),
{
    let StreamBody { elements, end, .. } = body;
    let ghost xs = elements@;
    let ghost f0 = *f;
    let ghost mut ks: Seq<K> = Seq::empty();
    let mut seen: Vec<K> = Vec::new();
    let mut out: Vec<T> = Vec::new();
    for x in it: elements.into_iter()
        invariant
            *f == f0,
            it.seq() == xs,
            ks.len() == it.index(),
            out@ == xs.take(it.index() as int),
            keyed_by(f0, xs.take(it.index() as int), ks),
            seen@ == distinct_keys(ks),
            seen@.len() <= max,
    {
        let ghost i = it.index();
        let key = f(&x);
        let ghost ks0 = ks;
        proof {
            ks = ks.push(key);
            assert(ks.drop_last() == ks0);
            assert(xs.take(i + 1).drop_last() == xs.take(i as int));
            assert forall|j: int| 0 <= j < i + 1 implies call_ensures(f0, (&xs.take(i + 1)[j],), #[trigger] ks[j]) by {
                if j < i { assert(xs.take(i + 1)[j] == xs.take(i as int)[j]); }
            }
        }
        if !contains_key(&seen, &key) {
            if seen.len() >= max {
                proof {
                    assert(ks0 == ks.take(i as int));
                    assert(distinct_keys(ks) == seen@.push(key));
                    assert(admitted(f0, xs, max as nat, i as int));
                }
                return StreamBody {
                    elements: out,
                    end: StreamEnd::Failed(StreamError::SubstreamLimitExceeded { max_substreams: max }),
                    ticks: Vec::new(),
                };
            }
            seen.push(key);
        }
        out.push(x);
        proof { assert(out@ == xs.take(i + 1)); }
    }
    proof {
        assert(xs.take(xs.len() as int) == xs);
        assert(ks.take(ks.len() as int) == ks);
        assert(admitted(f0, xs, max as nat, xs.len() as int));
    }
    StreamBody { elements: out, end, ticks: Vec::new() }
}

/// For each position, whether its key occurs there for the first time.
pub open spec fn first_seen<K>(ks: Seq<K>) -> Seq<bool> {
    Seq::new(ks.len(), |i: int| !ks.take(i).contains(ks[i]))
}

/// For each position, whether its element differs from the one before it.
pub open spec fn changed<K>(ks: Seq<K>) -> Seq<bool> {
    Seq::new(ks.len(), |i: int| i == 0 || ks[i] != ks[i - 1])
}

/// Keeps the elements whose key, given by `f`, has not been seen before.
pub fn distinct_by_elements<T, K: GroupKey, F: FnMut(&T) -> K>(v: Vec<T>, f: &mut F) -> (out: Vec<T>)
    requires forall|a: &T| call_requires(*old(f), (a,)),
    ensures
        *final(f) == *old(f),
        exists|ks: Seq<K>| #[trigger] keyed_by(*old(f), v@, ks) && out@ == select(v@, first_seen(ks)),
{
    let ghost xs = v@;
    let ghost f0 = *f;
    let ghost mut ks: Seq<K> = Seq::empty();
    let mut seen: Vec<K> = Vec::new();
    let mut out: Vec<T> = Vec::new();
    for x in it: v.into_iter()
        invariant
            *f == f0,
            forall|a: &T| call_requires(f0, (a,)),
            it.seq() == xs,
            ks.len() == it.index(),
            keyed_by(f0, xs.take(it.index() as int), ks),
            forall|k: K| seen@.contains(k) <==> ks.contains(k),
            out@ == select(xs.take(it.index() as int), first_seen(ks)),
    {
        let ghost i = it.index();
        let key = f(&x);
        let fresh = !contains_key(&seen, &key);
        let ghost ks0 = ks;
        proof {
            ks = ks.push(key);
            assert(ks.drop_last() == ks0);
            assert(ks0 == ks.take(i as int));
            assert(xs.take(i + 1).drop_last() == xs.take(i as int));
            assert(xs.take(i + 1).last() == x);
            assert forall|j: int| 0 <= j < i + 1 implies call_ensures(f0, (&xs.take(i + 1)[j],), #[trigger] ks[j]) by {
                if j < i { assert(xs.take(i + 1)[j] == xs.take(i as int)[j]); }
            }
            assert(first_seen(ks).drop_last() == first_seen(ks0)) by {
                assert forall|j: int| 0 <= j < i implies first_seen(ks)[j] == first_seen(ks0)[j] by {
                    assert(ks.take(j) == ks0.take(j));
                }
            }
            assert(first_seen(ks).last() == fresh);
        }
        let ghost seen0 = seen@;
        if fresh {
            seen.push(key);
            out.push(x);
        }
        proof {
            assert forall|k: K| seen@.contains(k) <==> ks.contains(k) by {
                if ks.contains(k) && k != key {
                    let j = choose|j: int| 0 <= j < ks.len() && ks[j] == k;
                    assert(ks0[j] == k);
                    assert(ks0.contains(k));
                }
                if ks0.contains(k) {
                    let j = choose|j: int| 0 <= j < ks0.len() && ks0[j] == k;
                    assert(ks[j] == k);
                }
                if k == key { assert(ks[i as int] == key); }
                if fresh {
                    assert(seen@ == seen0.push(key));
                    if seen0.contains(k) {
                        let j = choose|j: int| 0 <= j < seen0.len() && seen0[j] == k;
                        assert(seen@[j] == k);
                    }
                    if seen@.contains(k) && k != key {
                        let j = choose|j: int| 0 <= j < seen@.len() && seen@[j] == k;
                        assert(seen0[j] == k);
                    }
                    if k == key { assert(seen@[seen0.len() as int] == key); }
                }
            }
        }
    }
    proof { assert(xs.take(xs.len() as int) == xs); }
    out
}

/// Keeps the elements that have not occurred before.
pub fn distinct_elements<K: GroupKey>(v: Vec<K>) -> (out: Vec<K>)
    ensures out@ == select(v@, first_seen(v@)),
{
    let ghost xs = v@;
    let mut seen: Vec<K> = Vec::new();
    let mut out: Vec<K> = Vec::new();
    for x in it: v.into_iter()
        invariant
            it.seq() == xs,
            forall|k: K| seen@.contains(k) <==> xs.take(it.index() as int).contains(k),
            out@ == select(xs.take(it.index() as int), first_seen(xs.take(it.index() as int))),
    {
        let ghost i = it.index();
        let fresh = !contains_key(&seen, &x);
        let ghost prev = xs.take(i as int);
        let ghost next = xs.take(i + 1);
        proof {
            assert(next.drop_last() == prev);
            assert(next.last() == x);
            assert(first_seen(next).drop_last() == first_seen(prev)) by {
                assert forall|j: int| 0 <= j < i implies first_seen(next)[j] == first_seen(prev)[j] by {
                    assert(next.take(j) == prev.take(j));
                }
            }
            assert(next.take(i as int) == prev);
            assert(first_seen(next).last() == fresh);
        }
        let ghost seen0 = seen@;
        if fresh {
            seen.push(x);
            out.push(x);
        }
        proof {
            assert forall|k: K| seen@.contains(k) <==> next.contains(k) by {
                if next.contains(k) && k != x {
                    let j = choose|j: int| 0 <= j < next.len() && next[j] == k;
                    assert(prev[j] == k);
                    assert(prev.contains(k));
                }
                if prev.contains(k) {
                    let j = choose|j: int| 0 <= j < prev.len() && prev[j] == k;
                    assert(next[j] == k);
                }
                if k == x { assert(next[i as int] == x); }
                if fresh {
                    assert(seen@ == seen0.push(x));
                    if seen0.contains(k) {
                        let j = choose|j: int| 0 <= j < seen0.len() && seen0[j] == k;
                        assert(seen@[j] == k);
                    }
                    if seen@.contains(k) && k != x {
                        let j = choose|j: int| 0 <= j < seen@.len() && seen@[j] == k;
                        assert(seen0[j] == k);
                    }
                    if k == x { assert(seen@[seen0.len() as int] == x); }
                }
            }
        }
    }
    proof { assert(xs.take(xs.len() as int) == xs); }
    out
}

/// Drops each element equal to the one just before it.
pub fn drop_repeated_elements<K: GroupKey>(v: Vec<K>) -> (out: Vec<K>)
    ensures out@ == select(v@, changed(v@)),
{
    let ghost xs = v@;
    let mut last: Option<K> = None;
    let mut out: Vec<K> = Vec::new();
    for x in it: v.into_iter()
        invariant
            it.seq() == xs,
            it.index() == 0 ==> last is None,
            it.index() > 0 ==> last == Some(xs[it.index() - 1]),
            out@ == select(xs.take(it.index() as int), changed(xs.take(it.index() as int))),
    {
        let ghost i = it.index();
        let keep = match last {
            Some(prev) => !prev.same(&x),
            None => true,
        };
        let ghost prev = xs.take(i as int);
        let ghost next = xs.take(i + 1);
        proof {
            assert(next.drop_last() == prev);
            assert(next.last() == x);
            assert(changed(next).drop_last() == changed(prev));
            assert(changed(next).last() == keep);
        }
        if keep {
            out.push(x);
        }
        last = Some(x);
    }
    proof { assert(xs.take(xs.len() as int) == xs); }
    out
}

} // verus!
