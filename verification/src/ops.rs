//! Sequence operators on stream elements, each proved against its specification.
use vstd::prelude::*;
use crate::body::{StreamBody, StreamEnd, spec_take, spec_drop, accepted_prefix, mapped_by, somes, flatten, chunks, spec_groups, clones_of, judged_by};
use crate::error::StreamError;


verus! {

/// Splits `v` at `n`: the first part keeps at most `n` elements, the rest follow.
pub fn split_at<T>(v: Vec<T>, n: usize) -> (r: (Vec<T>, Vec<T>))
    ensures
        n <= v.len() ==> r.0@ == v@.take(n as int) && r.1@ == v@.skip(n as int),
        n > v.len() ==> r.0@ == v@ && r.1@ == Seq::<T>::empty(),
{
    let mut v = v;
    if n >= v.len() {
        (v, Vec::new())
    } else {
        let rest = v.split_off(n);
        (v, rest)
    }
}

/// Keeps the first `n` elements; the stream completes when they are all there.
pub fn take_elements<T>(body: StreamBody<T>, n: usize) -> (r: StreamBody<T>)
    ensures
        (r.elements@, r.end) == spec_take(body.elements@, body.end, n as nat),
{
    let StreamBody { elements, end, .. } = body;
    if n <= elements.len() {
        let (front, _rest) = split_at(elements, n);
        StreamBody { elements: front, end: StreamEnd::Completed, ticks: Vec::new() }
    } else {
        StreamBody { elements, end, ticks: Vec::new() }
    }
}

/// Drops the first `n` elements.
pub fn drop_elements<T>(v: Vec<T>, n: usize) -> (r: Vec<T>)
    ensures r@ == spec_drop(v@, n as nat),
{
    let (_front, rest) = split_at(v, n);
    rest
}

/// Finds the length of the prefix accepted by `f`.
#[verifier::loop_isolation(false)]
pub fn accepted_prefix_len<T, F: FnMut(&T) -> bool>(v: &Vec<T>, f: &mut F) -> (k: usize)
    requires forall|a: &T| call_requires(*old(f), (a,)),
    ensures accepted_prefix(*old(f), v@, k as int), *final(f) == *old(f),
{
    let ghost f0 = *f;
    let mut k: usize = 0;
    while k < v.len()
        invariant
            *f == f0,
            forall|a: &T| call_requires(f0, (a,)),
            k <= v.len(),
            forall|i: int| 0 <= i < k ==> call_ensures(f0, (&v@[i],), true),
        decreases v.len() - k,
    {
        let b = f(&v[k]);
        if !b {
            return k;
        }
        k = k + 1;
    }
    k
}

/// Keeps the longest prefix accepted by `f`; the stream completes at the first rejected element.
pub fn take_while_elements<T, F: FnMut(&T) -> bool>(body: StreamBody<T>, f: &mut F) -> (r: StreamBody<T>)
    requires forall|a: &T| call_requires(*old(f), (a,)),
    ensures
        *final(f) == *old(f),
        exists|k: int| #![auto] accepted_prefix(*old(f), body.elements@, k)
            && r.elements@ == body.elements@.take(k)
            && r.end == (if k < body.elements@.len() { StreamEnd::Completed } else { body.end }),
{
    let k = accepted_prefix_len(&body.elements, f);
    let StreamBody { elements, end, .. } = body;
    let ghost xs = elements@;
    let len = elements.len();
    let (front, _rest) = split_at(elements, k);
    proof { assert(xs.take(k as int) == front@); }
    if k < len {
        StreamBody { elements: front, end: StreamEnd::Completed, ticks: Vec::new() }
    } else {
        proof { assert(xs.take(k as int) == xs); }
        StreamBody { elements: front, end, ticks: Vec::new() }
    }
}

/// Drops the longest prefix accepted by `f`.
pub fn drop_while_elements<T, F: FnMut(&T) -> bool>(v: Vec<T>, f: &mut F) -> (r: Vec<T>)
    requires forall|a: &T| call_requires(*old(f), (a,)),
    ensures
        *final(f) == *old(f),
        exists|k: int| #![auto] accepted_prefix(*old(f), v@, k) && r@ == v@.skip(k),
{
    let k = accepted_prefix_len(&v, f);
    let (_front, rest) = split_at(v, k);
    rest
}

/// `k` is the index of the first element of `xs` that predicate `f` accepts, or `xs.len()`.
pub open spec fn first_accepted<T, F: FnMut(&T) -> bool>(f: F, xs: Seq<T>, k: int) -> bool {
    &&& 0 <= k <= xs.len()
    &&& forall|i: int| 0 <= i < k ==> call_ensures(f, (&xs[i],), false)
    &&& k < xs.len() ==> call_ensures(f, (&xs[k],), true)
}

/// Keeps elements up to and including the first one accepted by `f`; the stream completes there.
#[verifier::loop_isolation(false)]
pub fn take_until_elements<T, F: FnMut(&T) -> bool>(body: StreamBody<T>, f: &mut F) -> (r: StreamBody<T>)
    requires forall|a: &T| call_requires(*old(f), (a,)),
    ensures
        *final(f) == *old(f),
        exists|k: int| #![auto] first_accepted(*old(f), body.elements@, k)
            && (k < body.elements@.len() ==> r.elements@ == body.elements@.take(k + 1) && r.end == StreamEnd::Completed)
            && (k == body.elements@.len() ==> r.elements@ == body.elements@ && r.end == body.end),
{
    let ghost f0 = *f;
    let StreamBody { elements, end, .. } = body;
    let ghost xs = elements@;
    let mut k: usize = 0;
    while k < elements.len()
        invariant
            *f == f0,
            forall|a: &T| call_requires(f0, (a,)),
            elements@ == xs,
            k <= xs.len(),
            forall|i: int| 0 <= i < k ==> call_ensures(f0, (&xs[i],), false),
        decreases xs.len() - k,
    {
        let b = f(&elements[k]);
        if b {
            let (front, _rest) = split_at(elements, k + 1);
            proof { assert(first_accepted(f0, xs, k as int)); }
            return StreamBody { elements: front, end: StreamEnd::Completed, ticks: Vec::new() };
        }
        k = k + 1;
    }
    proof { assert(first_accepted(f0, xs, k as int)); }
    StreamBody { elements, end, ticks: Vec::new() }
}

/// `ys` is the present results of mapping `xs` through `f`.
pub open spec fn option_mapped_by<A, B, F: FnMut(A) -> Option<B>>(f: F, xs: Seq<A>, ys: Seq<B>) -> bool {
    exists|os: Seq<Option<B>>| #![auto] mapped_by(f, xs, os) && ys == somes(os)
}

/// Maps each element to an optional output and keeps the present ones.
pub fn map_option_elements<A, B, F: FnMut(A) -> Option<B>>(v: Vec<A>, f: &mut F) -> (out: Vec<B>)
    requires forall|a: A| call_requires(*old(f), (a,)),
    ensures option_mapped_by(*old(f), v@, out@), *final(f) == *old(f),
{
    let ghost xs = v@;
    let ghost f0 = *f;
    let ghost mut os: Seq<Option<B>> = Seq::empty();
    let mut out: Vec<B> = Vec::new();
    for x in it: v.into_iter()
        invariant
            *f == f0,
            forall|a: A| call_requires(f0, (a,)),
            it.seq() == xs,
            mapped_by(f0, xs.take(it.index() as int), os),
            out@ == somes(os),
    {
        let ghost i = it.index();
        let o = f(x);
        proof {
            let ghost o0 = os;
            os = os.push(o);
            assert(os.drop_last() == o0);
            assert(xs.take(i + 1).drop_last() == xs.take(i as int));
            assert forall|j: int| 0 <= j < i + 1 implies call_ensures(f0, (xs.take(i + 1)[j],), #[trigger] os[j]) by {
                if j < i { assert(xs.take(i + 1)[j] == xs.take(i as int)[j]); }
            }
        }
        match o {
            Some(y) => { out.push(y); },
            None => {},
        }
    }
    proof { assert(xs.take(xs.len() as int) == xs); }
    out
}

/// `ys` is the concatenation of the outputs of `f` on the elements of `xs`.
pub open spec fn concat_mapped_by<A, B, F: FnMut(A) -> Vec<B>>(f: F, xs: Seq<A>, ys: Seq<B>) -> bool {
    exists|vs: Seq<Vec<B>>| #![auto] mapped_by(f, xs, vs) && ys == flatten(vs.map_values(|v: Vec<B>| v@))
}

/// Maps each element to a vector of outputs and concatenates them.
pub fn map_concat_elements<A, B, F: FnMut(A) -> Vec<B>>(v: Vec<A>, f: &mut F) -> (out: Vec<B>)
    requires forall|a: A| call_requires(*old(f), (a,)),
    ensures concat_mapped_by(*old(f), v@, out@), *final(f) == *old(f),
{
    let ghost xs = v@;
    let ghost f0 = *f;
    let ghost mut vs: Seq<Vec<B>> = Seq::empty();
    let mut out: Vec<B> = Vec::new();
    for x in it: v.into_iter()
        invariant
            *f == f0,
            forall|a: A| call_requires(f0, (a,)),
            it.seq() == xs,
            mapped_by(f0, xs.take(it.index() as int), vs),
            out@ == flatten(vs.map_values(|w: Vec<B>| w@)),
    {
        let ghost i = it.index();
        let mut ys = f(x);
        proof {
            let ghost v0 = vs;
            vs = vs.push(ys);
            assert(vs.drop_last() == v0);
            assert(vs.map_values(|w: Vec<B>| w@).drop_last() == v0.map_values(|w: Vec<B>| w@));
            assert(xs.take(i + 1).drop_last() == xs.take(i as int));
            assert forall|j: int| 0 <= j < i + 1 implies call_ensures(f0, (xs.take(i + 1)[j],), #[trigger] vs[j]) by {
                if j < i { assert(xs.take(i + 1)[j] == xs.take(i as int)[j]); }
            }
        }
        out.append(&mut ys);
    }
    proof { assert(xs.take(xs.len() as int) == xs); }
    out
}

/// Groups elements into chunks of `n`; a short last chunk is kept only when the stream completes.
#[verifier::loop_isolation(false)]
pub fn group_elements<T>(body: StreamBody<T>, n: usize) -> (r: StreamBody<Vec<T>>)
    requires n > 0,
    ensures
        r.elements@.map_values(|c: Vec<T>| c@) == spec_groups(body.elements@, n as nat, body.end),
        r.end == body.end,
{
    let StreamBody { elements, end, .. } = body;
    let ghost xs = elements@;
    let mut rest = elements;
    let mut out: Vec<Vec<T>> = Vec::new();
    while rest.len() > 0
        invariant
            n > 0,
            out@.map_values(|c: Vec<T>| c@) + chunks(rest@, n as nat) == chunks(xs, n as nat),
            forall|i: int| 0 <= i < out.len() ==> #[trigger] out@[i]@.len() == n,
        decreases rest.len(),
    {
        let ghost r0 = rest@;
        let ghost o0 = out@.map_values(|c: Vec<T>| c@);
        if rest.len() <= n {
            let last = rest;
            rest = Vec::new();
            proof {
                assert(chunks(r0, n as nat) == seq![r0]);
                assert(chunks(rest@, n as nat) == Seq::<Seq<T>>::empty());
            }
            let ghost full = last.len() == n;
            if matches!(end, StreamEnd::Completed) || last.len() == n {
                out.push(last);
                proof {
                    assert(out@.map_values(|c: Vec<T>| c@) == o0.push(r0));
                    assert(o0 + seq![r0] == o0.push(r0));
                    assert(chunks(xs, n as nat) == o0.push(r0));
                }
                return StreamBody { elements: out, end, ticks: Vec::new() };
            } else {
                proof {
                    assert(chunks(xs, n as nat) == o0.push(r0));
                    assert(chunks(xs, n as nat).last() == r0);
                    assert(chunks(xs, n as nat).drop_last() == o0);
                }
                return StreamBody { elements: out, end, ticks: Vec::new() };
            }
        }
        let (front, tail) = split_at(rest, n);
        proof {
            assert(chunks(r0, n as nat) == seq![r0.take(n as int)] + chunks(r0.skip(n as int), n as nat));
        }
        out.push(front);
        rest = tail;
        proof {
            assert(out@.map_values(|c: Vec<T>| c@) == o0.push(r0.take(n as int)));
            assert(o0.push(r0.take(n as int)) + chunks(rest@, n as nat) == o0 + (seq![r0.take(n as int)] + chunks(rest@, n as nat)));
        }
    }
    proof {
        assert(chunks(rest@, n as nat) == Seq::<Seq<T>>::empty());
        assert(out@.map_values(|c: Vec<T>| c@) + Seq::<Seq<T>>::empty() == out@.map_values(|c: Vec<T>| c@));
        let cs = chunks(xs, n as nat);
        if cs.len() > 0 {
            assert(cs.last() == cs[cs.len() - 1]);
            assert(out@[cs.len() - 1]@.len() == n);
        }
    }
    StreamBody { elements: out, end, ticks: Vec::new() }
}


/// `accs` is the accumulator trace of folding `xs` with `f` from `init`.
pub open spec fn scan_trace<A, T, F: FnMut(A, T) -> A>(f: F, init: A, xs: Seq<T>, accs: Seq<A>) -> bool {
    &&& accs.len() == xs.len() + 1
    &&& accs[0] == init
    &&& forall|i: int| 0 <= i < xs.len() ==> call_ensures(f, (#[trigger] accs[i], xs[i]), accs[i + 1])
}

/// `ys` holds the initial accumulator and every running accumulation of `xs` under `f`.
pub open spec fn scanned_by<A: Clone, T, F: FnMut(A, T) -> A>(f: F, init: A, xs: Seq<T>, ys: Seq<A>) -> bool {
    exists|accs: Seq<A>| #![auto] scan_trace(f, init, xs, accs) && clones_of(accs, ys)
}

/// `ys` holds every running accumulation of `xs` under `f`, without the initial accumulator.
pub open spec fn folded_by<A: Clone, T, F: FnMut(A, T) -> A>(f: F, init: A, xs: Seq<T>, ys: Seq<A>) -> bool {
    exists|accs: Seq<A>| #![auto] scan_trace(f, init, xs, accs) && clones_of(accs.drop_first(), ys)
}

/// Emits the initial accumulator followed by each running accumulation.
pub fn scan_elements<A: Clone, T, F: FnMut(A, T) -> A>(v: Vec<T>, init: A, f: &mut F) -> (out: Vec<A>)
    requires forall|a: A, t: T| call_requires(*old(f), (a, t)),
    ensures scanned_by(*old(f), init, v@, out@), *final(f) == *old(f),
{
    let ghost xs = v@;
    let ghost f0 = *f;
    let ghost mut accs: Seq<A> = seq![init];
    let mut current = init;
    let mut out: Vec<A> = Vec::new();
    for x in it: v.into_iter()
        invariant
            *f == f0,
            forall|a: A, t: T| call_requires(f0, (a, t)),
            it.seq() == xs,
            accs.len() == it.index() + 1,
            accs[0] == init,
            accs.last() == current,
            forall|i: int| 0 <= i < it.index() ==> call_ensures(f0, (#[trigger] accs[i], xs[i]), accs[i + 1]),
            out.len() == it.index(),
            forall|i: int| 0 <= i < out.len() ==> cloned(accs[i], #[trigger] out@[i]),
    {
        let ghost i = it.index();
        let copy = current.clone();
        proof { assert(cloned(current, copy)); }
        out.push(copy);
        let next = f(current, x);
        proof {
            accs = accs.push(next);
        }
        current = next;
    }
    out.push(current);
    proof {
        assert(scan_trace(f0, init, xs, accs));
        assert(clones_of(accs, out@));
    }
    out
}

/// Emits each running accumulation, without the initial accumulator.
pub fn fold_elements<A: Clone, T, F: FnMut(A, T) -> A>(v: Vec<T>, init: A, f: &mut F) -> (out: Vec<A>)
    requires forall|a: A, t: T| call_requires(*old(f), (a, t)),
    ensures folded_by(*old(f), init, v@, out@), *final(f) == *old(f),
{
    let ghost xs = v@;
    let ghost f0 = *f;
    let ghost mut accs: Seq<A> = seq![init];
    let mut current = init;
    let mut out: Vec<A> = Vec::new();
    for x in it: v.into_iter()
        invariant
            *f == f0,
            forall|a: A, t: T| call_requires(f0, (a, t)),
            it.seq() == xs,
            accs.len() == it.index() + 1,
            accs[0] == init,
            accs.last() == current,
            forall|i: int| 0 <= i < it.index() ==> call_ensures(f0, (#[trigger] accs[i], xs[i]), accs[i + 1]),
            out.len() == it.index(),
            forall|i: int| 0 <= i < out.len() ==> cloned(accs[i + 1], #[trigger] out@[i]),
    {
        let next = f(current, x);
        proof { accs = accs.push(next); }
        let copy = next.clone();
        out.push(copy);
        current = next;
    }
    proof {
        assert(scan_trace(f0, init, xs, accs));
        assert(clones_of(accs.drop_first(), out@));
    }
    out
}

/// `ys` holds each running reduction of `xs` under `f`, seeded with the first element.
pub open spec fn reduced_by<T: Clone, F: FnMut(T, T) -> T>(f: F, xs: Seq<T>, ys: Seq<T>) -> bool {
    if xs.len() == 0 {
        ys.len() == 0
    } else {
        exists|accs: Seq<T>| #![auto] scan_trace(f, xs[0], xs.drop_first(), accs) && clones_of(accs, ys)
    }
}

/// Emits the running reduction of the elements, seeded with the first one.
pub fn reduce_elements<T: Clone, F: FnMut(T, T) -> T>(v: Vec<T>, f: &mut F) -> (out: Vec<T>)
    requires forall|a: T, b: T| call_requires(*old(f), (a, b)),
    ensures reduced_by(*old(f), v@, out@), *final(f) == *old(f),
{
    let mut v = v;
    if v.len() == 0 {
        return Vec::new();
    }
    let ghost xs = v@;
    let first = v.remove(0);
    let ghost rest = v@;
    proof { assert(rest == xs.drop_first()); }
    scan_elements(v, first, f)
}

/// `ys` interleaves `inject` between the elements of `xs`, framed by `start` and, when `closed`, by `end`.
pub open spec fn interspersed<T: Clone>(xs: Seq<T>, start: T, inject: T, end: T, closed: bool, ys: Seq<T>) -> bool {
    if xs.len() == 0 {
        if closed { ys == seq![start, end] } else { ys.len() == 0 }
    } else {
        &&& ys.len() == 2 * xs.len() + (if closed { 1int } else { 0int })
        &&& ys[0] == start
        &&& forall|i: int| 0 <= i < xs.len() ==> ys[2 * i + 1] == #[trigger] xs[i]
        &&& forall|i: int| 0 <= i < xs.len() - 1 ==> cloned(inject, #[trigger] ys[2 * i + 2])
        &&& closed ==> ys[ys.len() - 1] == end
    }
}

/// Injects `start`, separators and (when the stream completed) `end` around the elements.
pub fn intersperse_elements<T: Clone>(v: Vec<T>, start: T, inject: T, end: T, closed: bool) -> (out: Vec<T>)
    ensures interspersed(v@, start, inject, end, closed, out@),
{
    let ghost xs = v@;
    let n = v.len();
    let mut out: Vec<T> = Vec::new();
    if n == 0 {
        if closed {
            out.push(start);
            out.push(end);
            proof { assert(out@ =~= seq![start, end]); }
        }
        return out;
    }
    out.push(start);
    for x in it: v.into_iter()
        invariant
            it.seq() == xs,
            n == xs.len(),
            n > 0,
            out.len() == 2 * it.index() + (if it.index() == 0 { 1int } else { 0int }),
            out@[0] == start,
            forall|i: int| 0 <= i < it.index() ==> out@[2 * i + 1] == #[trigger] xs[i],
            forall|i: int| 0 <= i < it.index() - 1 ==> cloned(inject, #[trigger] out@[2 * i + 2]),
    {
        let ghost i = it.index();
        if it_index_positive(&out) {
            let sep = inject.clone();
            out.push(sep);
        }
        out.push(x);
        proof {
            assert(out.len() == 2 * (i + 1));
            assert forall|j: int| 0 <= j < i + 1 implies out@[2 * j + 1] == #[trigger] xs[j] by {
                if j < i { assert(out@[2 * j + 1] == out@[2 * j + 1]); }
            }
        }
    }
    if closed {
        out.push(end);
    }
    out
}

fn it_index_positive<T>(out: &Vec<T>) -> (r: bool)
    ensures r == (out.len() > 1),
{
    out.len() > 1
}

/// Pairs each element with its position.
pub fn zip_with_index_elements<T>(v: Vec<T>) -> (out: Vec<(T, u64)>)
    ensures
        out.len() == v.len(),
        forall|i: int| 0 <= i < v.len() ==> #[trigger] out@[i] == (v@[i], i as u64),
{
    let ghost xs = v@;
    let n = v.len();
    let mut out: Vec<(T, u64)> = Vec::new();
    let mut index: u64 = 0;
    for x in it: v.into_iter()
        invariant
            it.seq() == xs,
            xs.len() == n,
            out.len() == it.index(),
            index == it.index(),
            forall|i: int| 0 <= i < out.len() ==> #[trigger] out@[i] == (xs[i], i as u64),
    {
        out.push((x, index));
        if index < u64::MAX {
            index = index + 1;
        }
    }
    out
}

/// `groups` repeats each element of `xs` as `n` clones.
pub open spec fn repeated_each<T: Clone>(xs: Seq<T>, n: nat, ys: Seq<T>) -> bool {
    exists|groups: Seq<Seq<T>>| #![auto]
        groups.len() == xs.len()
        && (forall|i: int| 0 <= i < xs.len() ==> (#[trigger] groups[i]).len() == n
            && forall|j: int| 0 <= j < n ==> cloned(xs[i], #[trigger] groups[i][j]))
        && ys == flatten(groups)
}

/// Emits `n` copies of every element.
pub fn repeat_each_elements<T: Clone>(v: Vec<T>, n: usize) -> (out: Vec<T>)
    requires n > 0,
    ensures repeated_each(v@, n as nat, out@),
{
    let ghost xs = v@;
    let ghost mut groups: Seq<Seq<T>> = Seq::empty();
    let mut out: Vec<T> = Vec::new();
    for x in it: v.into_iter()
        invariant
            n > 0,
            it.seq() == xs,
            groups.len() == it.index(),
            forall|i: int| 0 <= i < groups.len() ==> (#[trigger] groups[i]).len() == n
                && forall|j: int| 0 <= j < n ==> cloned(xs[i], #[trigger] groups[i][j]),
            out@ == flatten(groups),
    {
        let ghost i = it.index();
        let mut group: Vec<T> = Vec::new();
        let mut k: usize = 1;
        while k < n
            invariant
                1 <= k <= n,
                group.len() == k - 1,
                forall|j: int| 0 <= j < group.len() ==> cloned(x, #[trigger] group@[j]),
            decreases n - k,
        {
            let c = x.clone();
            group.push(c);
            k = k + 1;
        }
        group.push(x);
        proof {
            let g0 = groups;
            groups = groups.push(group@);
            assert(groups.drop_last() == g0);
            assert forall|j: int| 0 <= j < n implies cloned(xs[i as int], #[trigger] groups[i as int][j]) by {}
        }
        let mut g = group;
        out.append(&mut g);
    }
    out
}

/// Emits both components of every pair, in order.
pub fn unzip_elements<T>(v: Vec<(T, T)>) -> (out: Vec<T>)
    ensures
        out.len() == 2 * v.len(),
        forall|i: int| 0 <= i < v.len() ==> out@[2 * i] == (#[trigger] v@[i]).0 && out@[2 * i + 1] == v@[i].1,
{
    let ghost xs = v@;
    let mut out: Vec<T> = Vec::new();
    for p in it: v.into_iter()
        invariant
            it.seq() == xs,
            out.len() == 2 * it.index(),
            forall|i: int| 0 <= i < it.index() ==> out@[2 * i] == (#[trigger] xs[i]).0 && out@[2 * i + 1] == xs[i].1,
    {
        let (a, b) = p;
        out.push(a);
        out.push(b);
    }
    out
}

/// Concatenates the inner vectors.
pub fn flatten_elements<T>(v: Vec<Vec<T>>) -> (out: Vec<T>)
    ensures out@ == flatten(v@.map_values(|w: Vec<T>| w@)),
{
    let ghost xs = v@;
    let mut out: Vec<T> = Vec::new();
    for w in it: v.into_iter()
        invariant
            it.seq() == xs,
            out@ == flatten(xs.take(it.index() as int).map_values(|w: Vec<T>| w@)),
    {
        let ghost i = it.index();
        let mut w = w;
        proof {
            assert(xs.take(i + 1).map_values(|w: Vec<T>| w@).drop_last() == xs.take(i as int).map_values(|w: Vec<T>| w@));
        }
        out.append(&mut w);
    }
    proof { assert(xs.take(xs.len() as int) == xs); }
    out
}

/// Wraps each element in a one-element vector.
pub fn wrap_elements<T>(v: Vec<T>) -> (out: Vec<Vec<T>>)
    ensures
        out.len() == v.len(),
        forall|i: int| 0 <= i < v.len() ==> (#[trigger] out@[i])@ == seq![v@[i]],
{
    let ghost xs = v@;
    let mut out: Vec<Vec<T>> = Vec::new();
    for x in it: v.into_iter()
        invariant
            it.seq() == xs,
            out.len() == it.index(),
            forall|i: int| 0 <= i < out.len() ==> (#[trigger] out@[i])@ == seq![xs[i]],
    {
        let mut w: Vec<T> = Vec::new();
        w.push(x);
        out.push(w);
    }
    out
}

/// Keeps the last `n` elements.
pub fn take_last_elements<T>(v: Vec<T>, n: usize) -> (out: Vec<T>)
    ensures
        n >= v.len() ==> out@ == v@,
        n < v.len() ==> out@ == v@.skip(v.len() - n),
{
    let len = v.len();
    if n >= len {
        v
    } else {
        let (_front, rest) = split_at(v, len - n);
        rest
    }
}


/// The closed segments and the open segment after splitting `xs` before each flagged element.
pub open spec fn split_before_state<T>(xs: Seq<T>, flags: Seq<bool>) -> (Seq<Seq<T>>, Seq<T>)
    decreases xs.len(),
{
    if xs.len() == 0 || flags.len() != xs.len() {
        (Seq::empty(), Seq::empty())
    } else {
        let (segs, cur) = split_before_state(xs.drop_last(), flags.drop_last());
        if flags.last() && cur.len() > 0 {
            (segs.push(cur), seq![xs.last()])
        } else {
            (segs, cur.push(xs.last()))
        }
    }
}

/// The closed segments and the open segment after splitting `xs` after each flagged element.
pub open spec fn split_after_state<T>(xs: Seq<T>, flags: Seq<bool>) -> (Seq<Seq<T>>, Seq<T>)
    decreases xs.len(),
{
    if xs.len() == 0 || flags.len() != xs.len() {
        (Seq::empty(), Seq::empty())
    } else {
        let (segs, cur) = split_after_state(xs.drop_last(), flags.drop_last());
        let cur2 = cur.push(xs.last());
        if flags.last() {
            (segs.push(cur2), Seq::empty())
        } else {
            (segs, cur2)
        }
    }
}

/// The segments a split stage emits: the open segment is emitted when the stream completes.
pub open spec fn emitted_segments<T>(state: (Seq<Seq<T>>, Seq<T>), closed: bool) -> Seq<Seq<T>> {
    if closed && state.1.len() > 0 { state.0.push(state.1) } else { state.0 }
}

/// Splits the elements into segments, before (`after` unset) or after (`after` set) each element that `f` accepts.
pub fn split_elements<T, F: FnMut(&T) -> bool>(v: Vec<T>, f: &mut F, after: bool, closed: bool) -> (out: Vec<Vec<T>>)
    requires forall|a: &T| call_requires(*old(f), (a,)),
    ensures
        *final(f) == *old(f),
        exists|flags: Seq<bool>| #![auto] judged_by(*old(f), v@, flags)
            && out@.map_values(|w: Vec<T>| w@) == emitted_segments(
                if after { split_after_state(v@, flags) } else { split_before_state(v@, flags) }, closed),
{
    let ghost xs = v@;
    let ghost f0 = *f;
    let ghost mut flags: Seq<bool> = Seq::empty();
    let mut segs: Vec<Vec<T>> = Vec::new();
    let mut cur: Vec<T> = Vec::new();
    for x in it: v.into_iter()
        invariant
            *f == f0,
            forall|a: &T| call_requires(f0, (a,)),
            it.seq() == xs,
            judged_by(f0, xs.take(it.index() as int), flags),
            (segs@.map_values(|w: Vec<T>| w@), cur@) == (if after { split_after_state(xs.take(it.index() as int), flags) } else { split_before_state(xs.take(it.index() as int), flags) }),
    {
        let ghost i = it.index();
        let ghost s0 = segs@.map_values(|w: Vec<T>| w@);
        let ghost c0 = cur@;
        let b = f(&x);
        proof {
            let fl0 = flags;
            flags = flags.push(b);
            assert(flags.drop_last() == fl0);
            assert(xs.take(i + 1).drop_last() == xs.take(i as int));
            assert(xs.take(i + 1).last() == x);
            assert forall|j: int| 0 <= j < i + 1 implies call_ensures(f0, (&xs.take(i + 1)[j],), #[trigger] flags[j]) by {
                if j < i { assert(xs.take(i + 1)[j] == xs.take(i as int)[j]); }
            }
        }
        if after {
            cur.push(x);
            if b {
                let done = cur;
                cur = Vec::new();
                segs.push(done);
                proof { assert(segs@.map_values(|w: Vec<T>| w@) == s0.push(c0.push(x))); }
            } else {
                proof { assert(segs@.map_values(|w: Vec<T>| w@) == s0); }
            }
        } else {
            if b && cur.len() > 0 {
                let done = cur;
                cur = Vec::new();
                segs.push(done);
                cur.push(x);
                proof {
                    assert(segs@.map_values(|w: Vec<T>| w@) == s0.push(c0));
                    assert(cur@ == seq![x]);
                }
            } else {
                cur.push(x);
                proof { assert(segs@.map_values(|w: Vec<T>| w@) == s0); }
            }
        }
    }
    proof { assert(xs.take(xs.len() as int) == xs); }
    let ghost s1 = segs@.map_values(|w: Vec<T>| w@);
    let ghost c1 = cur@;
    if closed && cur.len() > 0 {
        segs.push(cur);
        proof { assert(segs@.map_values(|w: Vec<T>| w@) == s1.push(c1)); }
    }
    segs
}

/// `ys` replaces each error payload of `xs` with a clone of `fallback`.
pub open spec fn recovered_with<T: Clone, E>(xs: Seq<Result<T, E>>, fallback: T, ys: Seq<T>) -> bool {
    ys.len() == xs.len() && forall|i: int| 0 <= i < xs.len() ==> match #[trigger] xs[i] {
        Ok(v) => ys[i] == v,
        Err(_) => cloned(fallback, ys[i]),
    }
}

/// The number of error payloads in `xs`.
pub open spec fn error_count<T, E>(xs: Seq<Result<T, E>>) -> nat
    decreases xs.len(),
{
    if xs.len() == 0 {
        0
    } else {
        error_count(xs.drop_last()) + (if xs.last() is Err { 1nat } else { 0nat })
    }
}

/// Replaces every error payload with a clone of `fallback`.
pub fn recover_elements<T: Clone, E>(v: Vec<Result<T, E>>, fallback: T) -> (out: Vec<T>)
    ensures recovered_with(v@, fallback, out@),
{
    let ghost xs = v@;
    let mut out: Vec<T> = Vec::new();
    for r in it: v.into_iter()
        invariant
            it.seq() == xs,
            recovered_with(xs.take(it.index() as int), fallback, out@),
    {
        let ghost i = it.index();
        match r {
            Ok(value) => out.push(value),
            Err(_) => {
                let c = fallback.clone();
                out.push(c);
            },
        }
        proof {
            assert forall|j: int| 0 <= j < i + 1 implies match #[trigger] xs.take(i + 1)[j] {
                Ok(v) => out@[j] == v,
                Err(_) => cloned(fallback, out@[j]),
            } by {
                if j < i { assert(xs.take(i + 1)[j] == xs.take(i as int)[j]); }
            }
        }
    }
    proof { assert(xs.take(xs.len() as int) == xs); }
    out
}

/// Replaces error payloads with `fallback` while the retry budget lasts; the next error fails the stream.
#[verifier::loop_isolation(false)]
pub fn recover_with_retries_elements<T: Clone>(body: StreamBody<Result<T, StreamError>>, max_retries: usize, fallback: T) -> (r: StreamBody<T>)
    ensures
        r.elements.len() <= body.elements.len(),
        recovered_with(body.elements@.take(r.elements.len() as int), fallback, r.elements@),
        error_count(body.elements@.take(r.elements.len() as int)) <= max_retries,
        r.elements.len() < body.elements.len() ==> body.elements@[r.elements.len() as int] is Err
            && error_count(body.elements@.take(r.elements.len() as int)) == max_retries
            && r.end == StreamEnd::Failed(StreamError::Failed),
        r.elements.len() == body.elements.len() ==> r.end == body.end,
{
    let StreamBody { elements, end, .. } = body;
    let ghost xs = elements@;
    let mut left = max_retries;
    let mut out: Vec<T> = Vec::new();
    for r in it: elements.into_iter()
        invariant
            it.seq() == xs,
            out.len() == it.index(),
            recovered_with(xs.take(it.index() as int), fallback, out@),
            error_count(xs.take(it.index() as int)) + left == max_retries,
    {
        let ghost i = it.index();
        proof { assert(xs.take(i + 1).drop_last() == xs.take(i as int)); }
        match r {
            Ok(value) => out.push(value),
            Err(_) => {
                if left == 0 {
                    return StreamBody { elements: out, end: StreamEnd::Failed(StreamError::Failed), ticks: Vec::new() };
                }
                left = left - 1;
                let c = fallback.clone();
                out.push(c);
            },
        }
        proof {
            assert forall|j: int| 0 <= j < i + 1 implies match #[trigger] xs.take(i + 1)[j] {
                Ok(v) => out@[j] == v,
                Err(_) => cloned(fallback, out@[j]),
            } by {
                if j < i { assert(xs.take(i + 1)[j] == xs.take(i as int)[j]); }
            }
        }
    }
    proof { assert(xs.take(xs.len() as int) == xs); }
    StreamBody { elements: out, end, ticks: Vec::new() }
}

/// The successful payloads before the first error payload.
pub fn ok_prefix_elements<T, E>(v: Vec<Result<T, E>>) -> (out: Vec<T>)
    ensures
        out.len() <= v.len(),
        forall|i: int| 0 <= i < out.len() ==> v@[i] == Ok::<T, E>(#[trigger] out@[i]),
        out.len() < v.len() ==> v@[out.len() as int] is Err,
{
    let ghost xs = v@;
    let mut out: Vec<T> = Vec::new();
    for r in it: v.into_iter()
        invariant
            it.seq() == xs,
            out.len() == it.index(),
            forall|i: int| 0 <= i < out.len() ==> xs[i] == Ok::<T, E>(#[trigger] out@[i]),
    {
        match r {
            Ok(value) => out.push(value),
            Err(_) => { return out; },
        }
    }
    out
}


/// The windows of `n` consecutive elements of `xs`, in order; none when `xs` is shorter than `n`.
pub open spec fn windows<T>(xs: Seq<T>, n: nat) -> Seq<Seq<T>> {
    if n == 0 || xs.len() < n {
        Seq::empty()
    } else {
        Seq::new((xs.len() - n + 1) as nat, |i: int| xs.subrange(i, i + n))
    }
}

/// `ys` holds clones of the windows of `n` consecutive elements of `xs`.
pub open spec fn windowed<T: Clone>(xs: Seq<T>, n: nat, ys: Seq<Seq<T>>) -> bool {
    let ws = windows(xs, n);
    &&& ys.len() == ws.len()
    &&& forall|i: int| 0 <= i < ys.len() ==> clones_of(#[trigger] ws[i], ys[i])
}

/// Emits every window of `n` consecutive elements, each as a vector of clones.
#[verifier::loop_isolation(false)]
pub fn sliding_elements<T: Clone>(v: &Vec<T>, n: usize) -> (out: Vec<Vec<T>>)
    requires n > 0,
    ensures windowed(v@, n as nat, out@.map_values(|w: Vec<T>| w@)),
{
    let ghost xs = v@;
    let ghost ws = windows(xs, n as nat);
    let mut out: Vec<Vec<T>> = Vec::new();
    if v.len() < n {
        proof { assert(out@.map_values(|w: Vec<T>| w@) =~= Seq::<Seq<T>>::empty()); }
        return out;
    }
    let count = v.len() - n + 1;
    let mut i: usize = 0;
    while i < count
        invariant
            count == xs.len() - n + 1,
            ws.len() == count,
            i <= count,
            out.len() == i,
            forall|k: int| 0 <= k < i ==> clones_of(#[trigger] ws[k], out@[k]@),
        decreases count - i,
    {
        let mut w: Vec<T> = Vec::new();
        let mut j: usize = 0;
        while j < n
            invariant
                i < count,
                j <= n,
                w.len() == j,
                forall|k: int| 0 <= k < j ==> cloned(xs[i + k], #[trigger] w@[k]),
            decreases n - j,
        {
            let c = v[i + j].clone();
            w.push(c);
            j = j + 1;
        }
        proof {
            assert(ws[i as int] == xs.subrange(i as int, i + n));
            assert forall|k: int| 0 <= k < w.len() implies cloned(ws[i as int][k], #[trigger] w@[k]) by {
                assert(ws[i as int][k] == xs[i + k]);
            }
        }
        out.push(w);
        i = i + 1;
    }
    proof {
        let ys = out@.map_values(|w: Vec<T>| w@);
        assert forall|k: int| 0 <= k < ys.len() implies clones_of(#[trigger] ws[k], ys[k]) by {
            assert(ys[k] == out@[k]@);
        }
    }
    out
}

/// The successful payloads of `xs`, in order.
pub open spec fn oks<T, E>(xs: Seq<Result<T, E>>) -> Seq<T>
    decreases xs.len(),
{
    if xs.len() == 0 {
        Seq::empty()
    } else {
        let rest = oks(xs.drop_last());
        match xs.last() {
            Ok(v) => rest.push(v),
            Err(_) => rest,
        }
    }
}

/// Keeps the successful payloads and drops the error payloads.
pub fn ok_values_elements<T, E>(v: Vec<Result<T, E>>) -> (out: Vec<T>)
    ensures out@ == oks(v@),
{
    let ghost xs = v@;
    let mut out: Vec<T> = Vec::new();
    for r in it: v.into_iter()
        invariant
            it.seq() == xs,
            out@ == oks(xs.take(it.index() as int)),
    {
        let ghost i = it.index();
        proof { assert(xs.take(i + 1).drop_last() == xs.take(i as int)); }
        match r {
            Ok(value) => out.push(value),
            Err(_) => {},
        }
    }
    proof { assert(xs.take(xs.len() as int) == xs); }
    out
}

/// `ys` is `xs` with every error payload replaced by a possible output of `f` on it.
pub open spec fn errors_mapped_by<T, F: FnMut(StreamError) -> StreamError>(
    f: F,
    xs: Seq<Result<T, StreamError>>,
    ys: Seq<Result<T, StreamError>>,
) -> bool {
    ys.len() == xs.len() && forall|i: int| 0 <= i < xs.len() ==> match #[trigger] xs[i] {
        Ok(v) => ys[i] == Ok::<T, StreamError>(v),
        Err(e) => ys[i] matches Err(e2) && call_ensures(f, (e,), e2),
    }
}

/// Maps the error payloads through `f` and keeps the successful payloads.
pub fn map_error_elements<T, F: FnMut(StreamError) -> StreamError>(
    v: Vec<Result<T, StreamError>>,
    f: &mut F,
) -> (out: Vec<Result<T, StreamError>>)
    requires forall|e: StreamError| call_requires(*old(f), (e,)),
    ensures errors_mapped_by(*old(f), v@, out@), *final(f) == *old(f),
{
    let ghost xs = v@;
    let ghost f0 = *f;
    let mut out: Vec<Result<T, StreamError>> = Vec::new();
    for r in it: v.into_iter()
        invariant
            *f == f0,
            forall|e: StreamError| call_requires(f0, (e,)),
            it.seq() == xs,
            out.len() == it.index(),
            forall|i: int| 0 <= i < out.len() ==> match #[trigger] xs[i] {
                Ok(v) => out@[i] == Ok::<T, StreamError>(v),
                Err(e) => out@[i] matches Err(e2) && call_ensures(f0, (e,), e2),
            },
    {
        match r {
            Ok(value) => out.push(Ok(value)),
            Err(e) => {
                let e2 = f(e);
                out.push(Err(e2));
            },
        }
    }
    out
}

/// `ys` holds, for each element of `xs`, the two components of a possible output of `f` on it.
pub open spec fn pairs_spread_by<A, B, F: FnMut(A) -> (B, B)>(f: F, xs: Seq<A>, ys: Seq<B>) -> bool {
    &&& ys.len() == 2 * xs.len()
    &&& forall|i: int| 0 <= i < xs.len() ==> call_ensures(f, (#[trigger] xs[i],), (ys[2 * i], ys[2 * i + 1]))
}

/// Maps each element to a pair and emits both components.
pub fn unzip_with_elements<A, B, F: FnMut(A) -> (B, B)>(v: Vec<A>, f: &mut F) -> (out: Vec<B>)
    requires forall|a: A| call_requires(*old(f), (a,)),
    ensures pairs_spread_by(*old(f), v@, out@), *final(f) == *old(f),
{
    let ghost xs = v@;
    let ghost f0 = *f;
    let mut out: Vec<B> = Vec::new();
    for x in it: v.into_iter()
        invariant
            *f == f0,
            forall|a: A| call_requires(f0, (a,)),
            it.seq() == xs,
            out.len() == 2 * it.index(),
            forall|i: int| 0 <= i < it.index() ==> call_ensures(f0, (#[trigger] xs[i],), (out@[2 * i], out@[2 * i + 1])),
    {
        let (a, b) = f(x);
        out.push(a);
        out.push(b);
    }
    out
}

} // verus!
