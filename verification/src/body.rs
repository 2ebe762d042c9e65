//! The element model of a stream: the finite sequence of elements it emits and
//! the way it ends, with the sequence operators that every stage is built on.
use vstd::prelude::*;
use crate::error::StreamError;

verus! {

/// How a stream ends after emitting its elements.
#[derive(Debug, Clone, Copy, PartialEq, Eq)]
pub enum StreamEnd {
    /// The stream completed normally.
    Completed,
    /// The stream failed with the given error.
    Failed(StreamError),
    /// The stream stopped making progress without completing.
    Stalled,
}

/// The elements a stream emits, in order, and how it ends. `ticks` holds, where it has one entry
/// per element, the drive step at which each element arrived; elements that arrive in the same
/// step form a burst. A body without that record (any other length of `ticks`) delivers its
/// elements one step apart.
pub struct StreamBody<T> {
    pub elements: Vec<T>,
    pub end: StreamEnd,
    pub ticks: Vec<u64>,
}

/// The drive step at which each element of `b` arrived.
pub open spec fn arrivals<T>(b: StreamBody<T>) -> Seq<int> {
    if b.ticks@.len() == b.elements@.len() {
        b.ticks@.map_values(|t: u64| t as int)
    } else {
        Seq::new(b.elements@.len(), |i: int| i)
    }
}

/// The drive step at which element `i` of `body` arrived.
pub fn arrival_at<T>(body: &StreamBody<T>, i: usize) -> (r: u64)
    requires i < body.elements@.len(),
    ensures r as int == arrivals(*body)[i as int],
{
    if body.ticks.len() == body.elements.len() {
        body.ticks[i]
    } else {
        i as u64
    }
}

/// The result a collecting consumer observes for a stream that emitted `xs` and ended with `end`.
pub open spec fn spec_collected<T>(xs: Seq<T>, end: StreamEnd, r: Result<Vec<T>, StreamError>) -> bool {
    match end {
        StreamEnd::Completed => r matches Ok(v) && v@ == xs,
        StreamEnd::Failed(e) => r == Err::<Vec<T>, StreamError>(e),
        StreamEnd::Stalled => r == Err::<Vec<T>, StreamError>(StreamError::WouldBlock),
    }
}

/// Keeps the elements of `xs` whose flag in `keep` is set.
pub open spec fn select<T>(xs: Seq<T>, keep: Seq<bool>) -> Seq<T>
    decreases xs.len(),
{
    if xs.len() == 0 || keep.len() != xs.len() {
        Seq::empty()
    } else {
        let rest = select(xs.drop_last(), keep.drop_last());
        if keep.last() { rest.push(xs.last()) } else { rest }
    }
}

/// Concatenates a sequence of sequences.
pub open spec fn flatten<T>(xss: Seq<Seq<T>>) -> Seq<T>
    decreases xss.len(),
{
    if xss.len() == 0 {
        Seq::empty()
    } else {
        flatten(xss.drop_last()) + xss.last()
    }
}

/// Keeps the present values of a sequence of options.
pub open spec fn somes<T>(os: Seq<Option<T>>) -> Seq<T>
    decreases os.len(),
{
    if os.len() == 0 {
        Seq::empty()
    } else {
        let rest = somes(os.drop_last());
        match os.last() {
            Some(v) => rest.push(v),
            None => rest,
        }
    }
}

/// Splits `xs` into consecutive chunks of `n` elements; the last chunk may be shorter.
pub open spec fn chunks<T>(xs: Seq<T>, n: nat) -> Seq<Seq<T>>
    decreases xs.len(),
{
    if xs.len() == 0 || n == 0 {
        Seq::empty()
    } else if xs.len() <= n {
        seq![xs]
    } else {
        seq![xs.take(n as int)] + chunks(xs.skip(n as int), n)
    }
}

/// The chunks of `xs` that a grouping stage emits: a short last chunk only when the stream completed.
pub open spec fn spec_groups<T>(xs: Seq<T>, n: nat, end: StreamEnd) -> Seq<Seq<T>> {
    let cs = chunks(xs, n);
    if end == StreamEnd::Completed || cs.len() == 0 || cs.last().len() == n {
        cs
    } else {
        cs.drop_last()
    }
}

/// `b` holds clones of the elements of `a`, in order.
pub open spec fn clones_of<T: Clone>(a: Seq<T>, b: Seq<T>) -> bool {
    a.len() == b.len() && forall|i: int| 0 <= i < a.len() ==> cloned(a[i], #[trigger] b[i])
}

/// `ys` is `xs` mapped element by element through `f`.
pub open spec fn mapped_by<A, B, F: FnMut(A) -> B>(f: F, xs: Seq<A>, ys: Seq<B>) -> bool {
    ys.len() == xs.len() && forall|i: int| 0 <= i < xs.len() ==> call_ensures(f, (xs[i],), #[trigger] ys[i])
}

/// `keep` holds the answers of predicate `f` on the elements of `xs`.
pub open spec fn judged_by<T, F: FnMut(&T) -> bool>(f: F, xs: Seq<T>, keep: Seq<bool>) -> bool {
    keep.len() == xs.len() && forall|i: int| 0 <= i < xs.len() ==> call_ensures(f, (&xs[i],), #[trigger] keep[i])
}

/// `ys` holds the elements of `xs` that predicate `f` accepts, in order.
pub open spec fn filtered_by<T, F: FnMut(&T) -> bool>(f: F, xs: Seq<T>, ys: Seq<T>) -> bool {
    exists|keep: Seq<bool>| judged_by(f, xs, keep) && ys == select(xs, keep)
}

/// `ys` holds the elements of `xs` that predicate `f` rejects, in order.
pub open spec fn rejected_by<T, F: FnMut(&T) -> bool>(f: F, xs: Seq<T>, ys: Seq<T>) -> bool {
    exists|keep: Seq<bool>| judged_by(f, xs, keep) && ys == select(xs, keep.map_values(|b: bool| !b))
}

/// `k` is the length of the longest prefix of `xs` that predicate `f` accepts.
pub open spec fn accepted_prefix<T, F: FnMut(&T) -> bool>(f: F, xs: Seq<T>, k: int) -> bool {
    &&& 0 <= k <= xs.len()
    &&& forall|i: int| 0 <= i < k ==> call_ensures(f, (&xs[i],), true)
    &&& k < xs.len() ==> call_ensures(f, (&xs[k],), false)
}

/// Takes the first `n` elements; the stream completes once they have been taken.
pub open spec fn spec_take<T>(xs: Seq<T>, end: StreamEnd, n: nat) -> (Seq<T>, StreamEnd) {
    if n <= xs.len() { (xs.take(n as int), StreamEnd::Completed) } else { (xs, end) }
}

/// Drops the first `n` elements.
pub open spec fn spec_drop<T>(xs: Seq<T>, n: nat) -> Seq<T> {
    if n <= xs.len() { xs.skip(n as int) } else { Seq::empty() }
}

/// Whether a body is fully described by `xs` and `end`.
pub open spec fn body_is<T>(b: StreamBody<T>, xs: Seq<T>, end: StreamEnd) -> bool {
    b.elements@ == xs && b.end == end
}

impl<T> StreamBody<T> {
    /// Creates a body from elements and an ending.
    pub fn new(elements: Vec<T>, end: StreamEnd) -> (r: Self)
        ensures body_is(r, elements@, end),
    {
        StreamBody { elements, end, ticks: Vec::new() }
    }

    /// A stream that emits the given elements and completes.
    pub fn completed(elements: Vec<T>) -> (r: Self)
        ensures body_is(r, elements@, StreamEnd::Completed),
    {
        StreamBody { elements, end: StreamEnd::Completed, ticks: Vec::new() }
    }

    /// Collects the emitted elements, or reports how the stream did not complete.
    pub fn into_result(self) -> (r: Result<Vec<T>, StreamError>)
        ensures spec_collected(self.elements@, self.end, r),
    {
        match self.end {
            StreamEnd::Completed => Ok(self.elements),
            StreamEnd::Failed(e) => Err(e),
            StreamEnd::Stalled => Err(StreamError::WouldBlock),
        }
    }
}

/// Maps every element through `f`.
pub fn map_elements<A, B, F: FnMut(A) -> B>(v: Vec<A>, f: &mut F) -> (out: Vec<B>)
    requires forall|a: A| call_requires(*old(f), (a,)),
    ensures mapped_by(*old(f), v@, out@), *final(f) == *old(f),
{
    let ghost xs = v@;
    let ghost f0 = *f;
    let mut out: Vec<B> = Vec::new();
    for x in it: v.into_iter()
        invariant
            *f == f0,
            forall|a: A| call_requires(f0, (a,)),
            it.seq() == xs,
            out.len() == it.index(),
            forall|i: int| 0 <= i < out.len() ==> call_ensures(f0, (xs[i],), #[trigger] out@[i]),
    {
        let y = f(x);
        out.push(y);
    }
    out
}

/// Keeps the elements that `f` accepts (or, with `keep_accepted` unset, rejects).
pub fn filter_elements<T, F: FnMut(&T) -> bool>(v: Vec<T>, f: &mut F, keep_accepted: bool) -> (out: Vec<T>)
    requires forall|a: &T| call_requires(*old(f), (a,)),
    ensures
        *final(f) == *old(f),
        keep_accepted ==> filtered_by(*old(f), v@, out@),
        !keep_accepted ==> rejected_by(*old(f), v@, out@),
{
    let ghost xs = v@;
    let ghost f0 = *f;
    let ghost mut keep: Seq<bool> = Seq::empty();
    let mut out: Vec<T> = Vec::new();
    for x in it: v.into_iter()
        invariant
            *f == f0,
            forall|a: &T| call_requires(f0, (a,)),
            it.seq() == xs,
            keep.len() == it.index(),
            judged_by(f0, xs.take(it.index() as int), keep),
            keep_accepted ==> out@ == select(xs.take(it.index() as int), keep),
            !keep_accepted ==> out@ == select(xs.take(it.index() as int), keep.map_values(|b: bool| !b)),
    {
        let ghost i = it.index();
        let b = f(&x);
        proof {
            let ghost before = xs.take(i as int);
            let ghost after = xs.take(i + 1);
            let ghost k0 = keep;
            assert(after.drop_last() == before);
            assert(after.last() == x);
            keep = keep.push(b);
            assert(keep.drop_last() == k0);
            let ghost nk = keep.map_values(|c: bool| !c);
            assert(nk.drop_last() == k0.map_values(|c: bool| !c));
            assert(nk.last() == !b);
            assert(select(after, keep) == (if b { select(before, k0).push(x) } else { select(before, k0) }));
            assert(select(after, nk) == (if !b { select(before, k0.map_values(|c: bool| !c)).push(x) } else { select(before, k0.map_values(|c: bool| !c)) }));
            assert forall|j: int| 0 <= j < after.len() implies call_ensures(f0, (&after[j],), #[trigger] keep[j]) by {
                if j < i { assert(after[j] == before[j]); }
            }
        }
        if b == keep_accepted {
            out.push(x);
        }
    }
    proof {
        assert(xs.take(xs.len() as int) == xs);
    }
    out
}

} // verus!
