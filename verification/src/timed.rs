//! Stages whose result depends on when elements arrive: the drive step of each element, as
//! `arrivals` reads it from a stream body, decides what they keep, merge or group.
use vstd::prelude::*;
use crate::body::{StreamBody, StreamEnd, arrivals, arrival_at, mapped_by, flatten, select, judged_by, filtered_by,
    rejected_by};
use crate::ops::scan_trace;
use crate::stages::FlowStage;

verus! {

/// The drive step of every element of `body`, as a vector.
pub fn arrival_vec<T>(body: &StreamBody<T>) -> (r: Vec<u64>)
    ensures
        r@.len() == body.elements@.len(),
        forall|i: int| 0 <= i < r@.len() ==> #[trigger] r@[i] as int == arrivals(*body)[i],
{
    let mut r: Vec<u64> = Vec::new();
    let mut i: usize = 0;
    while i < body.elements.len()
        invariant
            i <= body.elements@.len(),
            r@.len() == i,
            forall|j: int| 0 <= j < i ==> #[trigger] r@[j] as int == arrivals(*body)[j],
        decreases body.elements@.len() - i,
    {
        let t = arrival_at(body, i);
        r.push(t);
        i = i + 1;
    }
    r
}

/// `k` is the number of leading elements of `arr` that arrived before step `limit`.
pub open spec fn in_time_prefix(arr: Seq<int>, limit: int, k: int) -> bool {
    &&& 0 <= k <= arr.len()
    &&& forall|j: int| 0 <= j < k ==> #[trigger] arr[j] < limit
    &&& k < arr.len() ==> arr[k] >= limit
}

/// Keeps the elements that arrive before drive step `ticks`; the first element that arrives later
/// closes the window and completes the stream.
pub struct TakeWithinStage {
    pub ticks: usize,
}

impl<T> FlowStage<T, T> for TakeWithinStage {
    open spec fn ready(&self) -> bool { true }

    open spec fn yields(&self, input: StreamBody<T>, output: StreamBody<T>) -> bool {
        &&& exists|k: int| #[trigger] in_time_prefix(arrivals(input), self.ticks as int, k)
            && output.elements@ == input.elements@.take(k)
            && output.end == (if k < input.elements@.len() { StreamEnd::Completed } else { input.end })
        &&& arrivals(output) == arrivals(input).take(output.elements@.len() as int)
    }

    fn run(self, input: StreamBody<T>) -> (output: StreamBody<T>) {
        let arr = arrival_vec(&input);
        let ghost a = arrivals(input);
        let ghost n = input.elements@.len();
        let mut k: usize = 0;
        while k < arr.len() && (arr[k] as u128) < (self.ticks as u128)
            invariant
                k <= arr@.len(),
                arr@.len() == n,
                forall|i: int| 0 <= i < arr@.len() ==> #[trigger] arr@[i] as int == a[i],
                forall|j: int| 0 <= j < k ==> #[trigger] a[j] < self.ticks as int,
            decreases arr@.len() - k,
        {
            k = k + 1;
        }
        proof {
            if k < n {
                assert(arr@[k as int] as int == a[k as int]);
            }
            assert(in_time_prefix(a, self.ticks as int, k as int));
        }
        let StreamBody { elements, end, .. } = input;
        let mut elements = elements;
        let out = if k < elements.len() {
            elements.truncate(k);
            StreamBody { elements, end: StreamEnd::Completed, ticks: Vec::new() }
        } else {
            proof { assert(elements@.take(k as int) =~= elements@); }
            StreamBody { elements, end, ticks: Vec::new() }
        };
        let r = with_arrivals(out, &arr, Ghost(a), 0);
        proof { assert(a.subrange(0, r.elements@.len() as int) =~= a.take(r.elements@.len() as int)); }
        r
    }
}

/// The bursts of `xs`: the runs of consecutive elements that arrived at the same step `arr`.
pub open spec fn bursts<T>(xs: Seq<T>, arr: Seq<int>) -> Seq<Seq<T>>
    decreases xs.len(),
{
    if xs.len() == 0 {
        Seq::empty()
    } else {
        let rest = bursts(xs.drop_last(), arr.drop_last());
        if xs.len() > 1 && arr[xs.len() - 1] == arr[xs.len() - 2] && rest.len() > 0 {
            rest.update(rest.len() - 1, rest.last().push(xs.last()))
        } else {
            rest.push(seq![xs.last()])
        }
    }
}

/// `v` is the value a burst `g` conflates to: `seed` of its first element, then `aggregate` with
/// every further element in turn.
pub open spec fn conflated<A, B, FS: FnMut(A) -> B, FA: FnMut(B, A) -> B>(seed: FS, aggregate: FA, g: Seq<A>, v: B) -> bool {
    exists|b0: B, accs: Seq<B>| #![auto] g.len() > 0 && call_ensures(seed, (g[0],), b0)
        && scan_trace(aggregate, b0, g.drop_first(), accs) && v == accs.last()
}

/// `ys` holds, for every burst of `xs` under the arrival steps `arr`, the value it conflates to.
pub open spec fn conflated_bursts<A, B, FS: FnMut(A) -> B, FA: FnMut(B, A) -> B>(seed: FS, aggregate: FA, xs: Seq<A>,
    arr: Seq<int>, ys: Seq<B>) -> bool {
    let bs = bursts(xs, arr);
    &&& ys.len() == bs.len()
    &&& forall|i: int| 0 <= i < ys.len() ==> #[trigger] conflated(seed, aggregate, bs[i], ys[i])
}

/// A burst grown by one more element conflates by one more `aggregate` call.
proof fn lemma_conflated_push<A, B, FS: FnMut(A) -> B, FA: FnMut(B, A) -> B>(seed: FS, aggregate: FA, g: Seq<A>, c: B, x: A, c2: B)
    requires conflated(seed, aggregate, g, c), call_ensures(aggregate, (c, x), c2),
    ensures conflated(seed, aggregate, g.push(x), c2),
{
    let (b0, accs) = choose|b0: B, accs: Seq<B>| #![auto] g.len() > 0 && call_ensures(seed, (g[0],), b0)
        && scan_trace(aggregate, b0, g.drop_first(), accs) && c == accs.last();
    let g2 = g.push(x);
    let accs2 = accs.push(c2);
    assert(g2.drop_first() =~= g.drop_first().push(x));
    assert(g2[0] == g[0]);
    assert forall|i: int| 0 <= i < g2.drop_first().len() implies
        call_ensures(aggregate, (#[trigger] accs2[i], g2.drop_first()[i]), accs2[i + 1]) by {
        if i < g.drop_first().len() {
            assert(accs2[i] == accs[i]);
            assert(accs2[i + 1] == accs[i + 1]);
        }
    }
    assert(scan_trace(aggregate, b0, g2.drop_first(), accs2));
}

/// A one-element burst conflates to the seed of its element.
proof fn lemma_conflated_single<A, B, FS: FnMut(A) -> B, FA: FnMut(B, A) -> B>(seed: FS, aggregate: FA, x: A, b0: B)
    requires call_ensures(seed, (x,), b0),
    ensures conflated(seed, aggregate, seq![x], b0),
{
    let g = seq![x];
    let accs = seq![b0];
    assert(g.drop_first() =~= Seq::<A>::empty());
    assert(scan_trace(aggregate, b0, g.drop_first(), accs));
}

/// Merges every burst of the stream into one value: `seed` of its first element, then
/// `aggregate` with each further element.
pub fn conflate_elements<A, B, FS: FnMut(A) -> B, FA: FnMut(B, A) -> B>(body: StreamBody<A>, seed: &mut FS, aggregate: &mut FA)
    -> (out: Vec<B>)
    requires
        forall|a: A| call_requires(*old(seed), (a,)),
        forall|b: B, a: A| call_requires(*old(aggregate), (b, a)),
    ensures
        conflated_bursts(*old(seed), *old(aggregate), body.elements@, arrivals(body), out@),
        *final(seed) == *old(seed),
        *final(aggregate) == *old(aggregate),
{
    let ghost fs = *seed;
    let ghost fa = *aggregate;
    let arr = arrival_vec(&body);
    let ghost a = arrivals(body);
    let ghost xs = body.elements@;
    let StreamBody { elements, end: _, .. } = body;
    let n = elements.len();
    let mut out: Vec<B> = Vec::new();
    let mut current: Option<B> = None;
    let mut last_tick: u64 = 0;
    let mut i: usize = 0;
    for x in it: elements.into_iter()
        invariant
            *seed == fs,
            *aggregate == fa,
            forall|a: A| call_requires(fs, (a,)),
            forall|b: B, a: A| call_requires(fa, (b, a)),
            it.seq() == xs,
            i == it.index(),
            xs.len() == n,
            arr@.len() == xs.len(),
            forall|j: int| 0 <= j < arr@.len() ==> #[trigger] arr@[j] as int == a[j],
            a.len() == xs.len(),
            i == 0 <==> current is None,
            i > 0 ==> last_tick as int == a[i - 1],
            ({
                let bs = bursts(xs.take(i as int), a.take(i as int));
                &&& i > 0 ==> out@.len() + 1 == bs.len()
                &&& i == 0 ==> out@.len() == 0 && bs.len() == 0
                &&& forall|k: int| 0 <= k < out@.len() ==> #[trigger] conflated(fs, fa, bs[k], out@[k])
                &&& current matches Some(c) ==> conflated(fs, fa, bs.last(), c)
            }),
    {
        let t = arr[i];
        let ghost bs = bursts(xs.take(i as int), a.take(i as int));
        proof {
            assert(xs.take(i + 1).drop_last() =~= xs.take(i as int));
            assert(a.take(i + 1).drop_last() =~= a.take(i as int));
            assert(xs.take(i + 1).last() == x);
            assert(t as int == a[i as int]);
        }
        match current {
            Some(c) => {
                if t == last_tick {
                    let c2 = aggregate(c, x);
                    proof {
                        lemma_conflated_push(fs, fa, bs.last(), c, x, c2);
                        let bs2 = bursts(xs.take(i + 1), a.take(i + 1));
                        assert(bs2 == bs.update(bs.len() - 1, bs.last().push(x)));
                        assert forall|k: int| 0 <= k < out@.len() implies #[trigger] conflated(fs, fa, bs2[k], out@[k]) by {
                            assert(bs2[k] == bs[k]);
                        }
                    }
                    current = Some(c2);
                } else {
                    out.push(c);
                    let b0 = seed(x);
                    proof {
                        lemma_conflated_single(fs, fa, x, b0);
                        let bs2 = bursts(xs.take(i + 1), a.take(i + 1));
                        assert(bs2 == bs.push(seq![x]));
                        assert forall|k: int| 0 <= k < out@.len() implies #[trigger] conflated(fs, fa, bs2[k], out@[k]) by {
                            assert(bs2[k] == bs[k]);
                        }
                    }
                    current = Some(b0);
                }
            },
            None => {
                let b0 = seed(x);
                proof {
                    lemma_conflated_single(fs, fa, x, b0);
                    let bs2 = bursts(xs.take(i + 1), a.take(i + 1));
                    assert(bs2 == bs.push(seq![x]));
                }
                current = Some(b0);
            },
        }
        last_tick = t;
        i = i + 1;
    }
    proof {
        assert(xs.take(xs.len() as int) =~= xs);
        assert(a.take(a.len() as int) =~= a);
    }
    match current {
        Some(c) => {
            out.push(c);
            proof {
                let bs = bursts(xs, a);
                assert forall|k: int| 0 <= k < out@.len() implies #[trigger] conflated(fs, fa, bs[k], out@[k]) by {
                    if k < out@.len() - 1 { assert(out@[k] == out@.drop_last()[k]); }
                }
            }
        },
        None => {},
    }
    out
}

/// Merges the elements that arrive in one drive step: `seed` turns the first element of each
/// burst into an aggregate, and `aggregate` adds every further element of the burst to it.
pub struct ConflateStage<FS, FA> {
    pub seed: FS,
    pub aggregate: FA,
}

impl<A, B, FS: FnMut(A) -> B, FA: FnMut(B, A) -> B> FlowStage<A, B> for ConflateStage<FS, FA> {
    open spec fn ready(&self) -> bool {
        &&& forall|a: A| call_requires(self.seed, (a,))
        &&& forall|b: B, a: A| call_requires(self.aggregate, (b, a))
    }

    open spec fn yields(&self, input: StreamBody<A>, output: StreamBody<B>) -> bool {
        conflated_bursts(self.seed, self.aggregate, input.elements@, arrivals(input), output.elements@)
            && output.end == input.end
    }

    fn run(self, input: StreamBody<A>) -> (output: StreamBody<B>) {
        let ConflateStage { seed, aggregate } = self;
        let mut fs = seed;
        let mut fa = aggregate;
        let end = input.end;
        let out = conflate_elements(input, &mut fs, &mut fa);
        StreamBody { elements: out, end, ticks: Vec::new() }
    }
}

/// `v` is what a burst `g` conflates to with the element itself as the seed.
pub open spec fn conflated_same<T, FA: FnMut(T, T) -> T>(aggregate: FA, g: Seq<T>, v: T) -> bool {
    exists|accs: Seq<T>| #![auto] g.len() > 0 && scan_trace(aggregate, g[0], g.drop_first(), accs) && v == accs.last()
}

/// Merges the elements that arrive in one drive step with `aggregate`, starting from the first
/// element of each burst.
pub struct ConflateSameStage<FA> {
    pub aggregate: FA,
}

impl<T, FA: FnMut(T, T) -> T> FlowStage<T, T> for ConflateSameStage<FA> {
    open spec fn ready(&self) -> bool { forall|b: T, a: T| call_requires(self.aggregate, (b, a)) }

    open spec fn yields(&self, input: StreamBody<T>, output: StreamBody<T>) -> bool {
        let bs = bursts(input.elements@, arrivals(input));
        &&& output.elements@.len() == bs.len()
        &&& forall|i: int| 0 <= i < bs.len() ==> #[trigger] conflated_same(self.aggregate, bs[i], output.elements@[i])
        &&& output.end == input.end
    }

    fn run(self, input: StreamBody<T>) -> (output: StreamBody<T>) {
        let mut fa = self.aggregate;
        let ghost fa0 = fa;
        let mut seed = |x: T| -> (r: T) ensures r == x { x };
        let end = input.end;
        let ghost xs = input.elements@;
        let ghost a = arrivals(input);
        let out = conflate_elements(input, &mut seed, &mut fa);
        proof {
            let bs = bursts(xs, a);
            assert forall|i: int| 0 <= i < bs.len() implies #[trigger] conflated_same(fa0, bs[i], out@[i]) by {
                assert(conflated(seed, fa0, bs[i], out@[i]));
            }
        }
        StreamBody { elements: out, end, ticks: Vec::new() }
    }
}

/// The groups of `xs` when a group takes at most `size` elements and closes once `ticks` steps
/// have passed since its first element arrived (at steps `arr`), with the step at which the last
/// group opened.
pub open spec fn window_groups<T>(xs: Seq<T>, arr: Seq<int>, size: nat, ticks: int) -> (Seq<Seq<T>>, int)
    decreases xs.len(),
{
    if xs.len() == 0 {
        (Seq::empty(), 0)
    } else {
        let (gs, start) = window_groups(xs.drop_last(), arr.drop_last(), size, ticks);
        let t = arr[xs.len() - 1];
        if gs.len() > 0 && gs.last().len() < size && t - start < ticks {
            (gs.update(gs.len() - 1, gs.last().push(xs.last())), start)
        } else {
            (gs.push(seq![xs.last()]), t)
        }
    }
}

/// The groups a stream emits: every window group, where the last one, if it is not full, is
/// emitted only when the stream completes.
pub open spec fn emitted_windows<T>(xs: Seq<T>, arr: Seq<int>, size: nat, ticks: int, end: StreamEnd) -> Seq<Seq<T>> {
    let gs = window_groups(xs, arr, size, ticks).0;
    if end == StreamEnd::Completed || gs.len() == 0 || gs.last().len() == size {
        gs
    } else {
        gs.drop_last()
    }
}

/// Groups the elements into chunks of at most `size`, closing a chunk once `ticks` drive steps
/// have passed since its first element arrived.
pub struct GroupedWithinStage {
    pub size: usize,
    pub ticks: usize,
}

impl<T> FlowStage<T, Vec<T>> for GroupedWithinStage {
    open spec fn ready(&self) -> bool { self.size > 0 && self.ticks > 0 }

    open spec fn yields(&self, input: StreamBody<T>, output: StreamBody<Vec<T>>) -> bool {
        &&& output.elements@.map_values(|c: Vec<T>| c@)
            == emitted_windows(input.elements@, arrivals(input), self.size as nat, self.ticks as int, input.end)
        &&& output.end == input.end
    }

    fn run(self, input: StreamBody<T>) -> (output: StreamBody<Vec<T>>) {
        let size = self.size;
        let ticks = self.ticks as u64;
        let arr = arrival_vec(&input);
        let ghost a = arrivals(input);
        let ghost xs = input.elements@;
        let StreamBody { elements, end, .. } = input;
        let n = elements.len();
        let mut groups: Vec<Vec<T>> = Vec::new();
        let mut current: Vec<T> = Vec::new();
        let mut start: u64 = 0;
        let mut i: usize = 0;
        for x in it: elements.into_iter()
            invariant
                size > 0,
                it.seq() == xs,
                i == it.index(),
                xs.len() == n,
                arr@.len() == xs.len(),
                a.len() == xs.len(),
                forall|j: int| 0 <= j < arr@.len() ==> #[trigger] arr@[j] as int == a[j],
                ({
                    let ws = window_groups(xs.take(i as int), a.take(i as int), size as nat, ticks as int);
                    &&& i == 0 ==> ws.0.len() == 0 && groups@.len() == 0 && current@.len() == 0
                    &&& i > 0 ==> ws.0 == groups@.map_values(|c: Vec<T>| c@).push(current@) && ws.1 == start as int
                }),
        {
            let t = arr[i];
            let ghost gs = groups@.map_values(|c: Vec<T>| c@);
            let ghost cur = current@;
            proof {
                assert(xs.take(i + 1).drop_last() =~= xs.take(i as int));
                assert(a.take(i + 1).drop_last() =~= a.take(i as int));
                assert(xs.take(i + 1).last() == x);
                assert(t as int == a[i as int]);
            }
            if i > 0 && current.len() < size && (t < start || t - start < ticks) {
                current.push(x);
                proof {
                    assert(gs.push(cur.push(x)) =~= gs.push(cur).update(gs.push(cur).len() - 1, gs.push(cur).last().push(x)));
                }
            } else {
                if i > 0 {
                    groups.push(current);
                    proof {
                        assert(groups@.map_values(|c: Vec<T>| c@) =~= gs.push(cur));
                    }
                } else {
                    proof { assert(groups@.map_values(|c: Vec<T>| c@) =~= gs); }
                }
                current = Vec::new();
                current.push(x);
                start = t;
                proof {
                    assert(current@ =~= seq![x]);
                }
            }
            i = i + 1;
        }
        proof {
            assert(xs.take(xs.len() as int) =~= xs);
            assert(a.take(a.len() as int) =~= a);
        }
        let ghost gs = groups@.map_values(|c: Vec<T>| c@);
        let ghost ws = window_groups(xs, a, size as nat, ticks as int);
        proof {
            assert(i == xs.len());
            assert(ticks as int == self.ticks as int);
            if i > 0 {
                assert(ws.0 == gs.push(current@));
            } else {
                assert(ws.0.len() == 0);
            }
        }
        let completed = match end { StreamEnd::Completed => true, _ => false };
        if i > 0 && (completed || current.len() == size) {
            groups.push(current);
            proof {
                assert(groups@.map_values(|c: Vec<T>| c@) =~= gs.push(current@));
                assert(groups@.map_values(|c: Vec<T>| c@) == emitted_windows(xs, a, size as nat, ticks as int, end));
            }
        } else {
            proof {
                if i > 0 {
                    assert(gs.push(current@).drop_last() =~= gs);
                    assert(ws.0.last() == current@);
                } else {
                    assert(gs =~= Seq::<Seq<T>>::empty());
                    assert(ws.0 =~= Seq::<Seq<T>>::empty());
                }
                assert(groups@.map_values(|c: Vec<T>| c@) == emitted_windows(xs, a, size as nat, ticks as int, end));
            }
        }
        StreamBody { elements: groups, end, ticks: Vec::new() }
    }
}

/// The arrival step of every output of a concatenating map: each input's step `arr[i]`, once for
/// every element of its expansion `vs[i]`.
pub open spec fn expanded_arrivals<B>(vs: Seq<Vec<B>>, arr: Seq<int>) -> Seq<int>
    decreases vs.len(),
{
    if vs.len() == 0 {
        Seq::empty()
    } else {
        expanded_arrivals(vs.drop_last(), arr) + Seq::new(vs.last()@.len(), |j: int| arr[vs.len() - 1])
    }
}

/// `ys` is `xs` mapped through `f` and concatenated, and `ts` gives each output the arrival step of
/// the input it came from.
pub open spec fn timed_concat_mapped_by<A, B, F: FnMut(A) -> Vec<B>>(f: F, xs: Seq<A>, arr: Seq<int>, ys: Seq<B>, ts: Seq<int>) -> bool {
    exists|vs: Seq<Vec<B>>| #![auto] mapped_by(f, xs, vs) && ys == flatten(vs.map_values(|v: Vec<B>| v@))
        && ts == expanded_arrivals(vs, arr)
}

/// Maps each element to a vector of outputs and concatenates them; the outputs of one element
/// arrive at the step at which it arrived.
pub fn map_concat_timed<A, B, F: FnMut(A) -> Vec<B>>(body: StreamBody<A>, f: &mut F) -> (out: StreamBody<B>)
    requires forall|a: A| call_requires(*old(f), (a,)),
    ensures
        timed_concat_mapped_by(*old(f), body.elements@, arrivals(body), out.elements@, arrivals(out)),
        out.end == body.end,
        *final(f) == *old(f),
{
    let arr = arrival_vec(&body);
    let ghost a = arrivals(body);
    let ghost xs = body.elements@;
    let ghost f0 = *f;
    let StreamBody { elements, end, .. } = body;
    let n = elements.len();
    let ghost mut vs: Seq<Vec<B>> = Seq::empty();
    let mut out: Vec<B> = Vec::new();
    let mut ticks: Vec<u64> = Vec::new();
    let mut i: usize = 0;
    for x in it: elements.into_iter()
        invariant
            *f == f0,
            forall|a: A| call_requires(f0, (a,)),
            it.seq() == xs,
            i == it.index(),
            xs.len() == n,
            arr@.len() == n,
            a.len() == n,
            forall|j: int| 0 <= j < arr@.len() ==> #[trigger] arr@[j] as int == a[j],
            mapped_by(f0, xs.take(i as int), vs),
            out@ == flatten(vs.map_values(|w: Vec<B>| w@)),
            ticks@.len() == out@.len(),
            ticks@.map_values(|t: u64| t as int) == expanded_arrivals(vs, a),
    {
        let t = arr[i];
        let mut ys = f(x);
        let ghost v0 = vs;
        let ghost tk0 = ticks@.map_values(|t: u64| t as int);
        let k = ys.len();
        let mut j: usize = 0;
        while j < k
            invariant
                j <= k,
                ticks@.map_values(|t: u64| t as int) == tk0 + Seq::new(j as nat, |m: int| t as int),
                ticks@.len() == tk0.len() + j,
            decreases k - j,
        {
            let ghost prev = ticks@;
            ticks.push(t);
            j = j + 1;
            proof {
                assert(ticks@.map_values(|t: u64| t as int) =~= prev.map_values(|t: u64| t as int).push(t as int));
                assert((tk0 + Seq::new((j - 1) as nat, |m: int| t as int)).push(t as int)
                    =~= tk0 + Seq::new(j as nat, |m: int| t as int));
            }
        }
        proof {
            vs = vs.push(ys);
            assert(vs.drop_last() == v0);
            assert(vs.map_values(|w: Vec<B>| w@).drop_last() == v0.map_values(|w: Vec<B>| w@));
            assert(xs.take(i + 1).drop_last() == xs.take(i as int));
            assert(xs.take(i + 1).last() == x);
            assert forall|m: int| 0 <= m < i + 1 implies call_ensures(f0, (xs.take(i + 1)[m],), #[trigger] vs[m]) by {
                if m < i { assert(xs.take(i + 1)[m] == xs.take(i as int)[m]); }
            }
            assert(t as int == a[i as int]);
            assert(Seq::new(ys@.len(), |m: int| a[vs.len() - 1]) =~= Seq::new(k as nat, |m: int| t as int));
        }
        out.append(&mut ys);
        i = i + 1;
    }
    proof {
        assert(xs.take(xs.len() as int) == xs);
    }
    let r = StreamBody { elements: out, end, ticks };
    proof {
        assert(arrivals(r) == ticks@.map_values(|t: u64| t as int));
    }
    r
}

/// The flags by which a filter keeps elements: the predicate's verdicts, or their negation when it
/// keeps the rejected elements.
pub open spec fn kept_flags(keep: Seq<bool>, keep_accepted: bool) -> Seq<bool> {
    if keep_accepted { keep } else { keep.map_values(|b: bool| !b) }
}

/// `ys` holds the elements of `xs` that `f` accepts (or rejects, without `keep_accepted`), in
/// order, and `ts` the arrival steps `arr` of those elements.
pub open spec fn timed_filtered<T, F: FnMut(&T) -> bool>(f: F, xs: Seq<T>, arr: Seq<int>, keep_accepted: bool,
    ys: Seq<T>, ts: Seq<int>) -> bool {
    exists|keep: Seq<bool>| #[trigger] judged_by(f, xs, keep)
        && ys == select(xs, kept_flags(keep, keep_accepted))
        && ts == select(arr, kept_flags(keep, keep_accepted))
}

/// Keeps the elements that `f` accepts (or those it rejects, without `keep_accepted`), each with
/// the step at which it arrived.
pub fn filter_timed<T, F: FnMut(&T) -> bool>(body: StreamBody<T>, f: &mut F, keep_accepted: bool) -> (out: StreamBody<T>)
    requires forall|a: &T| call_requires(*old(f), (a,)),
    ensures
        *final(f) == *old(f),
        timed_filtered(*old(f), body.elements@, arrivals(body), keep_accepted, out.elements@, arrivals(out)),
        out.end == body.end,
{
    let arr = arrival_vec(&body);
    let ghost a = arrivals(body);
    let ghost xs = body.elements@;
    let ghost f0 = *f;
    let StreamBody { elements, end, .. } = body;
    let n = elements.len();
    let ghost mut keep: Seq<bool> = Seq::empty();
    let mut out: Vec<T> = Vec::new();
    let mut ticks: Vec<u64> = Vec::new();
    let mut i: usize = 0;
    for x in it: elements.into_iter()
        invariant
            *f == f0,
            forall|a: &T| call_requires(f0, (a,)),
            it.seq() == xs,
            i == it.index(),
            xs.len() == n,
            arr@.len() == n,
            a.len() == n,
            forall|j: int| 0 <= j < arr@.len() ==> #[trigger] arr@[j] as int == a[j],
            keep.len() == i,
            judged_by(f0, xs.take(i as int), keep),
            out@ == select(xs.take(i as int), kept_flags(keep, keep_accepted)),
            ticks@.map_values(|t: u64| t as int) == select(a.take(i as int), kept_flags(keep, keep_accepted)),
            ticks@.len() == out@.len(),
    {
        let t = arr[i];
        let b = f(&x);
        proof {
            let before = xs.take(i as int);
            let after = xs.take(i + 1);
            let abefore = a.take(i as int);
            let aafter = a.take(i + 1);
            let k0 = keep;
            assert(after.drop_last() == before);
            assert(after.last() == x);
            assert(aafter.drop_last() == abefore);
            assert(aafter.last() == t as int);
            keep = keep.push(b);
            assert(keep.drop_last() == k0);
            let kf = kept_flags(keep, keep_accepted);
            assert(kf.drop_last() =~= kept_flags(k0, keep_accepted));
            assert(kf.last() == (b == keep_accepted));
            assert(select(after, kf) == (if b == keep_accepted { select(before, kept_flags(k0, keep_accepted)).push(x) }
                else { select(before, kept_flags(k0, keep_accepted)) }));
            assert(select(aafter, kf) == (if b == keep_accepted { select(abefore, kept_flags(k0, keep_accepted)).push(t as int) }
                else { select(abefore, kept_flags(k0, keep_accepted)) }));
            assert forall|j: int| 0 <= j < after.len() implies call_ensures(f0, (&after[j],), #[trigger] keep[j]) by {
                if j < i { assert(after[j] == before[j]); }
            }
        }
        if b == keep_accepted {
            let ghost prev = ticks@;
            out.push(x);
            ticks.push(t);
            proof {
                assert(ticks@.map_values(|t: u64| t as int) =~= prev.map_values(|t: u64| t as int).push(t as int));
            }
        }
        i = i + 1;
    }
    proof {
        assert(xs.take(xs.len() as int) == xs);
        assert(a.take(a.len() as int) == a);
    }
    let r = StreamBody { elements: out, end, ticks };
    proof {
        assert(arrivals(r) == ticks@.map_values(|t: u64| t as int));
    }
    r
}

/// A filter that also records arrival steps keeps the elements a plain filter keeps.
pub proof fn lemma_timed_filtered_elements<T, F: FnMut(&T) -> bool>(f: F, xs: Seq<T>, arr: Seq<int>, keep_accepted: bool,
    ys: Seq<T>, ts: Seq<int>)
    requires timed_filtered(f, xs, arr, keep_accepted, ys, ts),
    ensures
        keep_accepted ==> filtered_by(f, xs, ys),
        !keep_accepted ==> rejected_by(f, xs, ys),
{
    let keep = choose|keep: Seq<bool>| #[trigger] judged_by(f, xs, keep)
        && ys == select(xs, kept_flags(keep, keep_accepted))
        && ts == select(arr, kept_flags(keep, keep_accepted));
    assert(judged_by(f, xs, keep));
}

/// Gives the elements of `out` the arrival steps `a[from]`, `a[from + 1]`, ..., read from `arr`.
pub(crate) fn with_arrivals<T>(out: StreamBody<T>, arr: &Vec<u64>, Ghost(a): Ghost<Seq<int>>, from: usize) -> (r: StreamBody<T>)
    requires
        from + out.elements@.len() <= arr@.len(),
        arr@.len() == a.len(),
        forall|j: int| 0 <= j < arr@.len() ==> #[trigger] arr@[j] as int == a[j],
    ensures
        r.elements == out.elements,
        r.end == out.end,
        arrivals(r) == a.subrange(from as int, from + out.elements@.len()),
{
    let n = out.elements.len();
    let m = arr.len();
    let mut ticks: Vec<u64> = Vec::new();
    let mut j: usize = 0;
    while j < n
        invariant
            j <= n,
            m == arr@.len(),
            n == out.elements@.len(),
            from + n <= arr@.len(),
            arr@.len() == a.len(),
            forall|k: int| 0 <= k < arr@.len() ==> #[trigger] arr@[k] as int == a[k],
            ticks@.len() == j,
            forall|k: int| 0 <= k < j ==> #[trigger] ticks@[k] as int == a[from + k],
        decreases n - j,
    {
        ticks.push(arr[from + j]);
        j = j + 1;
    }
    let StreamBody { elements, end, .. } = out;
    let r = StreamBody { elements, end, ticks };
    proof {
        assert(arrivals(r) =~= a.subrange(from as int, from + n));
    }
    r
}

} // verus!
