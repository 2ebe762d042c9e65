//! Properties of the stream operators that hold for every stream.
use vstd::prelude::*;
use crate::body::{StreamBody, StreamEnd, select, flatten, chunks, spec_groups, spec_take, spec_drop};
use crate::keyed::{first_seen, changed};
use crate::ops::{split_after_state, split_before_state, emitted_segments};
use crate::stages::{FlowStage, MatStage, Then, Identity, RecoverWithRetriesStage, GroupByStage};
use crate::ops::{scan_trace, scanned_by, folded_by, reduced_by, recovered_with, error_count};
use crate::keyed::{keyed_by, admitted, distinct_keys, GroupKey};
use crate::body::{clones_of};
use crate::error::StreamError;
use crate::flow::{FlowSinkLogic, AlsoToStage};
use crate::sink::{SinkStage, CollectSink, outcome_of};
use crate::mat::{KeepRight, SettleRight, StreamCompletion};
use crate::merge::first_non_empty;
use crate::buffer::{OverflowPolicy, OfferOutcome, offered, after_offers, polled, lemma_polled_all};
use crate::flow_logic::{FlowLogic, SlidingLogic, RecoverWithRetriesLogic, SplitAfterLogic, LimitWeightedLogic};
use crate::timed::{bursts, window_groups};
use crate::polling::{Pollable, Ready, PollStep, POLL_BUDGET, polled_steps, awaited, awaited_with, awaited_each};

verus! {

/// Taking the first `n` elements and dropping the first `n` elements split a stream in two:
/// together they give back every element, in order.
pub proof fn lemma_take_and_drop_partition<T>(xs: Seq<T>, end: StreamEnd, n: nat)
    ensures
        spec_take(xs, end, n).0 + spec_drop(xs, n) == xs,
{
    if n <= xs.len() {
        assert(xs.take(n as int) + xs.skip(n as int) =~= xs);
    } else {
        assert(xs + Seq::<T>::empty() =~= xs);
    }
}

/// Flattening a sequence that starts with `first` gives `first` followed by the flattened rest.
pub proof fn lemma_flatten_prepend<T>(first: Seq<T>, rest: Seq<Seq<T>>)
    ensures
        flatten(seq![first] + rest) == first + flatten(rest),
    decreases rest.len(),
{
    if rest.len() == 0 {
        assert(seq![first] + rest =~= seq![first]);
        assert(seq![first].drop_last() =~= Seq::<Seq<T>>::empty());
        assert(flatten(seq![first]) == flatten(seq![first].drop_last()) + first);
        assert(flatten(rest) =~= Seq::<T>::empty());
        assert(Seq::<T>::empty() + first =~= first);
        assert(first + Seq::<T>::empty() =~= first);
    } else {
        let whole = seq![first] + rest;
        assert(whole.drop_last() =~= seq![first] + rest.drop_last());
        assert(whole.last() == rest.last());
        lemma_flatten_prepend(first, rest.drop_last());
        assert(flatten(whole) == flatten(whole.drop_last()) + whole.last());
        assert(flatten(rest) == flatten(rest.drop_last()) + rest.last());
        assert(first + flatten(rest.drop_last()) + rest.last() =~= first + (flatten(rest.drop_last()) + rest.last()));
    }
}

/// Flattening `segs` with one more segment at the end appends that segment.
pub proof fn lemma_flatten_push<T>(segs: Seq<Seq<T>>, last: Seq<T>)
    ensures
        flatten(segs.push(last)) == flatten(segs) + last,
{
    assert(segs.push(last).drop_last() =~= segs);
}

/// Grouping a completed stream into chunks of `n` loses and reorders no element: the chunks,
/// concatenated, give back the stream, and every chunk but the last holds exactly `n` elements.
pub proof fn lemma_grouped_completed_stream_flattens_back<T>(xs: Seq<T>, n: nat)
    requires
        n > 0,
    ensures
        flatten(spec_groups(xs, n, StreamEnd::Completed)) == xs,
        forall|i: int| 0 <= i < spec_groups(xs, n, StreamEnd::Completed).len() - 1
            ==> (#[trigger] spec_groups(xs, n, StreamEnd::Completed)[i]).len() == n,
        forall|i: int| 0 <= i < spec_groups(xs, n, StreamEnd::Completed).len()
            ==> (#[trigger] spec_groups(xs, n, StreamEnd::Completed)[i]).len() > 0,
    decreases xs.len(),
{
    let cs = chunks(xs, n);
    if xs.len() == 0 {
        assert(flatten(cs) =~= xs);
    } else if xs.len() <= n {
        assert(cs == seq![xs]);
        lemma_flatten_prepend(xs, Seq::empty());
        assert(seq![xs] + Seq::<Seq<T>>::empty() =~= seq![xs]);
        assert(xs + Seq::<T>::empty() =~= xs);
    } else {
        let rest = xs.skip(n as int);
        lemma_grouped_completed_stream_flattens_back(rest, n);
        assert(spec_groups(rest, n, StreamEnd::Completed) == chunks(rest, n));
        lemma_flatten_prepend(xs.take(n as int), chunks(rest, n));
        assert(xs.take(n as int) + rest =~= xs);
        assert forall|i: int| 0 <= i < cs.len() implies (#[trigger] cs[i]).len() > 0
            && (i < cs.len() - 1 ==> cs[i].len() == n) by {
            if i > 0 {
                assert(cs[i] == chunks(rest, n)[i - 1]);
            }
        }
    }
}

/// What splitting has produced so far, concatenated, is the stream read so far.
pub proof fn lemma_split_state_covers<T>(xs: Seq<T>, flags: Seq<bool>)
    requires
        flags.len() == xs.len(),
    ensures
        flatten(split_after_state(xs, flags).0) + split_after_state(xs, flags).1 == xs,
        flatten(split_before_state(xs, flags).0) + split_before_state(xs, flags).1 == xs,
    decreases xs.len(),
{
    if xs.len() == 0 {
        assert(Seq::<T>::empty() + Seq::<T>::empty() =~= xs);
    } else {
        let prev = xs.drop_last();
        lemma_split_state_covers(prev, flags.drop_last());
        let (segs, cur) = split_after_state(prev, flags.drop_last());
        lemma_flatten_push(segs, cur.push(xs.last()));
        assert(prev.push(xs.last()) =~= xs);
        assert(flatten(segs) + cur == prev);
        assert(flatten(segs) + cur.push(xs.last()) =~= (flatten(segs) + cur).push(xs.last()));
        assert(flatten(segs) + cur.push(xs.last()) + Seq::<T>::empty() =~= xs);
        let (bsegs, bcur) = split_before_state(prev, flags.drop_last());
        lemma_flatten_push(bsegs, bcur);
        assert(flatten(bsegs) + bcur + seq![xs.last()] =~= xs);
        assert(flatten(bsegs) + bcur.push(xs.last()) =~= xs);
    }
}

/// Splitting a completed stream, before or after the flagged elements, loses and reorders no
/// element: the segments, concatenated, give back the stream.
pub proof fn lemma_split_completed_stream_flattens_back<T>(xs: Seq<T>, flags: Seq<bool>)
    requires
        flags.len() == xs.len(),
    ensures
        flatten(emitted_segments(split_after_state(xs, flags), true)) == xs,
        flatten(emitted_segments(split_before_state(xs, flags), true)) == xs,
{
    lemma_split_state_covers(xs, flags);
    let (segs, cur) = split_after_state(xs, flags);
    lemma_flatten_push(segs, cur);
    assert(flatten(segs) + Seq::<T>::empty() =~= flatten(segs));
    let (bsegs, bcur) = split_before_state(xs, flags);
    lemma_flatten_push(bsegs, bcur);
    assert(flatten(bsegs) + Seq::<T>::empty() =~= flatten(bsegs));
}

/// Keeping the elements a predicate accepts and keeping those it rejects share the stream out:
/// each element goes to exactly one side.
pub proof fn lemma_filter_and_filter_not_partition<T>(xs: Seq<T>, keep: Seq<bool>)
    requires
        keep.len() == xs.len(),
    ensures
        select(xs, keep).len() + select(xs, keep.map_values(|b: bool| !b)).len() == xs.len(),
    decreases xs.len(),
{
    if xs.len() > 0 {
        let rejected = keep.map_values(|b: bool| !b);
        assert(rejected.drop_last() =~= keep.drop_last().map_values(|b: bool| !b));
        lemma_filter_and_filter_not_partition(xs.drop_last(), keep.drop_last());
    }
}

/// `distinct` emits every element of the stream exactly once: its output holds no element twice
/// and holds the same elements as the stream.
pub proof fn lemma_distinct_keeps_each_element_once<T>(xs: Seq<T>)
    ensures
        forall|i: int, j: int| 0 <= i < j < select(xs, first_seen(xs)).len()
            ==> select(xs, first_seen(xs))[i] != select(xs, first_seen(xs))[j],
        forall|x: T| select(xs, first_seen(xs)).contains(x) <==> xs.contains(x),
    decreases xs.len(),
{
    if xs.len() > 0 {
        let prev = xs.drop_last();
        let x = xs.last();
        lemma_distinct_keeps_each_element_once(prev);
        let ys = select(prev, first_seen(prev));
        assert(first_seen(xs).drop_last() =~= first_seen(prev)) by {
            assert forall|k: int| 0 <= k < prev.len() implies first_seen(xs)[k] == first_seen(prev)[k] by {
                assert(xs.take(k) =~= prev.take(k));
            }
        }
        assert(xs.take(prev.len() as int) =~= prev);
        assert(first_seen(xs).last() == !prev.contains(x));
        let zs = select(xs, first_seen(xs));
        assert forall|y: T| zs.contains(y) <==> xs.contains(y) by {
            if xs.contains(y) && y != x {
                let k = choose|k: int| 0 <= k < xs.len() && xs[k] == y;
                assert(prev[k] == y);
            }
            if prev.contains(y) {
                let k = choose|k: int| 0 <= k < prev.len() && prev[k] == y;
                assert(xs[k] == y);
            }
            if !prev.contains(x) {
                assert(zs == ys.push(x));
                if ys.contains(y) {
                    let k = choose|k: int| 0 <= k < ys.len() && ys[k] == y;
                    assert(zs[k] == y);
                }
                if zs.contains(y) && y != x {
                    let k = choose|k: int| 0 <= k < zs.len() && zs[k] == y;
                    assert(ys[k] == y);
                }
                assert(zs[ys.len() as int] == x);
                assert(xs[prev.len() as int] == x);
            } else {
                assert(zs == ys);
                if y == x {
                    let k = choose|k: int| 0 <= k < prev.len() && prev[k] == x;
                    assert(xs[k] == x);
                }
            }
        }
        if !prev.contains(x) {
            assert forall|i: int, j: int| 0 <= i < j < zs.len() implies zs[i] != zs[j] by {
                if j == ys.len() {
                    assert(ys.contains(zs[i]));
                }
            }
        }
    }
}

/// `drop_repeated` never emits the same element twice in a row, and its last element is the
/// stream's last element.
pub proof fn lemma_drop_repeated_has_no_adjacent_duplicates<T>(xs: Seq<T>)
    ensures
        forall|i: int| 0 <= i < select(xs, changed(xs)).len() - 1
            ==> #[trigger] select(xs, changed(xs))[i] != select(xs, changed(xs))[i + 1],
        xs.len() > 0 ==> select(xs, changed(xs)).len() > 0 && select(xs, changed(xs)).last() == xs.last(),
    decreases xs.len(),
{
    if xs.len() > 0 {
        let prev = xs.drop_last();
        let x = xs.last();
        lemma_drop_repeated_has_no_adjacent_duplicates(prev);
        assert(changed(xs).drop_last() =~= changed(prev));
        let ys = select(prev, changed(prev));
        let zs = select(xs, changed(xs));
        if prev.len() == 0 {
            assert(zs == ys.push(x));
        } else {
            assert(changed(xs).last() == (x != prev.last()));
            if x != prev.last() {
                assert(zs == ys.push(x));
                assert forall|i: int| 0 <= i < zs.len() - 1 implies #[trigger] zs[i] != zs[i + 1] by {
                    if i == ys.len() - 1 {
                        assert(zs[i] == ys.last());
                    } else {
                        assert(zs[i] == ys[i]);
                        assert(zs[i + 1] == ys[i + 1]);
                    }
                }
            } else {
                assert(zs == ys);
            }
        }
    }
}

/// Composing stages is associative: running `a` then `b`, then `c`, relates the same streams as
/// running `a`, then `b` then `c`.
pub proof fn lemma_then_associative<In, M1, M2, Out, A: FlowStage<In, M1>, B: FlowStage<M1, M2>, C: FlowStage<M2, Out>>(
    a: A,
    b: B,
    c: C,
    input: StreamBody<In>,
    output: StreamBody<Out>,
)
    ensures
        (Then::<Then<A, B, M1>, C, M2> {
            first: Then::<A, B, M1> { first: a, second: b, _mid: core::marker::PhantomData },
            second: c,
            _mid: core::marker::PhantomData,
        }).yields(input, output) <==> (Then::<A, Then<B, C, M2>, M1> {
            first: a,
            second: Then::<B, C, M2> { first: b, second: c, _mid: core::marker::PhantomData },
            _mid: core::marker::PhantomData,
        }).yields(input, output),
{
    let ab = Then::<A, B, M1> { first: a, second: b, _mid: core::marker::PhantomData };
    let bc = Then::<B, C, M2> { first: b, second: c, _mid: core::marker::PhantomData };
    let left = Then::<Then<A, B, M1>, C, M2> { first: ab, second: c, _mid: core::marker::PhantomData };
    let right = Then::<A, Then<B, C, M2>, M1> { first: a, second: bc, _mid: core::marker::PhantomData };
    assert(left.first == ab && right.second == bc);
    if left.yields(input, output) {
        let m2 = choose|m2: StreamBody<M2>| #[trigger] left.first.yields(input, m2) && left.second.yields(m2, output);
        let m1 = choose|m1: StreamBody<M1>| #[trigger] ab.first.yields(input, m1) && ab.second.yields(m1, m2);
        assert(bc.first.yields(m1, m2) && bc.second.yields(m2, output));
        assert(right.first.yields(input, m1) && right.second.yields(m1, output));
    }
    if right.yields(input, output) {
        let m1 = choose|m1: StreamBody<M1>| #[trigger] right.first.yields(input, m1) && right.second.yields(m1, output);
        let m2 = choose|m2: StreamBody<M2>| #[trigger] bc.first.yields(m1, m2) && bc.second.yields(m2, output);
        assert(ab.first.yields(input, m1) && ab.second.yields(m1, m2));
        assert(left.first.yields(input, m2) && left.second.yields(m2, output));
    }
}

/// The identity stage is neutral on the left: running it first and then `a` relates the same
/// streams as `a` alone.
pub proof fn lemma_identity_then<In, Out, A: FlowStage<In, Out>>(a: A, input: StreamBody<In>, output: StreamBody<Out>)
    ensures
        (Then::<Identity, A, In> { first: Identity, second: a, _mid: core::marker::PhantomData }).yields(input, output)
            <==> a.yields(input, output),
{
    let t = Then::<Identity, A, In> { first: Identity, second: a, _mid: core::marker::PhantomData };
    if t.yields(input, output) {
        let m = choose|m: StreamBody<In>| #[trigger] t.first.yields(input, m) && t.second.yields(m, output);
    }
    if a.yields(input, output) {
        assert(<Identity as FlowStage<In, In>>::yields(&t.first, input, input));
        assert(t.first.yields(input, input) && t.second.yields(input, output));
    }
}

/// The identity stage is neutral on the right: running `a` and then the identity relates the same
/// streams as `a` alone.
pub proof fn lemma_then_identity<In, Out, A: FlowStage<In, Out>>(a: A, input: StreamBody<In>, output: StreamBody<Out>)
    ensures
        (Then::<A, Identity, Out> { first: a, second: Identity, _mid: core::marker::PhantomData }).yields(input, output)
            <==> a.yields(input, output),
{
    let t = Then::<A, Identity, Out> { first: a, second: Identity, _mid: core::marker::PhantomData };
    if t.yields(input, output) {
        let m = choose|m: StreamBody<Out>| #[trigger] t.first.yields(input, m) && t.second.yields(m, output);
    }
    if a.yields(input, output) {
        assert(<Identity as FlowStage<Out, Out>>::yields(&t.second, output, output));
        assert(t.first.yields(input, output) && t.second.yields(output, output));
    }
}

/// A flow made with `Flow::new` passes every stream through unchanged and leaves the
/// materialized value as it is.
pub proof fn lemma_new_flow_passes_everything<T, M>(input: StreamBody<T>, before: M, output: StreamBody<T>, after: M)
    requires <Identity as MatStage<T, T, M>>::runs(&Identity, input, before, output, after),
    ensures output == input, after == before,
{
}

/// `scan` emits one value more than the stream has elements, and the first is the initial
/// accumulator.
pub proof fn lemma_scan_shape<A: Clone, T, F: FnMut(A, T) -> A>(f: F, init: A, xs: Seq<T>, ys: Seq<A>)
    requires scanned_by(f, init, xs, ys),
    ensures ys.len() == xs.len() + 1, cloned(init, ys[0]),
{
    let accs = choose|accs: Seq<A>| #![auto] scan_trace(f, init, xs, accs) && clones_of(accs, ys);
    assert(cloned(accs[0], ys[0]));
}

/// `fold` emits what `scan` emits without its first value, the initial accumulator.
pub proof fn lemma_fold_is_scan_without_initial<A: Clone, T, F: FnMut(A, T) -> A>(f: F, init: A, xs: Seq<T>, ys: Seq<A>)
    requires scanned_by(f, init, xs, ys),
    ensures folded_by(f, init, xs, ys.drop_first()),
{
    let accs = choose|accs: Seq<A>| #![auto] scan_trace(f, init, xs, accs) && clones_of(accs, ys);
    assert forall|i: int| 0 <= i < accs.drop_first().len() implies cloned(accs.drop_first()[i], #[trigger] ys.drop_first()[i]) by {
        assert(cloned(accs[i + 1], ys[i + 1]));
    }
    assert(clones_of(accs.drop_first(), ys.drop_first()));
}

/// `reduce` emits one value per element, and the first is the first element itself: the
/// reduction is seeded with it.
pub proof fn lemma_reduce_seeded_by_first<T: Clone, F: FnMut(T, T) -> T>(f: F, xs: Seq<T>, ys: Seq<T>)
    requires reduced_by(f, xs, ys),
    ensures
        ys.len() == xs.len(),
        xs.len() > 0 ==> cloned(xs[0], ys[0]),
{
    if xs.len() > 0 {
        let accs = choose|accs: Seq<T>| #![auto] scan_trace(f, xs[0], xs.drop_first(), accs) && clones_of(accs, ys);
        assert(cloned(accs[0], ys[0]));
    }
}

/// Errors in a prefix are never more than errors in a longer prefix.
proof fn lemma_error_count_grows<T, E>(xs: Seq<Result<T, E>>, i: int, j: int)
    requires 0 <= i <= j <= xs.len(),
    ensures error_count(xs.take(i)) <= error_count(xs.take(j)),
    decreases j - i,
{
    if i < j {
        lemma_error_count_grows(xs, i, j - 1);
        assert(xs.take(j).drop_last() =~= xs.take(j - 1));
    }
}

/// `recover_with_retries` replaces every error with the fallback while the stream holds at most
/// `max_retries` errors, and fails the stream once it holds more.
pub proof fn lemma_recover_with_retries_budget<T: Clone>(stage: RecoverWithRetriesStage<T>,
    input: StreamBody<Result<T, StreamError>>, output: StreamBody<T>)
    requires stage.yields(input, output),
    ensures
        error_count(input.elements@) <= stage.max_retries ==>
            recovered_with(input.elements@, stage.fallback, output.elements@) && output.end == input.end,
        error_count(input.elements@) > stage.max_retries ==> output.end == StreamEnd::Failed(StreamError::Failed),
{
    let xs = input.elements@;
    let n = output.elements@.len() as int;
    assert(xs.take(xs.len() as int) =~= xs);
    if n < xs.len() {
        lemma_error_count_grows(xs, n + 1, xs.len() as int);
        assert(xs.take(n + 1).drop_last() =~= xs.take(n));
        assert(xs.take(n + 1).last() == xs[n]);
    }
}

/// Keying a selection of the elements selects the same keys.
proof fn lemma_keyed_select<T, K, F: FnMut(&T) -> K>(f: F, xs: Seq<T>, ks: Seq<K>, keep: Seq<bool>)
    requires keyed_by(f, xs, ks), keep.len() == xs.len(),
    ensures keyed_by(f, select(xs, keep), select(ks, keep)),
    decreases xs.len(),
{
    if xs.len() > 0 {
        lemma_keyed_select(f, xs.drop_last(), ks.drop_last(), keep.drop_last());
        let prev = select(xs.drop_last(), keep.drop_last());
        if keep.last() {
            assert forall|i: int| 0 <= i < select(xs, keep).len() implies
                call_ensures(f, (&select(xs, keep)[i],), #[trigger] select(ks, keep)[i]) by {
                if i < prev.len() {
                    assert(select(xs, keep)[i] == prev[i]);
                } else {
                    assert(call_ensures(f, (&xs[xs.len() - 1],), ks[xs.len() - 1]));
                }
            }
        }
    }
}

/// `distinct_by` keeps, in order, the first element for each key: the keys of what it emits
/// occur once each, and they are exactly the keys of the stream.
pub proof fn lemma_distinct_by_keeps_first_per_key<T, K, F: FnMut(&T) -> K>(f: F, xs: Seq<T>, ks: Seq<K>)
    requires keyed_by(f, xs, ks),
    ensures
        keyed_by(f, select(xs, first_seen(ks)), select(ks, first_seen(ks))),
        forall|i: int, j: int| 0 <= i < j < select(ks, first_seen(ks)).len()
            ==> select(ks, first_seen(ks))[i] != select(ks, first_seen(ks))[j],
        forall|k: K| select(ks, first_seen(ks)).contains(k) <==> ks.contains(k),
{
    lemma_keyed_select(f, xs, ks, first_seen(ks));
    lemma_distinct_keeps_each_element_once(ks);
}

/// A stream in which no two neighbours arrive at the same step has no bursts: every element is a
/// burst of its own, so conflating it applies the seed to each element alone.
pub proof fn lemma_no_bursts_without_shared_steps<T>(xs: Seq<T>, arr: Seq<int>)
    requires
        arr.len() == xs.len(),
        forall|i: int| 0 < i < arr.len() ==> #[trigger] arr[i] != arr[i - 1],
    ensures
        bursts(xs, arr).len() == xs.len(),
        forall|i: int| 0 <= i < xs.len() ==> #[trigger] bursts(xs, arr)[i] == seq![xs[i]],
    decreases xs.len(),
{
    if xs.len() > 0 {
        let p = xs.drop_last();
        let pa = arr.drop_last();
        assert forall|i: int| 0 < i < pa.len() implies #[trigger] pa[i] != pa[i - 1] by {
            assert(pa[i] == arr[i] && pa[i - 1] == arr[i - 1]);
        }
        lemma_no_bursts_without_shared_steps(p, pa);
        if xs.len() > 1 {
            assert(arr[xs.len() - 1] != arr[xs.len() - 2]);
        }
        assert forall|i: int| 0 <= i < xs.len() implies #[trigger] bursts(xs, arr)[i] == seq![xs[i]] by {
            if i < p.len() {
                assert(bursts(xs, arr)[i] == bursts(p, pa)[i]);
                assert(p[i] == xs[i]);
            }
        }
    }
}

/// `grouped_within` loses and reorders no element: its groups, concatenated, give back the
/// stream, and every group holds between one and `size` elements.
pub proof fn lemma_window_groups_flatten_back<T>(xs: Seq<T>, arr: Seq<int>, size: nat, ticks: int)
    requires size > 0, arr.len() == xs.len(),
    ensures
        flatten(window_groups(xs, arr, size, ticks).0) == xs,
        forall|i: int| 0 <= i < window_groups(xs, arr, size, ticks).0.len()
            ==> 0 < #[trigger] window_groups(xs, arr, size, ticks).0[i].len() <= size,
    decreases xs.len(),
{
    if xs.len() > 0 {
        let p = xs.drop_last();
        let pa = arr.drop_last();
        lemma_window_groups_flatten_back(p, pa, size, ticks);
        let (gs, start) = window_groups(p, pa, size, ticks);
        let x = xs.last();
        let t = arr[xs.len() - 1];
        let r = window_groups(xs, arr, size, ticks).0;
        if gs.len() > 0 && gs.last().len() < size && t - start < ticks {
            let g2 = gs.last().push(x);
            assert(r == gs.update(gs.len() - 1, g2));
            assert(r =~= gs.drop_last().push(g2));
            lemma_flatten_push(gs.drop_last(), g2);
            assert(gs =~= gs.drop_last().push(gs.last()));
            lemma_flatten_push(gs.drop_last(), gs.last());
            assert(flatten(gs.drop_last()) + g2 =~= flatten(gs.drop_last()) + gs.last() + seq![x]);
            assert(p.push(x) =~= xs);
            assert(flatten(gs) + seq![x] =~= p.push(x));
        } else {
            assert(r == gs.push(seq![x]));
            lemma_flatten_push(gs, seq![x]);
            assert(p + seq![x] =~= xs);
        }
    }
}

/// A computation that is ready with `v` gives `v` when it is waited on.
pub proof fn lemma_ready_resolves_at_once<T>(v: T, r: Option<T>)
    requires awaited(Ready { value: Some(v) }, r),
    ensures r == Some(v),
{
    let p = Ready { value: Some(v) };
    let steps = choose|steps: Seq<PollStep<Ready<T>, T>>| #[trigger] polled_steps(p, steps) && {
        &&& 1 <= steps.len() <= POLL_BUDGET + 1
        &&& r == steps.last().1
        &&& r is None ==> steps.len() == POLL_BUDGET + 1
    };
    assert(steps[0].0.polls(steps[0].1, steps[0].2));
    if steps.len() > 1 {
        assert(steps[0].1 is None);
    }
}

/// `map_async` emits, in input order, what waiting on the computation made for each element
/// gives, whichever computation finishes first: the `i`-th output comes from the `i`-th input.
pub proof fn lemma_map_async_keeps_input_order<A, B, P: Pollable<B>, F: FnMut(A) -> P>(f: F, xs: Seq<A>, ys: Seq<B>)
    requires awaited_each::<A, B, P, F>(f, xs, ys),
    ensures
        ys.len() <= xs.len(),
        exists|cs: Seq<P>| #![trigger cs.len()] cs.len() >= ys.len() && forall|i: int| #![trigger cs[i]] 0 <= i < ys.len()
            ==> call_ensures(f, (xs[i],), cs[i]) && awaited(cs[i], Some(ys[i])),
{
    let cs = choose|cs: Seq<P>| #[trigger] awaited_with::<A, B, P, F>(f, xs, ys, cs) && {
        &&& ys.len() == xs.len() ==> cs.len() == ys.len()
        &&& ys.len() < xs.len() ==> cs.len() == ys.len() + 1 && awaited(cs.last(), None::<B>)
    };
    assert(cs.len() >= ys.len());
}

/// `group_by` with room for at least one substream passes a one-element stream on whole, so
/// merging the substreams back gives that element.
pub proof fn lemma_group_by_passes_single_element<T, K: GroupKey, F: FnMut(&T) -> K>(stage: GroupByStage<F>,
    input: StreamBody<T>, output: StreamBody<T>)
    requires
        stage.max_substreams > 0,
        input.elements@.len() == 1,
        <GroupByStage<F> as FlowStage<T, T>>::yields(&stage, input, output),
    ensures
        output.elements@ == input.elements@,
        output.end == input.end,
{
    let xs = input.elements@;
    let k = choose|k: int| #![auto] admitted(stage.key_fn, xs, stage.max_substreams as nat, k)
        && output.elements@ == xs.take(k)
        && output.end == (if k < xs.len() {
            StreamEnd::Failed(StreamError::SubstreamLimitExceeded { max_substreams: stage.max_substreams })
        } else {
            input.end
        });
    if k == 0 {
        let ks = choose|ks: Seq<K>| #![auto] keyed_by(stage.key_fn, xs.take(1), ks)
            && distinct_keys(ks.take(0)).len() <= stage.max_substreams as nat
            && (0 < xs.len() ==> distinct_keys(ks).len() > stage.max_substreams as nat);
        assert(ks.len() == 1);
        assert(ks.drop_last() =~= Seq::<K>::empty());
        assert(distinct_keys(ks.drop_last()) =~= Seq::<K>::empty());
        assert(distinct_keys(ks).len() == 1);
    }
    assert(xs.take(1) =~= xs);
}

/// A flow connected with `to_mat` to a collecting sink, keeping the sink's value, collects what
/// the flow emits: once a stream has run through, the completion holds the flow's output
/// elements when that output completed, its failure when it failed, and nothing when it stalled.
pub proof fn lemma_flow_into_collect_gathers_its_output<In, Mid, Mat, S: FlowStage<In, Mid>>(
    logic: FlowSinkLogic<S, CollectSink, (KeepRight, Mat, StreamCompletion<Vec<Mid>>), Mid>,
    input: StreamBody<In>, before: StreamCompletion<Vec<Mid>>, after: StreamCompletion<Vec<Mid>>)
    requires
        before.spec_result() is None,
        <FlowSinkLogic<S, CollectSink, (KeepRight, Mat, StreamCompletion<Vec<Mid>>), Mid> as SinkStage<In, StreamCompletion<Vec<Mid>>>>::settles(
            &logic, input, before, after),
    ensures
        exists|mid: StreamBody<Mid>| #[trigger] logic.stage.yields(input, mid)
            && after.spec_result() == outcome_of(mid.end, mid.elements),
{
    let mid = choose|mid: StreamBody<Mid>| #[trigger] logic.stage.yields(input, mid)
        && <KeepRight as SettleRight<Mat, StreamCompletion<Vec<Mid>>, Mid, CollectSink>>::right_settled(before, logic.logic, mid, after);
    assert(logic.stage.yields(input, mid) && after.spec_result() == outcome_of(mid.end, mid.elements));
}

/// `merge_preferred` takes from a later lane only while the preferred lane (the first) is empty:
/// the lane it takes from is the first one that holds an element.
pub proof fn lemma_merge_preferred_prefers_the_first_lane<T>(ls: Seq<Seq<T>>, i: int)
    requires first_non_empty(ls, i),
    ensures
        ls.len() > 0 && ls[0].len() > 0 ==> i == 0,
        i > 0 ==> ls[0].len() == 0,
{
    if i > 0 {
        assert(ls[0].len() == 0);
    }
}

/// A flow with a side sink attached by `also_to_mat`, keeping the sink's value, passes the same
/// elements as the flow alone, and the sink consumes a copy of every one of them: its value is
/// what consuming those copies settles.
pub proof fn lemma_also_to_feeds_the_side_sink<In, Out: Clone, Mat, Mat2, S: FlowStage<In, Out>, L: SinkStage<Out, Mat2>>(
    stage: AlsoToStage<S, L, (KeepRight, Mat, Mat2)>, input: StreamBody<In>, before: Mat2, output: StreamBody<Out>, after: Mat2)
    requires
        <AlsoToStage<S, L, (KeepRight, Mat, Mat2)> as MatStage<In, Out, Mat2>>::runs(&stage, input, before, output, after),
    ensures
        stage.inner.yields(input, output),
        exists|copy: StreamBody<Out>| #[trigger] stage.logic.settles(copy, before, after)
            && clones_of(output.elements@, copy.elements@) && copy.end == output.end,
{
    let copy = choose|copy: StreamBody<Out>| #[trigger] <KeepRight as SettleRight<Mat, Mat2, Out, L>>::right_settled(
        before, stage.logic, copy, after) && clones_of(output.elements@, copy.elements@) && copy.end == output.end;
    assert(stage.logic.settles(copy, before, after));
}

/// A full `DropOldest` buffer that takes a new element discards its oldest one: it keeps the
/// others in order, shifted one place to the front, and holds the new element last.
pub proof fn lemma_drop_oldest_discards_the_oldest<T>(items: Seq<T>, capacity: usize, value: T,
    outcome: Result<OfferOutcome, StreamError>, after: Seq<T>)
    requires
        offered(items, capacity, OverflowPolicy::DropOldest, value, outcome, after),
        items.len() >= capacity,
        items.len() > 0,
    ensures
        outcome == Ok::<OfferOutcome, StreamError>(OfferOutcome::DroppedOldest),
        after.len() == items.len(),
        forall|i: int| 0 <= i < items.len() - 1 ==> #[trigger] after[i] == items[i + 1],
        after[items.len() - 1] == value,
{
}

/// Offering values one by one to an empty `DropOldest` buffer of capacity `capacity > 0` leaves it
/// holding the last `capacity` of them (all of them while they fit), in order, so polling it that
/// many times gives them back oldest first.
pub proof fn lemma_drop_oldest_keeps_the_newest<T>(capacity: usize, values: Seq<T>)
    requires capacity > 0,
    ensures
        values.len() <= capacity ==> after_offers(Seq::empty(), capacity, OverflowPolicy::DropOldest, values) == values,
        values.len() > capacity ==> after_offers(Seq::empty(), capacity, OverflowPolicy::DropOldest, values)
            == values.subrange(values.len() - capacity, values.len() as int),
        values.len() > capacity ==> polled(after_offers(Seq::empty(), capacity, OverflowPolicy::DropOldest, values),
            capacity as nat) == values.subrange(values.len() - capacity, values.len() as int),
    decreases values.len(),
{
    if values.len() > 0 {
        let prev = values.drop_last();
        let x = values.last();
        lemma_drop_oldest_keeps_the_newest(capacity, prev);
        let before = after_offers(Seq::empty(), capacity, OverflowPolicy::DropOldest, prev);
        if prev.len() < capacity {
            assert(prev.push(x) =~= values);
        } else if prev.len() == capacity {
            assert(before == prev);
            assert(prev.drop_first().push(x) =~= values.subrange(values.len() - capacity, values.len() as int));
        } else {
            assert(before == prev.subrange(prev.len() - capacity, prev.len() as int));
            assert(before.drop_first().push(x) =~= values.subrange(values.len() - capacity, values.len() as int));
        }
    }
    if values.len() > capacity {
        lemma_polled_all(values.subrange(values.len() - capacity, values.len() as int));
    }
}

/// A sliding logic of size `size > 0` whose window holds fewer than `size` elements keeps it that
/// way: the element joins the window; when that fills it, the full window is emitted once (as
/// clones) and the logic keeps its last `size - 1` elements, the oldest one dropped; otherwise
/// nothing is emitted.
pub proof fn lemma_sliding_emits_each_full_window<In: Clone>(logic: SlidingLogic<In>, input: In,
    result: Result<Vec<Vec<In>>, StreamError>, after: SlidingLogic<In>)
    requires
        logic.size > 0,
        logic.window@.len() < logic.size,
        logic.applies(input, result, after),
    ensures
        after.size == logic.size,
        after.window@.len() < after.size,
        logic.window@.len() + 1 == logic.size ==> (result matches Ok(v) && v@.len() == 1
            && v@[0]@.len() == logic.size
            && (forall|i: int| 0 <= i < logic.window@.len() ==> cloned(logic.window@[i], #[trigger] v@[0]@[i]))
            && cloned(input, v@[0]@[logic.window@.len() as int])
            && after.window@.len() == logic.size - 1
            && (forall|i: int| 0 <= i < logic.size - 2 ==> #[trigger] after.window@[i] == logic.window@[i + 1])
            && (logic.size > 1 ==> after.window@[logic.size - 2] == input)),
        logic.window@.len() + 1 < logic.size ==> (result matches Ok(v) && v@.len() == 0
            && after.window@.len() == logic.window@.len() + 1
            && (forall|i: int| 0 <= i < logic.window@.len() ==> #[trigger] after.window@[i] == logic.window@[i])
            && after.window@[logic.window@.len() as int] == input),
{
    let grown = logic.window@.push(input);
    if grown.len() == logic.size {
        if let Ok(v) = result {
            assert(clones_of(grown, v@[0]@));
            assert forall|i: int| 0 <= i < logic.window@.len() implies cloned(logic.window@[i], #[trigger] v@[0]@[i]) by {
                assert(grown[i] == logic.window@[i]);
            }
            assert(grown[logic.window@.len() as int] == input);
        }
        assert forall|i: int| 0 <= i < logic.size - 2 implies #[trigger] after.window@[i] == logic.window@[i + 1] by {
            assert(after.window@[i] == grown.drop_first()[i]);
        }
    }
}

/// A recovering logic never gets retries back from the elements it passes: an element that is no
/// error leaves the budget as it is, and every fallback it emits spends one retry, so the retries
/// left plus the fallbacks emitted by a call equal the retries left before it. Once no retry is
/// left, an error fails.
pub proof fn lemma_recover_spends_one_retry_per_fallback<In: Clone>(logic: RecoverWithRetriesLogic<In>,
    input: Result<In, StreamError>, result: Result<Vec<In>, StreamError>, after: RecoverWithRetriesLogic<In>)
    requires logic.applies(input, result, after),
    ensures
        after.max_retries == logic.max_retries,
        after.retries_left <= logic.retries_left,
        after.retries_left + (if input is Err && result is Ok { 1int } else { 0int }) == logic.retries_left,
        input is Ok ==> after.retries_left == logic.retries_left,
        input is Err && logic.retries_left == 0 ==> result == Err::<Vec<In>, StreamError>(StreamError::Failed),
{
}

/// Splitting after accepted elements closes a segment after every element the predicate
/// accepts, whether or not a segment was open: the segment emitted is the pending one followed
/// by the element, and nothing stays pending. An element the predicate rejects is kept pending
/// and nothing is emitted.
pub proof fn lemma_split_after_closes_at_every_accepted_element<In, F: FnMut(&In) -> bool>(logic: SplitAfterLogic<In, F>,
    input: In, result: Result<Vec<Vec<In>>, StreamError>, after: SplitAfterLogic<In, F>)
    requires logic.applies(input, result, after),
    ensures
        (forall|b: bool| call_ensures(logic.predicate, (&input,), b) ==> b) ==>
            (result matches Ok(v) && v@.len() == 1 && v@[0]@.len() == logic.current@.len() + 1
            && v@[0]@.last() == input
            && (forall|i: int| 0 <= i < logic.current@.len() ==> #[trigger] v@[0]@[i] == logic.current@[i])
            && after.current@.len() == 0),
        (forall|b: bool| call_ensures(logic.predicate, (&input,), b) ==> !b) ==>
            (result matches Ok(v) && v@.len() == 0 && after.current@.len() == logic.current@.len() + 1
            && after.current@.last() == input),
{
    let split = choose|split: bool| #[trigger] call_ensures(logic.predicate, (&input,), split)
        && after.predicate == logic.predicate && after.source_done == logic.source_done
        && if split {
            (result matches Ok(v) && v@.len() == 1 && v@[0]@ == logic.current@.push(input)) && after.current@.len() == 0
        } else {
            (result matches Ok(v) && v@.len() == 0) && after.current@ == logic.current@.push(input)
        };
    if let Ok(v) = result {
        if split {
            assert forall|i: int| 0 <= i < logic.current@.len() implies #[trigger] v@[0]@[i] == logic.current@[i] by {
                assert(logic.current@.push(input)[i] == logic.current@[i]);
            }
        }
    }
}

/// A weight limit passes an element whose weight fits the remaining budget, even when it uses
/// the budget up, and lowers the budget by that weight; an element heavier than what remains is
/// refused and closes the budget.
pub proof fn lemma_limit_weighted_passes_what_fits<In, FW: FnMut(&In) -> usize>(logic: LimitWeightedLogic<FW>, input: In,
    weight: usize, result: Result<Vec<In>, StreamError>, after: LimitWeightedLogic<FW>)
    requires
        logic.applies(input, result, after),
        call_ensures(logic.weight_fn, (&input,), weight),
        forall|w: usize| call_ensures(logic.weight_fn, (&input,), w) ==> w == weight,
    ensures
        0 < logic.remaining && weight <= logic.remaining ==> (result matches Ok(v) && v@.len() == 1 && v@[0] == input
            && after.remaining + weight == logic.remaining),
        weight > logic.remaining ==> (result matches Ok(v) && v@.len() == 0 && after.remaining == 0),
        after.remaining <= logic.remaining,
{
}

/// A buffer with room appends the offered element after the ones it holds. A full buffer keeps
/// what it holds and refuses the element under `Block`, discards the element under `DropNewest`,
/// and under `Grow` appends it and reports its new length.
pub proof fn lemma_offer_by_policy<T>(items: Seq<T>, capacity: usize, policy: OverflowPolicy, value: T,
    outcome: Result<OfferOutcome, StreamError>, after: Seq<T>)
    requires offered(items, capacity, policy, value, outcome, after),
    ensures
        items.len() < capacity ==> (outcome is Ok && after.len() == items.len() + 1 && after.last() == value
            && forall|i: int| 0 <= i < items.len() ==> #[trigger] after[i] == items[i]),
        items.len() >= capacity && policy == OverflowPolicy::Block ==>
            (outcome == Err::<OfferOutcome, StreamError>(StreamError::BufferOverflow) && after =~= items),
        items.len() >= capacity && policy == OverflowPolicy::DropNewest ==>
            (outcome == Ok::<OfferOutcome, StreamError>(OfferOutcome::DroppedNewest) && after =~= items),
        items.len() >= capacity && policy == OverflowPolicy::Grow ==>
            (after.len() == items.len() + 1 && after.last() == value
            && outcome == Ok::<OfferOutcome, StreamError>(OfferOutcome::GrewTo { len: after.len() as usize })
            && forall|i: int| 0 <= i < items.len() ==> #[trigger] after[i] == items[i]),
{
}

/// Restarting a recovering logic gives it its whole retry budget back.
pub proof fn lemma_recover_restart_refills_the_budget<In: Clone>(logic: RecoverWithRetriesLogic<In>,
    result: Result<(), StreamError>, after: RecoverWithRetriesLogic<In>)
    requires <RecoverWithRetriesLogic<In> as FlowLogic<Result<In, StreamError>, In>>::restarts(&logic, result, after),
    ensures result is Ok, after.retries_left == after.max_retries, after.max_retries == logic.max_retries,
{
}

} // verus!
