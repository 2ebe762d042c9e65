//! Secondary sources run beside a flow: concatenated after it, prepended before it, or used as
//! its alternative when it emits nothing.
use vstd::prelude::*;
use crate::body::StreamEnd;
use crate::error::StreamError;
use crate::source::Source;

verus! {

/// What a bridge still holds: the undelivered elements, how the secondary stream ends, and
/// whether its end has been observed.
pub type BridgeView<Out> = (Seq<Out>, StreamEnd, bool);

/// A running secondary source whose elements are pulled one at a time.
pub struct SecondarySourceBridge<Out> {
    queue: Vec<Out>,
    end: StreamEnd,
    finished: bool,
}

impl<Out> View for SecondarySourceBridge<Out> {
    type V = BridgeView<Out>;

    closed spec fn view(&self) -> BridgeView<Out> {
        (self.queue@, self.end, self.finished)
    }
}

/// The bridge of a secondary source that has just been started.
pub open spec fn fresh_bridge<Out, Mat>(source: Source<Out, Mat>) -> BridgeView<Out> {
    (source.body.elements@, source.body.end, false)
}

/// One pull from a bridge: the next element, then the end of the secondary stream (a failure
/// is reported on every later pull; a stalled stream keeps answering that nothing is ready).
pub open spec fn poll_step<Out>(b: BridgeView<Out>) -> (Result<Option<Out>, StreamError>, BridgeView<Out>) {
    if b.0.len() > 0 {
        (Ok(Some(b.0[0])), (b.0.drop_first(), b.1, b.2))
    } else {
        match b.1 {
            StreamEnd::Completed => (Ok(None), (b.0, b.1, true)),
            StreamEnd::Failed(e) => (Err(e), (b.0, b.1, true)),
            StreamEnd::Stalled => (Ok(None), b),
        }
    }
}

/// Whether a bridge may still deliver something.
pub open spec fn bridge_pending<Out>(b: BridgeView<Out>) -> bool {
    b.0.len() > 0 || !b.2
}

/// The elements delivered by `k` pulls from `b` that deliver elements, and the bridge after them.
pub open spec fn poll_times<Out>(b: BridgeView<Out>, k: nat) -> (Seq<Out>, BridgeView<Out>)
    decreases k,
{
    if k == 0 {
        (Seq::empty(), b)
    } else {
        let (delivered, rest) = poll_times(b, (k - 1) as nat);
        match poll_step(rest).0 {
            Ok(Some(v)) => (delivered.push(v), poll_step(rest).1),
            _ => (delivered, poll_step(rest).1),
        }
    }
}

/// A secondary source delivers exactly its elements, in order, one per pull; the pull after the
/// last element reports how the source ended: nothing more for a completed or stalled source,
/// the error for a failed one.
pub proof fn lemma_bridge_delivers_in_order<Out, Mat>(source: Source<Out, Mat>, k: nat)
    requires
        k <= source.body.elements@.len(),
    ensures
        poll_times(fresh_bridge(source), k).0 == source.body.elements@.take(k as int),
        poll_times(fresh_bridge(source), k).1 == (source.body.elements@.skip(k as int), source.body.end, false),
        k == source.body.elements@.len() ==> match source.body.end {
            StreamEnd::Failed(e) => poll_step(poll_times(fresh_bridge(source), k).1).0 == Err::<Option<Out>, StreamError>(e),
            _ => poll_step(poll_times(fresh_bridge(source), k).1).0 == Ok::<Option<Out>, StreamError>(None),
        },
    decreases k,
{
    let xs = source.body.elements@;
    if k == 0 {
        assert(xs.skip(0) == xs);
    } else {
        lemma_bridge_delivers_in_order(source, (k - 1) as nat);
        let rest = poll_times(fresh_bridge(source), (k - 1) as nat).1;
        assert(rest.0 == xs.skip(k - 1));
        assert(rest.0[0] == xs[k - 1]);
        assert(rest.0.drop_first() == xs.skip(k as int));
        assert(xs.take(k - 1).push(xs[k - 1]) == xs.take(k as int));
    }
}

impl<Out> SecondarySourceBridge<Out> {
    /// Starts running `source`.
    pub fn new<Mat>(source: Source<Out, Mat>) -> (r: Self)
        ensures r@ == fresh_bridge(source),
    {
        SecondarySourceBridge { queue: source.body.elements, end: source.body.end, finished: false }
    }

    /// Pulls the next element of the secondary source, if one is ready.
    pub fn poll_next(&mut self) -> (r: Result<Option<Out>, StreamError>)
        ensures (r, final(self)@) == poll_step(old(self)@),
    {
        if self.queue.len() > 0 {
            return Ok(Some(self.queue.remove(0)));
        }
        match self.end {
            StreamEnd::Completed => {
                self.finished = true;
                Ok(None)
            },
            StreamEnd::Failed(e) => {
                self.finished = true;
                Err(e)
            },
            StreamEnd::Stalled => Ok(None),
        }
    }

    /// Whether elements remain or the end has not been observed yet.
    pub fn has_pending_output(&self) -> (r: bool)
        ensures r == bridge_pending(self@),
    {
        self.queue.len() > 0 || !self.finished
    }
}

/// The view of an optional bridge.
pub open spec fn runtime_view<Out>(runtime: Option<SecondarySourceBridge<Out>>) -> Option<BridgeView<Out>> {
    match runtime {
        Some(b) => Some(b@),
        None => None,
    }
}

/// The bridge after starting the secondary source, when it has not been started yet.
pub open spec fn started<Out, Mat>(secondary: Option<Source<Out, Mat>>, runtime: Option<BridgeView<Out>>) -> Option<BridgeView<Out>> {
    match runtime {
        Some(b) => Some(b),
        None => match secondary {
            Some(source) => Some(fresh_bridge(source)),
            None => None,
        },
    }
}

/// The secondary source left unstarted after starting it when needed.
pub open spec fn left_unstarted<Out, Mat>(secondary: Option<Source<Out, Mat>>, runtime: Option<BridgeView<Out>>) -> Option<Source<Out, Mat>> {
    if runtime is None { None } else { secondary }
}

/// One pull from an optional bridge.
pub open spec fn pulled<Out>(runtime: Option<BridgeView<Out>>) -> (Result<Option<Out>, StreamError>, Option<BridgeView<Out>>) {
    match runtime {
        Some(b) => (poll_step(b).0, Some(poll_step(b).1)),
        None => (Ok(None), None),
    }
}

/// `queue` with `next` appended when it is present.
pub open spec fn queued<Out>(queue: Seq<Out>, next: Option<Out>) -> Seq<Out> {
    match next {
        Some(v) => queue.push(v),
        None => queue,
    }
}

/// Starts the secondary source if needed and pulls from it, queueing what it delivers.
fn pull_secondary<Out, Mat>(
    secondary: &mut Option<Source<Out, Mat>>,
    runtime: &mut Option<SecondarySourceBridge<Out>>,
    queue: &mut Vec<Out>,
) -> (r: Result<(), StreamError>)
    ensures
        *final(secondary) == left_unstarted(*old(secondary), runtime_view(*old(runtime))),
        runtime_view(*final(runtime)) == pulled(started(*old(secondary), runtime_view(*old(runtime)))).1,
        ({
            let pulled_result = pulled(started(*old(secondary), runtime_view(*old(runtime)))).0;
            match pulled_result {
                Ok(next) => r is Ok && final(queue)@ == queued(old(queue)@, next),
                Err(e) => r == Err::<(), StreamError>(e) && final(queue)@ == old(queue)@,
            }
        }),
{
    if runtime.is_none() {
        if let Some(source) = secondary.take() {
            *runtime = Some(SecondarySourceBridge::new(source));
        }
    }
    match runtime {
        Some(bridge) => {
            match bridge.poll_next() {
                Ok(Some(v)) => {
                    queue.push(v);
                    Ok(())
                },
                Ok(None) => Ok(()),
                Err(e) => Err(e),
            }
        },
        None => Ok(()),
    }
}

/// Emits the primary stream, then the secondary one.
pub struct ConcatSourceLogic<Out, Mat> {
    pub secondary: Option<Source<Out, Mat>>,
    pub secondary_runtime: Option<SecondarySourceBridge<Out>>,
    pub pending: Vec<Out>,
    pub source_done: bool,
}

impl<Out, Mat> ConcatSourceLogic<Out, Mat> {
    /// Creates the logic with the secondary source not started.
    pub fn new(secondary: Source<Out, Mat>) -> (r: Self)
        ensures r.secondary == Some(secondary), r.secondary_runtime is None, r.pending@.len() == 0, !r.source_done,
    {
        ConcatSourceLogic { secondary: Some(secondary), secondary_runtime: None, pending: Vec::new(), source_done: false }
    }

    /// Passes a primary element through.
    pub fn apply(&mut self, input: Out) -> (r: Vec<Out>)
        ensures r@ == seq![input], *final(self) == *old(self),
    {
        let mut out: Vec<Out> = Vec::new();
        out.push(input);
        out
    }

    /// Records that the primary stream has finished.
    pub fn on_source_done(&mut self)
        ensures *final(self) == (ConcatSourceLogic { source_done: true, ..*old(self) }),
    {
        self.source_done = true;
    }

    /// Drops what is queued and stops the secondary source.
    pub fn on_downstream_cancel(&mut self)
        ensures
            final(self).pending@.len() == 0,
            final(self).secondary_runtime is None,
            final(self).secondary == old(self).secondary,
            final(self).source_done == old(self).source_done,
    {
        self.pending.clear();
        self.secondary_runtime = None;
    }

    /// After the primary stream finished, pulls the secondary source and emits the oldest queued
    /// element.
    pub fn drain_pending(&mut self) -> (r: Result<Vec<Out>, StreamError>)
        ensures
            final(self).source_done == old(self).source_done,
            !old(self).source_done ==> (r matches Ok(v) && v@.len() == 0) && *final(self) == *old(self),
            old(self).source_done ==> ({
                let start = started(old(self).secondary, runtime_view(old(self).secondary_runtime));
                &&& final(self).secondary == left_unstarted(old(self).secondary, runtime_view(old(self).secondary_runtime))
                &&& runtime_view(final(self).secondary_runtime) == pulled(start).1
                &&& match pulled(start).0 {
                    Err(e) => r == Err::<Vec<Out>, StreamError>(e) && final(self).pending@ == old(self).pending@,
                    Ok(next) => {
                        let q = queued(old(self).pending@, next);
                        if q.len() == 0 {
                            (r matches Ok(v) && v@.len() == 0) && final(self).pending@ == q
                        } else {
                            (r matches Ok(v) && v@ == seq![q[0]]) && final(self).pending@ == q.drop_first()
                        }
                    },
                }
            }),
    {
        let mut out: Vec<Out> = Vec::new();
        if !self.source_done {
            return Ok(out);
        }
        match pull_secondary(&mut self.secondary, &mut self.secondary_runtime, &mut self.pending) {
            Ok(()) => {},
            Err(e) => return Err(e),
        }
        if self.pending.len() > 0 {
            out.push(self.pending.remove(0));
        }
        Ok(out)
    }

    /// Whether, after the primary stream, something may still be emitted.
    pub fn has_pending_output(&self) -> (r: bool)
        ensures
            r == (self.source_done && (self.pending@.len() > 0 || self.secondary is Some
                || (runtime_view(self.secondary_runtime) matches Some(b) && bridge_pending(b)))),
    {
        self.source_done && (self.pending.len() > 0 || self.secondary.is_some() || match &self.secondary_runtime {
            Some(b) => b.has_pending_output(),
            None => false,
        })
    }

    /// Clears the queue; a secondary source not yet consumed is started afresh next time.
    pub fn on_restart(&mut self)
        ensures
            final(self).pending@.len() == 0,
            !final(self).source_done,
            final(self).secondary == old(self).secondary,
            old(self).secondary is Some ==> final(self).secondary_runtime is None,
            old(self).secondary is None ==> final(self).secondary_runtime == old(self).secondary_runtime,
    {
        self.pending.clear();
        self.source_done = false;
        if self.secondary.is_some() {
            self.secondary_runtime = None;
        }
    }
}

/// Emits the secondary stream before the primary one.
pub struct PrependSourceLogic<Out, Mat> {
    pub secondary: Option<Source<Out, Mat>>,
    pub secondary_runtime: Option<SecondarySourceBridge<Out>>,
    pub pending_secondary: Vec<Out>,
    pub pending_primary: Vec<Out>,
}

/// Emitting from the two queues, secondary first, gives `r` and leaves the queues
/// `(secondary_after, primary_after)`.
pub open spec fn emitted_prepended<Out>(secondary: Seq<Out>, primary: Seq<Out>, r: Seq<Out>,
    secondary_after: Seq<Out>, primary_after: Seq<Out>) -> bool
{
    if secondary.len() > 0 {
        r == seq![secondary[0]] && secondary_after == secondary.drop_first() && primary_after == primary
    } else if primary.len() > 0 {
        r == seq![primary[0]] && secondary_after == secondary && primary_after == primary.drop_first()
    } else {
        r.len() == 0 && secondary_after == secondary && primary_after == primary
    }
}

impl<Out, Mat> PrependSourceLogic<Out, Mat> {
    /// Creates the logic with the secondary source not started.
    pub fn new(secondary: Source<Out, Mat>) -> (r: Self)
        ensures r.secondary == Some(secondary), r.secondary_runtime is None,
            r.pending_secondary@.len() == 0, r.pending_primary@.len() == 0,
    {
        PrependSourceLogic { secondary: Some(secondary), secondary_runtime: None, pending_secondary: Vec::new(),
            pending_primary: Vec::new() }
    }

    /// Pulls the secondary source and emits the oldest secondary element, or else the oldest
    /// primary one.
    pub fn drain_pending(&mut self) -> (r: Result<Vec<Out>, StreamError>)
        ensures
            ({
                let start = started(old(self).secondary, runtime_view(old(self).secondary_runtime));
                &&& final(self).secondary == left_unstarted(old(self).secondary, runtime_view(old(self).secondary_runtime))
                &&& runtime_view(final(self).secondary_runtime) == pulled(start).1
                &&& match pulled(start).0 {
                    Err(e) => r == Err::<Vec<Out>, StreamError>(e)
                        && final(self).pending_secondary@ == old(self).pending_secondary@
                        && final(self).pending_primary@ == old(self).pending_primary@,
                    Ok(next) => r matches Ok(v) && emitted_prepended(queued(old(self).pending_secondary@, next),
                        old(self).pending_primary@, v@, final(self).pending_secondary@, final(self).pending_primary@),
                }
            }),
    {
        let mut out: Vec<Out> = Vec::new();
        match pull_secondary(&mut self.secondary, &mut self.secondary_runtime, &mut self.pending_secondary) {
            Ok(()) => {},
            Err(e) => return Err(e),
        }
        if self.pending_secondary.len() > 0 {
            out.push(self.pending_secondary.remove(0));
        } else if self.pending_primary.len() > 0 {
            out.push(self.pending_primary.remove(0));
        }
        Ok(out)
    }

    /// Queues a primary element behind the secondary stream, then drains.
    pub fn apply(&mut self, input: Out) -> (r: Result<Vec<Out>, StreamError>)
        ensures
            ({
                let start = started(old(self).secondary, runtime_view(old(self).secondary_runtime));
                let primary = old(self).pending_primary@.push(input);
                &&& final(self).secondary == left_unstarted(old(self).secondary, runtime_view(old(self).secondary_runtime))
                &&& runtime_view(final(self).secondary_runtime) == pulled(start).1
                &&& match pulled(start).0 {
                    Err(e) => r == Err::<Vec<Out>, StreamError>(e)
                        && final(self).pending_secondary@ == old(self).pending_secondary@
                        && final(self).pending_primary@ == primary,
                    Ok(next) => r matches Ok(v) && emitted_prepended(queued(old(self).pending_secondary@, next),
                        primary, v@, final(self).pending_secondary@, final(self).pending_primary@),
                }
            }),
    {
        self.pending_primary.push(input);
        self.drain_pending()
    }

    /// A new primary element is accepted only when none waits.
    pub fn can_accept_input(&self) -> (r: bool)
        ensures r == (self.pending_primary@.len() == 0),
    {
        self.pending_primary.len() == 0
    }

    /// Drops what is queued and stops the secondary source.
    pub fn on_downstream_cancel(&mut self)
        ensures
            final(self).pending_primary@.len() == 0,
            final(self).pending_secondary@.len() == 0,
            final(self).secondary_runtime is None,
            final(self).secondary == old(self).secondary,
    {
        self.pending_primary.clear();
        self.pending_secondary.clear();
        self.secondary_runtime = None;
    }

    /// Whether something may still be emitted.
    pub fn has_pending_output(&self) -> (r: bool)
        ensures
            r == (self.pending_secondary@.len() > 0 || self.pending_primary@.len() > 0 || self.secondary is Some
                || (runtime_view(self.secondary_runtime) matches Some(b) && bridge_pending(b))),
    {
        self.pending_secondary.len() > 0 || self.pending_primary.len() > 0 || self.secondary.is_some()
            || match &self.secondary_runtime {
            Some(b) => b.has_pending_output(),
            None => false,
        }
    }

    /// Clears the queues; a secondary source not yet consumed is started afresh next time.
    pub fn on_restart(&mut self)
        ensures
            final(self).pending_primary@.len() == 0,
            final(self).pending_secondary@.len() == 0,
            final(self).secondary == old(self).secondary,
            old(self).secondary is Some ==> final(self).secondary_runtime is None,
            old(self).secondary is None ==> final(self).secondary_runtime == old(self).secondary_runtime,
    {
        self.pending_primary.clear();
        self.pending_secondary.clear();
        if self.secondary.is_some() {
            self.secondary_runtime = None;
        }
    }
}

/// Emits the primary stream, or the secondary one when the primary finishes without any element.
pub struct OrElseSourceLogic<Out, Mat> {
    pub secondary: Option<Source<Out, Mat>>,
    pub secondary_runtime: Option<SecondarySourceBridge<Out>>,
    pub pending_secondary: Vec<Out>,
    pub emitted_primary: bool,
    pub source_done: bool,
}

impl<Out, Mat> OrElseSourceLogic<Out, Mat> {
    /// Creates the logic with the secondary source not started.
    pub fn new(secondary: Source<Out, Mat>) -> (r: Self)
        ensures r.secondary == Some(secondary), r.secondary_runtime is None, r.pending_secondary@.len() == 0,
            !r.emitted_primary, !r.source_done,
    {
        OrElseSourceLogic { secondary: Some(secondary), secondary_runtime: None, pending_secondary: Vec::new(),
            emitted_primary: false, source_done: false }
    }

    /// Passes a primary element through and rules the secondary stream out.
    pub fn apply(&mut self, input: Out) -> (r: Vec<Out>)
        ensures r@ == seq![input], *final(self) == (OrElseSourceLogic { emitted_primary: true, ..*old(self) }),
    {
        self.emitted_primary = true;
        let mut out: Vec<Out> = Vec::new();
        out.push(input);
        out
    }

    /// Records that the primary stream has finished.
    pub fn on_source_done(&mut self)
        ensures
            final(self).source_done,
            final(self).emitted_primary == old(self).emitted_primary,
            final(self).secondary == old(self).secondary,
            final(self).secondary_runtime == old(self).secondary_runtime,
            old(self).emitted_primary ==> final(self).pending_secondary@.len() == 0,
            !old(self).emitted_primary ==> final(self).pending_secondary@ == old(self).pending_secondary@,
    {
        self.source_done = true;
        if self.emitted_primary {
            self.pending_secondary.clear();
        }
    }

    /// Drops what is queued and stops the secondary source.
    pub fn on_downstream_cancel(&mut self)
        ensures
            final(self).pending_secondary@.len() == 0,
            final(self).secondary_runtime is None,
            final(self).secondary == old(self).secondary,
            final(self).emitted_primary == old(self).emitted_primary,
            final(self).source_done == old(self).source_done,
    {
        self.pending_secondary.clear();
        self.secondary_runtime = None;
    }

    /// Once the primary stream finished empty, pulls the secondary source and emits the oldest
    /// queued element.
    pub fn drain_pending(&mut self) -> (r: Result<Vec<Out>, StreamError>)
        ensures
            final(self).source_done == old(self).source_done,
            final(self).emitted_primary == old(self).emitted_primary,
            !old(self).source_done || old(self).emitted_primary ==> (r matches Ok(v) && v@.len() == 0) && *final(self) == *old(self),
            old(self).source_done && !old(self).emitted_primary ==> ({
                let start = started(old(self).secondary, runtime_view(old(self).secondary_runtime));
                &&& final(self).secondary == left_unstarted(old(self).secondary, runtime_view(old(self).secondary_runtime))
                &&& runtime_view(final(self).secondary_runtime) == pulled(start).1
                &&& match pulled(start).0 {
                    Err(e) => r == Err::<Vec<Out>, StreamError>(e) && final(self).pending_secondary@ == old(self).pending_secondary@,
                    Ok(next) => {
                        let q = queued(old(self).pending_secondary@, next);
                        if q.len() == 0 {
                            (r matches Ok(v) && v@.len() == 0) && final(self).pending_secondary@ == q
                        } else {
                            (r matches Ok(v) && v@ == seq![q[0]]) && final(self).pending_secondary@ == q.drop_first()
                        }
                    },
                }
            }),
    {
        let mut out: Vec<Out> = Vec::new();
        if !self.source_done || self.emitted_primary {
            return Ok(out);
        }
        match pull_secondary(&mut self.secondary, &mut self.secondary_runtime, &mut self.pending_secondary) {
            Ok(()) => {},
            Err(e) => return Err(e),
        }
        if self.pending_secondary.len() > 0 {
            out.push(self.pending_secondary.remove(0));
        }
        Ok(out)
    }

    /// Whether the secondary stream may still be emitted.
    pub fn has_pending_output(&self) -> (r: bool)
        ensures
            r == (self.source_done && !self.emitted_primary && (self.pending_secondary@.len() > 0 || self.secondary is Some
                || (runtime_view(self.secondary_runtime) matches Some(b) && bridge_pending(b)))),
    {
        self.source_done && !self.emitted_primary && (self.pending_secondary.len() > 0 || self.secondary.is_some()
            || match &self.secondary_runtime {
            Some(b) => b.has_pending_output(),
            None => false,
        })
    }

    /// Clears the state; a secondary source not yet consumed is started afresh next time.
    pub fn on_restart(&mut self)
        ensures
            final(self).pending_secondary@.len() == 0,
            !final(self).emitted_primary,
            !final(self).source_done,
            final(self).secondary == old(self).secondary,
            old(self).secondary is Some ==> final(self).secondary_runtime is None,
            old(self).secondary is None ==> final(self).secondary_runtime == old(self).secondary_runtime,
    {
        self.pending_secondary.clear();
        self.emitted_primary = false;
        self.source_done = false;
        if self.secondary.is_some() {
            self.secondary_runtime = None;
        }
    }
}

} // verus!
