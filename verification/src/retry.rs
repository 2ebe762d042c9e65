//! Per-element retry with exponential backoff around an inner flow logic.
use vstd::prelude::*;
use crate::error::StreamError;
use crate::flow_logic::FlowLogic;

verus! {

/// The multiplier of the jitter generator's linear congruential step.
pub const JITTER_MULTIPLIER: u64 = 6_364_136_223_846_793_005u64;

/// The state the jitter generator starts from.
pub const JITTER_SEED: u64 = 0xcafe_u64;

/// `x` saturated to the range of `u32`.
pub open spec fn sat_u32(x: int) -> u32 {
    if x > u32::MAX { u32::MAX } else if x < 0 { 0 } else { x as u32 }
}

/// `x` saturated to the range of `u64`.
pub open spec fn sat_u64(x: int) -> u64 {
    if x > u64::MAX { u64::MAX } else if x < 0 { 0 } else { x as u64 }
}

/// `active` raised to at least `min`, then lowered to at most `max`.
pub open spec fn clamp_backoff(active: u32, min: u32, max: u32) -> u32 {
    let raised = if active < min { min } else { active };
    if raised > max { max } else { raised }
}

/// One step of the jitter generator.
pub open spec fn next_jitter_state(state: u64) -> u64 {
    vstd::wrapping::u64_specs::wrapping_add(vstd::wrapping::u64_specs::wrapping_mul(state, JITTER_MULTIPLIER), 1)
}

/// The jitter added to `base` ticks and the generator state afterwards.
pub open spec fn jitter_for(state: u64, base: u32, factor_permille: u16) -> (u32, u64) {
    if factor_permille == 0 || base == 0 {
        (0, state)
    } else {
        let next = next_jitter_state(state);
        let ratio_permille = ((next >> 32u64) as u32) % 1001;
        ((sat_u32(sat_u32(base * factor_permille) * ratio_permille) / 1_000_000) as u32, next)
    }
}

/// The cooldown before a retry, the backoff kept for the next one and the generator state
/// afterwards, from the current backoff and generator state.
pub open spec fn cooldown_step(active: u32, state: u64, min: u32, max: u32, factor_permille: u16) -> (u32, u32, u64) {
    let base = clamp_backoff(active, min, max);
    let (jitter, next_state) = jitter_for(state, base, factor_permille);
    let doubled = sat_u32(base * 2);
    let capped = if doubled > max { max } else { doubled };
    let next_backoff = if capped < min { min } else { capped };
    let sum = sat_u32(base + jitter);
    (if sum > max { max } else { sum }, next_backoff, next_state)
}

/// The jitter never exceeds `random_factor_permille` thousandths of the base.
pub proof fn lemma_jitter_bounded(state: u64, base: u32, factor_permille: u16)
    ensures
        jitter_for(state, base, factor_permille).0 * 1000 <= base * factor_permille,
{
    if factor_permille != 0 && base != 0 {
        let next = next_jitter_state(state);
        let ratio = ((next >> 32u64) as u32) % 1001;
        let scaled = sat_u32(base * factor_permille);
        let product = sat_u32(scaled * ratio);
        assert(ratio <= 1000);
        assert(scaled <= base * factor_permille);
        assert(product <= scaled * ratio);
        assert(scaled * ratio <= scaled * 1000) by (nonlinear_arith) requires ratio <= 1000, scaled >= 0;
        assert((product / 1_000_000) as int * 1000 <= product as int) by (nonlinear_arith) requires product >= 0;
    }
}

/// A retry's cooldown never exceeds `max_backoff_ticks`; with `min <= max` it is at least the
/// clamped base, and the kept backoff is the clamped double of the base.
pub proof fn lemma_cooldown_bounded(active: u32, state: u64, min: u32, max: u32, factor_permille: u16)
    ensures
        cooldown_step(active, state, min, max, factor_permille).0 <= max,
        min <= max ==> clamp_backoff(active, min, max) <= cooldown_step(active, state, min, max, factor_permille).0,
        min <= max ==> min <= cooldown_step(active, state, min, max, factor_permille).1 <= max,
        min <= max ==> cooldown_step(active, state, min, max, factor_permille).1
            == clamp_backoff(sat_u32(2 * clamp_backoff(active, min, max)), min, max),
{
}

/// An element waiting to be retried once the tick count reaches `ready_at`.
pub struct PendingRetry<In> {
    pub element: In,
    pub ready_at: u64,
    pub retry_count: usize,
    pub backoff_ticks: u32,
}

/// Flow logic that retries elements with exponential backoff.
///
/// When `decide_retry` returns `Some(retry_element)` for an output of the inner logic, the
/// output is held back and `retry_element` is fed through the inner logic again after a
/// backoff delay, until the element's retry budget (`max_retries`) is spent. The backoff
/// doubles on each retry, clamped to `[min_backoff_ticks, max_backoff_ticks]`, with jitter
/// of up to `random_factor_permille` thousandths of the base. A chain of inner logics is one
/// inner logic built with [`ChainLogic`](crate::flow_logic::ChainLogic).
pub struct RetryFlowLogic<In, Out, L, R> {
    pub inner: L,
    pub decide_retry: R,
    pub element_in_progress: Option<In>,
    pub active_retry_count: usize,
    pub active_backoff_ticks: u32,
    pub max_retries: usize,
    pub min_backoff_ticks: u32,
    pub max_backoff_ticks: u32,
    pub random_factor_permille: u16,
    pub jitter_state: u64,
    pub pending_retries: Vec<PendingRetry<In>>,
    pub tick_count: u64,
    pub _out: core::marker::PhantomData<Out>,
}

/// `decisions` holds what `decide` answers for `element` and each of `outputs`.
pub open spec fn decided_by<In, Out, R: Fn(&In, &Out) -> Option<In>>(
    decide: R,
    element: In,
    outputs: Seq<Out>,
    decisions: Seq<Option<In>>,
) -> bool {
    &&& decisions.len() == outputs.len()
    &&& forall|i: int| 0 <= i < outputs.len() ==> call_ensures(decide, (&element, &outputs[i]), #[trigger] decisions[i])
}

/// What checking the outputs has produced so far: the emitted outputs, the pending retries,
/// the backoff and the jitter state.
pub type RetryCheck<In, Out> = (Seq<Out>, Seq<PendingRetry<In>>, u32, u64);

impl<In, Out, L, R> RetryFlowLogic<In, Out, L, R> {
    /// Handles one output of the inner logic whose retry decision is `decision`.
    pub open spec fn check_step(self, acc: RetryCheck<In, Out>, output: Out, decision: Option<In>) -> RetryCheck<In, Out> {
        match decision {
            None => (acc.0.push(output), acc.1, acc.2, acc.3),
            Some(retry_element) => {
                if self.active_retry_count >= self.max_retries {
                    (acc.0.push(output), acc.1, acc.2, acc.3)
                } else {
                    let (cooldown, backoff, state) = cooldown_step(
                        acc.2, acc.3, self.min_backoff_ticks, self.max_backoff_ticks, self.random_factor_permille);
                    let retry = PendingRetry {
                        element: retry_element,
                        ready_at: sat_u64(self.tick_count + cooldown),
                        retry_count: (self.active_retry_count + 1) as usize,
                        backoff_ticks: backoff,
                    };
                    (acc.0, acc.1.push(retry), backoff, state)
                }
            },
        }
    }

    /// The result of checking `outputs`, whose retry decisions are `decisions`, in order.
    pub open spec fn check_all(self, outputs: Seq<Out>, decisions: Seq<Option<In>>) -> RetryCheck<In, Out>
        decreases outputs.len(),
    {
        if outputs.len() == 0 || decisions.len() == 0 {
            (Seq::empty(), self.pending_retries@, self.active_backoff_ticks, self.jitter_state)
        } else {
            self.check_step(
                self.check_all(outputs.drop_last(), decisions.drop_last()),
                outputs.last(),
                decisions.last(),
            )
        }
    }

    /// Checking outputs loses none of them: each output is either emitted or becomes exactly one
    /// new retry, queued after the earlier retries; each new retry is within the retry budget and
    /// due no later than `max_backoff_ticks` after the current tick; once the budget is spent,
    /// every output is emitted and nothing is scheduled.
    pub proof fn lemma_check_all_accounts(self, outputs: Seq<Out>, decisions: Seq<Option<In>>)
        requires
            decisions.len() == outputs.len(),
        ensures
            self.check_all(outputs, decisions).0.len() + self.check_all(outputs, decisions).1.len()
                == outputs.len() + self.pending_retries@.len(),
            self.check_all(outputs, decisions).1.take(self.pending_retries@.len() as int) == self.pending_retries@,
            self.pending_retries@.len() <= self.check_all(outputs, decisions).1.len(),
            forall|i: int| self.pending_retries@.len() <= i < self.check_all(outputs, decisions).1.len() ==> {
                &&& (#[trigger] self.check_all(outputs, decisions).1[i]).retry_count == self.active_retry_count + 1
                &&& self.check_all(outputs, decisions).1[i].retry_count <= self.max_retries
                &&& self.check_all(outputs, decisions).1[i].ready_at <= self.tick_count + self.max_backoff_ticks
            },
            self.active_retry_count >= self.max_retries ==> self.check_all(outputs, decisions).0 == outputs
                && self.check_all(outputs, decisions).1 == self.pending_retries@,
        decreases outputs.len(),
    {
        if outputs.len() > 0 {
            let prev = self.check_all(outputs.drop_last(), decisions.drop_last());
            self.lemma_check_all_accounts(outputs.drop_last(), decisions.drop_last());
            let check = self.check_all(outputs, decisions);
            assert(check == self.check_step(prev, outputs.last(), decisions.last()));
            match decisions.last() {
                None => {},
                Some(e) => {
                    if self.active_retry_count < self.max_retries {
                        lemma_cooldown_bounded(prev.2, prev.3, self.min_backoff_ticks, self.max_backoff_ticks,
                            self.random_factor_permille);
                        assert(check.1.take(self.pending_retries@.len() as int)
                            == prev.1.take(self.pending_retries@.len() as int));
                    }
                },
            }
            if self.active_retry_count >= self.max_retries {
                assert(outputs.drop_last().push(outputs.last()) == outputs);
            }
        } else {
            assert(self.pending_retries@.take(self.pending_retries@.len() as int) == self.pending_retries@);
        }
    }

    /// Whether every pending retry is within the retry budget and due within the backoff cap.
    pub open spec fn retries_bounded(self) -> bool {
        forall|i: int| 0 <= i < self.pending_retries@.len() ==> {
            &&& 1 <= #[trigger] self.pending_retries@[i].retry_count <= self.max_retries
            &&& self.pending_retries@[i].ready_at <= self.tick_count + self.max_backoff_ticks
        }
    }
}

/// `a * b`, saturated to the range of `u32`.
pub fn saturating_mul_u32(a: u32, b: u32) -> (r: u32)
    ensures r == sat_u32(a * b),
{
    match a.checked_mul(b) {
        Some(p) => p,
        None => u32::MAX,
    }
}

impl<In: Clone, Out, L: FlowLogic<In, Out>, R: Fn(&In, &Out) -> Option<In>> RetryFlowLogic<In, Out, L, R> {
    /// Whether `other` has the same decision function, budget, backoff bounds, tick count and
    /// retry count as `self`.
    pub open spec fn kept_settings(self, other: Self) -> bool {
        &&& self.decide_retry == other.decide_retry
        &&& self.max_retries == other.max_retries
        &&& self.min_backoff_ticks == other.min_backoff_ticks
        &&& self.max_backoff_ticks == other.max_backoff_ticks
        &&& self.random_factor_permille == other.random_factor_permille
        &&& self.tick_count == other.tick_count
        &&& self.active_retry_count == other.active_retry_count
    }

    /// Checking `outputs`, with retry decisions `decisions`, may return `r` and leave `after`.
    pub open spec fn checked_with(self, outputs: Seq<Out>, decisions: Seq<Option<In>>,
        r: Result<Vec<Out>, StreamError>, after: Self) -> bool
    {
        let check = self.check_all(outputs, decisions);
        &&& after.pending_retries@ == check.1
        &&& after.active_backoff_ticks == check.2
        &&& after.jitter_state == check.3
        &&& after.element_in_progress is None
        &&& after.kept_settings(self)
        &&& if check.1.len() > self.pending_retries@.len() {
            exists|rr: Result<(), StreamError>| #[trigger] self.inner.restarts(rr, after.inner) && match rr {
                Ok(_) => r matches Ok(v) && v@ == check.0,
                Err(e) => r == Err::<Vec<Out>, StreamError>(e),
            }
        } else {
            after.inner == self.inner && (r matches Ok(v) && v@ == check.0)
        }
    }

    /// Checking the inner logic's `outputs` for retries may return `r` and leave `after`.
    pub open spec fn checks(self, outputs: Seq<Out>, r: Result<Vec<Out>, StreamError>, after: Self) -> bool {
        if outputs.len() == 0 {
            (r matches Ok(v) && v@.len() == 0) && after == (RetryFlowLogic { element_in_progress: None, ..self })
        } else {
            match self.element_in_progress {
                None => r == Err::<Vec<Out>, StreamError>(StreamError::Failed) && after == self,
                Some(element) => exists|decisions: Seq<Option<In>>|
                    #[trigger] decided_by(self.decide_retry, element, outputs, decisions)
                    && self.checked_with(outputs, decisions, r, after),
            }
        }
    }

    /// Feeding `input` through the inner logic as a retry of count `retry_count` with backoff
    /// `backoff_ticks`, then checking its outputs, may return `r` and leave `after`.
    pub open spec fn processes(self, input: In, retry_count: usize, backoff_ticks: u32,
        r: Result<Vec<Out>, StreamError>, after: Self) -> bool
    {
        exists|copy: In, inner_result: Result<Vec<Out>, StreamError>, inner_after: L|
            #[trigger] self.inner.applies(copy, inner_result, inner_after) && cloned(input, copy) && {
                let started = RetryFlowLogic {
                    inner: inner_after,
                    element_in_progress: Some(input),
                    active_retry_count: retry_count,
                    active_backoff_ticks: backoff_ticks,
                    ..self
                };
                match inner_result {
                    Err(e) => r == Err::<Vec<Out>, StreamError>(e) && after == started,
                    Ok(outputs) => started.checks(outputs@, r, after),
                }
            }
    }

    /// Draining may return `r` and leave `after`: the first pending retry is processed once its
    /// time has come.
    pub open spec fn drains(self, r: Result<Vec<Out>, StreamError>, after: Self) -> bool {
        if self.pending_retries@.len() == 0 || self.pending_retries@[0].ready_at > self.tick_count {
            (r matches Ok(v) && v@.len() == 0) && after == self
        } else {
            let first = self.pending_retries@[0];
            exists|popped: Self| #[trigger] popped.processes(first.element, first.retry_count, first.backoff_ticks, r, after)
                && popped.pending_retries@ == self.pending_retries@.drop_first()
                && popped == (RetryFlowLogic { pending_retries: popped.pending_retries, ..self })
        }
    }

    /// Restarting may return `r` and leave `after`: the retry state is cleared and the inner
    /// logic restarted.
    pub open spec fn restarts_with(self, r: Result<(), StreamError>, after: Self) -> bool {
        &&& self.inner.restarts(r, after.inner)
        &&& after.element_in_progress is None
        &&& after.active_retry_count == 0
        &&& after.active_backoff_ticks == self.min_backoff_ticks
        &&& after.pending_retries@.len() == 0
        &&& after.tick_count == 0
        &&& after.jitter_state == self.jitter_state
        &&& after.decide_retry == self.decide_retry
        &&& after.max_retries == self.max_retries
        &&& after.min_backoff_ticks == self.min_backoff_ticks
        &&& after.max_backoff_ticks == self.max_backoff_ticks
        &&& after.random_factor_permille == self.random_factor_permille
    }

    /// Creates the logic with an empty retry queue.
    pub fn new(
        inner: L,
        decide_retry: R,
        max_retries: usize,
        min_backoff_ticks: u32,
        max_backoff_ticks: u32,
        random_factor_permille: u16,
    ) -> (r: Self)
        ensures
            r.inner == inner,
            r.decide_retry == decide_retry,
            r.element_in_progress is None,
            r.active_retry_count == 0,
            r.active_backoff_ticks == min_backoff_ticks,
            r.max_retries == max_retries,
            r.min_backoff_ticks == min_backoff_ticks,
            r.max_backoff_ticks == max_backoff_ticks,
            r.random_factor_permille == random_factor_permille,
            r.jitter_state == JITTER_SEED,
            r.pending_retries@ == Seq::<PendingRetry<In>>::empty(),
            r.tick_count == 0,
    {
        RetryFlowLogic {
            inner,
            decide_retry,
            element_in_progress: None,
            active_retry_count: 0,
            active_backoff_ticks: min_backoff_ticks,
            max_retries,
            min_backoff_ticks,
            max_backoff_ticks,
            random_factor_permille,
            jitter_state: JITTER_SEED,
            pending_retries: Vec::new(),
            tick_count: 0,
            _out: core::marker::PhantomData,
        }
    }

    /// Draws the jitter for `base_ticks` from the generator.
    pub fn compute_jitter_ticks(&mut self, base_ticks: u32) -> (r: u32)
        ensures
            (r, final(self).jitter_state) == jitter_for(old(self).jitter_state, base_ticks, old(self).random_factor_permille),
            *final(self) == (RetryFlowLogic { jitter_state: final(self).jitter_state, ..*old(self) }),
    {
        let factor = self.random_factor_permille as u32;
        if factor == 0 || base_ticks == 0 {
            return 0;
        }
        self.jitter_state = self.jitter_state.wrapping_mul(JITTER_MULTIPLIER).wrapping_add(1);
        let ratio_permille = ((self.jitter_state >> 32u64) as u32) % 1001;
        saturating_mul_u32(saturating_mul_u32(base_ticks, factor), ratio_permille) / 1_000_000
    }

    /// Returns the cooldown before the next retry and doubles the kept backoff.
    pub fn next_cooldown_ticks(&mut self) -> (r: u32)
        ensures
            ({
                let (cooldown, backoff, state) = cooldown_step(old(self).active_backoff_ticks, old(self).jitter_state,
                    old(self).min_backoff_ticks, old(self).max_backoff_ticks, old(self).random_factor_permille);
                &&& r == cooldown
                &&& *final(self) == (RetryFlowLogic { active_backoff_ticks: backoff, jitter_state: state, ..*old(self) })
            }),
    {
        let raised = if self.active_backoff_ticks < self.min_backoff_ticks { self.min_backoff_ticks } else { self.active_backoff_ticks };
        let base = if raised > self.max_backoff_ticks { self.max_backoff_ticks } else { raised };
        let jitter_ticks = self.compute_jitter_ticks(base);
        let doubled = saturating_mul_u32(base, 2);
        let capped = if doubled > self.max_backoff_ticks { self.max_backoff_ticks } else { doubled };
        self.active_backoff_ticks = if capped < self.min_backoff_ticks { self.min_backoff_ticks } else { capped };
        let sum = base.saturating_add(jitter_ticks);
        if sum > self.max_backoff_ticks { self.max_backoff_ticks } else { sum }
    }
    /// Emits the outputs that need no retry and schedules a retry for the others; the inner
    /// logic is restarted when a retry was scheduled.
    pub fn check_outputs(&mut self, outputs: Vec<Out>) -> (r: Result<Vec<Out>, StreamError>)
        requires old(self).ready(),
        ensures final(self).ready(), old(self).checks(outputs@, r, *final(self)),
    {
        let ghost s0 = *self;
        let ghost outs = outputs@;
        if outputs.len() == 0 {
            self.element_in_progress = None;
            return Ok(outputs);
        }
        let element = match self.element_in_progress.take() {
            Some(e) => e,
            None => return Err(StreamError::Failed),
        };
        let ghost mut decisions: Seq<Option<In>> = Seq::empty();
        let mut result: Vec<Out> = Vec::new();
        let mut scheduled_retry = false;
        for output in it: outputs.into_iter()
            invariant
                it.seq() == outs,
                outs.len() > 0,
                s0.element_in_progress == Some(element),
                s0.ready(),
                decisions.len() == it.index(),
                decided_by(s0.decide_retry, element, outs.take(it.index() as int), decisions),
                (result@, self.pending_retries@, self.active_backoff_ticks, self.jitter_state)
                    == s0.check_all(outs.take(it.index() as int), decisions),
                self.kept_settings(s0),
                self.inner == s0.inner,
                self.element_in_progress is None,
                self.active_retry_count == s0.active_retry_count,
                scheduled_retry <==> self.pending_retries@.len() > s0.pending_retries@.len(),
                self.pending_retries@.len() >= s0.pending_retries@.len(),
        {
            let ghost i = it.index();
            let ghost before = s0.check_all(outs.take(i as int), decisions);
            let decision = (self.decide_retry)(&element, &output);
            let ghost d = decision;
            match decision {
                None => {
                    result.push(output);
                },
                Some(retry_element) => {
                    if self.active_retry_count >= self.max_retries {
                        result.push(output);
                    } else {
                        let retry_count = self.active_retry_count + 1;
                        let cooldown = self.next_cooldown_ticks();
                        let backoff_ticks = self.active_backoff_ticks;
                        let ready_at = self.tick_count.saturating_add(cooldown as u64);
                        self.pending_retries.push(PendingRetry { element: retry_element, ready_at, retry_count, backoff_ticks });
                        scheduled_retry = true;
                    }
                },
            }
            proof {
                let ghost d0 = decisions;
                decisions = decisions.push(d);
                let ghost prefix = outs.take(i + 1);
                assert(prefix.drop_last() == outs.take(i as int));
                assert(prefix.last() == output);
                assert(decisions.drop_last() == d0);
                assert(s0.check_all(prefix, decisions) == s0.check_step(before, output, d));
                assert forall|j: int| 0 <= j < prefix.len() implies
                    call_ensures(s0.decide_retry, (&element, &prefix[j]), #[trigger] decisions[j]) by {
                    if j < i { assert(prefix[j] == outs.take(i as int)[j]); }
                }
            }
        }
        proof {
            assert(outs.take(outs.len() as int) == outs);
        }
        if scheduled_retry {
            let restarted = self.inner.on_restart();
            proof {
                assert(decided_by(s0.decide_retry, element, outs, decisions));
            }
            match restarted {
                Ok(_) => Ok(result),
                Err(e) => Err(e),
            }
        } else {
            proof {
                assert(decided_by(s0.decide_retry, element, outs, decisions));
            }
            Ok(result)
        }
    }
    /// Checking outputs keeps every queued retry within the retry budget and due no later than
    /// `max_backoff_ticks` after the current tick.
    pub proof fn lemma_checks_keep_retries_bounded(self, outputs: Seq<Out>, r: Result<Vec<Out>, StreamError>, after: Self)
        requires
            self.retries_bounded(),
            self.checks(outputs, r, after),
        ensures
            after.retries_bounded(),
    {
        if outputs.len() > 0 {
            if let Some(element) = self.element_in_progress {
                let decisions = choose|decisions: Seq<Option<In>>|
                    #[trigger] decided_by(self.decide_retry, element, outputs, decisions)
                    && self.checked_with(outputs, decisions, r, after);
                self.lemma_check_all_accounts(outputs, decisions);
                let check = self.check_all(outputs, decisions);
                assert forall|i: int| 0 <= i < after.pending_retries@.len() implies {
                    &&& 1 <= #[trigger] after.pending_retries@[i].retry_count <= after.max_retries
                    &&& after.pending_retries@[i].ready_at <= after.tick_count + after.max_backoff_ticks
                } by {
                    if i < self.pending_retries@.len() {
                        assert(check.1.take(self.pending_retries@.len() as int)[i] == check.1[i]);
                    }
                }
            }
        }
    }

    /// Feeds `input` through the inner logic and checks its outputs for retries.
    pub fn process_element(&mut self, input: In, retry_count: usize, backoff_ticks: u32) -> (r: Result<Vec<Out>, StreamError>)
        requires old(self).ready(),
        ensures final(self).ready(), old(self).processes(input, retry_count, backoff_ticks, r, *final(self)),
    {
        let ghost s0 = *self;
        let copy = input.clone();
        self.element_in_progress = Some(input);
        self.active_retry_count = retry_count;
        self.active_backoff_ticks = backoff_ticks;
        let applied = self.inner.apply(copy);
        let ghost inner_after = self.inner;
        let ghost started = *self;
        match applied {
            Err(e) => {
                proof { assert(s0.inner.applies(copy, applied, inner_after)); }
                Err(e)
            },
            Ok(outputs) => {
                let r = self.check_outputs(outputs);
                proof { assert(s0.inner.applies(copy, applied, inner_after)); }
                r
            },
        }
    }

    /// Records the current tick.
    pub fn on_tick(&mut self, tick_count: u64)
        ensures *final(self) == (RetryFlowLogic { tick_count, ..*old(self) }),
    {
        self.tick_count = tick_count;
    }

    /// Processes the first pending retry once its time has come.
    pub fn drain_pending(&mut self) -> (r: Result<Vec<Out>, StreamError>)
        requires old(self).ready(),
        ensures final(self).ready(), old(self).drains(r, *final(self)),
    {
        if self.pending_retries.len() == 0 {
            return Ok(Vec::new());
        }
        if self.pending_retries[0].ready_at > self.tick_count {
            return Ok(Vec::new());
        }
        let pending = self.pending_retries.remove(0);
        let ghost popped = *self;
        let r = self.process_element(pending.element, pending.retry_count, pending.backoff_ticks);
        proof { assert(popped.processes(pending.element, pending.retry_count, pending.backoff_ticks, r, *self)); }
        r
    }

    /// Whether retries are waiting.
    pub fn has_pending_output(&self) -> (r: bool)
        ensures r == (self.pending_retries@.len() > 0),
    {
        self.pending_retries.len() > 0
    }

    /// Whether a new input can be accepted: only while no retry is waiting.
    pub fn can_accept_input(&self) -> (r: bool)
        ensures r == (self.pending_retries@.len() == 0),
    {
        self.pending_retries.len() == 0
    }

    /// Clears the retry state and restarts the inner logic.
    pub fn restart(&mut self) -> (r: Result<(), StreamError>)
        requires old(self).ready(),
        ensures final(self).ready(), old(self).restarts_with(r, *final(self)),
    {
        self.element_in_progress = None;
        self.active_retry_count = 0;
        self.active_backoff_ticks = self.min_backoff_ticks;
        self.pending_retries.clear();
        self.tick_count = 0;
        self.inner.on_restart()
    }
}

impl<In: Clone, Out, L: FlowLogic<In, Out>, R: Fn(&In, &Out) -> Option<In>> FlowLogic<In, Out> for RetryFlowLogic<In, Out, L, R> {
    /// The inner logic is ready and the retry decision accepts every element and output.
    open spec fn ready(&self) -> bool {
        &&& self.inner.ready()
        &&& forall|e: &In, o: &Out| call_requires(self.decide_retry, (e, o))
    }

    open spec fn applies(&self, input: In, result: Result<Vec<Out>, StreamError>, after: Self) -> bool {
        self.processes(input, 0, self.min_backoff_ticks, result, after)
    }

    open spec fn restarts(&self, result: Result<(), StreamError>, after: Self) -> bool {
        self.restarts_with(result, after)
    }

    fn apply(&mut self, input: In) -> (r: Result<Vec<Out>, StreamError>) {
        let min = self.min_backoff_ticks;
        self.process_element(input, 0, min)
    }

    fn on_restart(&mut self) -> (r: Result<(), StreamError>) {
        self.restart()
    }
}

} // verus!
