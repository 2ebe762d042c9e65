//! Bounded element buffers with an overflow policy.
use vstd::prelude::*;
use crate::error::StreamError;

verus! {

/// What a full buffer does with a new element.
#[derive(Debug, Clone, Copy, PartialEq, Eq, Structural)]
pub enum OverflowPolicy {
    /// Rejects the new element.
    Block,
    /// Discards the new element.
    DropNewest,
    /// Discards the oldest buffered element to make room.
    DropOldest,
    /// Grows beyond the capacity.
    Grow,
}

/// How an offered element was taken in.
#[derive(Debug, Clone, Copy, PartialEq, Eq, Structural)]
pub enum OfferOutcome {
    /// The element was appended.
    Enqueued,
    /// The element was discarded because the buffer was full.
    DroppedNewest,
    /// The oldest element was discarded and the new one appended.
    DroppedOldest,
    /// The buffer grew past its capacity to hold the element; `len` is the new length.
    GrewTo { len: usize },
}

/// Configuration for stream buffers.
#[derive(Debug, Clone, Copy, PartialEq, Eq, Structural)]
pub struct StreamBufferConfig {
    capacity: usize,
    overflow_policy: OverflowPolicy,
}

impl StreamBufferConfig {
    /// The configured capacity.
    pub closed spec fn spec_capacity(self) -> usize {
        self.capacity
    }

    /// The configured overflow policy.
    pub closed spec fn spec_overflow_policy(self) -> OverflowPolicy {
        self.overflow_policy
    }

    /// Creates a configuration with the given capacity and policy.
    pub fn new(capacity: usize, overflow_policy: OverflowPolicy) -> (r: Self)
        ensures r.spec_capacity() == capacity, r.spec_overflow_policy() == overflow_policy,
    {
        StreamBufferConfig { capacity, overflow_policy }
    }

    /// Returns the configured capacity.
    pub fn capacity(&self) -> (r: usize)
        ensures r == self.spec_capacity(),
    {
        self.capacity
    }

    /// Returns the configured overflow policy.
    pub fn overflow_policy(&self) -> (r: OverflowPolicy)
        ensures r == self.spec_overflow_policy(),
    {
        self.overflow_policy
    }

    /// Replaces the capacity.
    pub fn with_capacity(self, capacity: usize) -> (r: Self)
        ensures r.spec_capacity() == capacity, r.spec_overflow_policy() == self.spec_overflow_policy(),
    {
        StreamBufferConfig { capacity, ..self }
    }

    /// Replaces the overflow policy.
    pub fn with_overflow_policy(self, overflow_policy: OverflowPolicy) -> (r: Self)
        ensures r.spec_capacity() == self.spec_capacity(), r.spec_overflow_policy() == overflow_policy,
    {
        StreamBufferConfig { overflow_policy, ..self }
    }
}

impl Default for StreamBufferConfig {
    /// Sixteen elements, blocking when full.
    fn default() -> (r: Self)
        ensures r.spec_capacity() == 16, r.spec_overflow_policy() == OverflowPolicy::Block,
    {
        StreamBufferConfig { capacity: 16, overflow_policy: OverflowPolicy::Block }
    }
}

/// A first-in first-out buffer with a capacity and an overflow policy.
pub struct StreamBuffer<T> {
    items: Vec<T>,
    capacity: usize,
    overflow_policy: OverflowPolicy,
}

/// Offering `value` to a buffer holding `items` with `capacity` and `policy` gives `outcome`
/// and leaves `after`.
pub open spec fn offered<T>(items: Seq<T>, capacity: usize, policy: OverflowPolicy, value: T,
    outcome: Result<OfferOutcome, StreamError>, after: Seq<T>) -> bool
{
    if items.len() < capacity {
        outcome == Ok::<OfferOutcome, StreamError>(OfferOutcome::Enqueued) && after == items.push(value)
    } else {
        match policy {
            OverflowPolicy::Block => outcome == Err::<OfferOutcome, StreamError>(StreamError::BufferOverflow) && after == items,
            OverflowPolicy::DropNewest => outcome == Ok::<OfferOutcome, StreamError>(OfferOutcome::DroppedNewest) && after == items,
            OverflowPolicy::DropOldest => if items.len() == 0 {
                outcome == Err::<OfferOutcome, StreamError>(StreamError::BufferOverflow) && after == items
            } else {
                outcome == Ok::<OfferOutcome, StreamError>(OfferOutcome::DroppedOldest) && after == items.drop_first().push(value)
            },
            OverflowPolicy::Grow => outcome == Ok::<OfferOutcome, StreamError>(OfferOutcome::GrewTo { len: (items.len() + 1) as usize })
                && after == items.push(value),
        }
    }
}

/// The elements a buffer holds after `value` is offered to one holding `items`.
pub open spec fn after_offer<T>(items: Seq<T>, capacity: usize, policy: OverflowPolicy, value: T) -> Seq<T> {
    if items.len() < capacity {
        items.push(value)
    } else {
        match policy {
            OverflowPolicy::Block => items,
            OverflowPolicy::DropNewest => items,
            OverflowPolicy::DropOldest => if items.len() == 0 { items } else { items.drop_first().push(value) },
            OverflowPolicy::Grow => items.push(value),
        }
    }
}

/// The elements a buffer holds after each of `values` is offered in turn to one holding `items`.
pub open spec fn after_offers<T>(items: Seq<T>, capacity: usize, policy: OverflowPolicy, values: Seq<T>) -> Seq<T>
    decreases values.len(),
{
    if values.len() == 0 {
        items
    } else {
        after_offer(after_offers(items, capacity, policy, values.drop_last()), capacity, policy, values.last())
    }
}

/// What `count` successive polls of a buffer holding `items` return, oldest first.
pub open spec fn polled<T>(items: Seq<T>, count: nat) -> Seq<T>
    decreases count,
{
    if count == 0 || items.len() == 0 {
        Seq::empty()
    } else {
        seq![items[0]].add(polled(items.drop_first(), (count - 1) as nat))
    }
}

/// An offer leaves the buffer holding exactly what `after_offer` says.
pub proof fn lemma_offered_is_after_offer<T>(items: Seq<T>, capacity: usize, policy: OverflowPolicy, value: T,
    outcome: Result<OfferOutcome, StreamError>, after: Seq<T>)
    requires offered(items, capacity, policy, value, outcome, after),
    ensures after == after_offer(items, capacity, policy, value),
{
}

/// First in, first out: offering `values` one by one to an empty buffer with room for all of them
/// and then polling as many times gives the values back in the order they were offered.
pub proof fn lemma_buffer_fifo<T>(capacity: usize, policy: OverflowPolicy, values: Seq<T>)
    requires values.len() <= capacity,
    ensures
        after_offers(Seq::empty(), capacity, policy, values) == values,
        polled(after_offers(Seq::empty(), capacity, policy, values), values.len()) == values,
    decreases values.len(),
{
    if values.len() > 0 {
        lemma_buffer_fifo(capacity, policy, values.drop_last());
        assert(values.drop_last().push(values.last()) =~= values);
    }
    lemma_polled_all(values);
}

/// Polling a buffer as many times as it holds elements returns all of them in order.
pub proof fn lemma_polled_all<T>(items: Seq<T>)
    ensures polled(items, items.len()) == items,
    decreases items.len(),
{
    if items.len() > 0 {
        lemma_polled_all(items.drop_first());
        assert(seq![items[0]].add(items.drop_first()) =~= items);
    }
}

impl<T> StreamBuffer<T> {
    /// The buffered elements, oldest first.
    pub closed spec fn view_items(self) -> Seq<T> {
        self.items@
    }

    /// The capacity limit.
    pub closed spec fn spec_capacity(self) -> usize {
        self.capacity
    }

    /// The overflow policy.
    pub closed spec fn spec_overflow_policy(self) -> OverflowPolicy {
        self.overflow_policy
    }

    /// Creates an empty buffer using the provided configuration.
    pub fn new(config: StreamBufferConfig) -> (r: Self)
        ensures
            r.view_items().len() == 0,
            r.spec_capacity() == config.spec_capacity(),
            r.spec_overflow_policy() == config.spec_overflow_policy(),
    {
        StreamBuffer { items: Vec::new(), capacity: config.capacity(), overflow_policy: config.overflow_policy() }
    }

    /// Offers an element; a full buffer applies its overflow policy.
    pub fn offer(&mut self, value: T) -> (r: Result<OfferOutcome, StreamError>)
        requires old(self).view_items().len() < usize::MAX,
        ensures
            offered(old(self).view_items(), old(self).spec_capacity(), old(self).spec_overflow_policy(), value, r,
                final(self).view_items()),
            final(self).spec_capacity() == old(self).spec_capacity(),
            final(self).spec_overflow_policy() == old(self).spec_overflow_policy(),
    {
        if self.items.len() < self.capacity {
            self.items.push(value);
            return Ok(OfferOutcome::Enqueued);
        }
        match self.overflow_policy {
            OverflowPolicy::Block => Err(StreamError::BufferOverflow),
            OverflowPolicy::DropNewest => Ok(OfferOutcome::DroppedNewest),
            OverflowPolicy::DropOldest => {
                if self.items.len() == 0 {
                    return Err(StreamError::BufferOverflow);
                }
                let _ = self.items.remove(0);
                self.items.push(value);
                Ok(OfferOutcome::DroppedOldest)
            },
            OverflowPolicy::Grow => {
                self.items.push(value);
                Ok(OfferOutcome::GrewTo { len: self.items.len() })
            },
        }
    }

    /// Takes the oldest element; an empty buffer fails with `StreamError::Failed`.
    pub fn poll(&mut self) -> (r: Result<T, StreamError>)
        ensures
            old(self).view_items().len() == 0 ==> r == Err::<T, StreamError>(StreamError::Failed)
                && final(self).view_items() == old(self).view_items(),
            old(self).view_items().len() > 0 ==> r == Ok::<T, StreamError>(old(self).view_items()[0])
                && final(self).view_items() == old(self).view_items().drop_first(),
            final(self).spec_capacity() == old(self).spec_capacity(),
            final(self).spec_overflow_policy() == old(self).spec_overflow_policy(),
    {
        if self.items.len() == 0 {
            return Err(StreamError::Failed);
        }
        Ok(self.items.remove(0))
    }

    /// Returns the number of buffered elements.
    pub fn len(&self) -> (r: usize)
        ensures r == self.view_items().len(),
    {
        self.items.len()
    }

    /// Returns `true` when the buffer is empty.
    pub fn is_empty(&self) -> (r: bool)
        ensures r == (self.view_items().len() == 0),
    {
        self.items.len() == 0
    }

    /// Returns the capacity limit.
    pub fn capacity(&self) -> (r: usize)
        ensures r == self.spec_capacity(),
    {
        self.capacity
    }

    /// Returns the overflow policy.
    pub fn overflow_policy(&self) -> (r: OverflowPolicy)
        ensures r == self.spec_overflow_policy(),
    {
        self.overflow_policy
    }
}

/// A blocking buffer never holds more than its capacity: an accepted element is appended at the
/// back, and a refused one leaves the buffer as it was, full.
pub proof fn lemma_blocking_buffer_bounded<T>(items: Seq<T>, capacity: usize, value: T,
    outcome: Result<OfferOutcome, StreamError>, after: Seq<T>)
    requires
        items.len() <= capacity,
        offered(items, capacity, OverflowPolicy::Block, value, outcome, after),
    ensures
        after.len() <= capacity,
        outcome is Ok ==> after == items.push(value),
        outcome is Err ==> after == items && items.len() == capacity,
{
}

} // verus!
